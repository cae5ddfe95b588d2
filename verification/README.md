# x-gfx, verified

NES graphics output: the 64-colour NES palette, nearest-neighbour scaling of
256×240 palette-indexed frames to any surface size, and a software
compositor that writes ARGB8888 pixels into a caller's byte buffer.

- `src/` is the library, checked with Verus. `scale` states which frame pixel
  each output pixel shows; `palette` converts and scales whole frames;
  `mcu` writes the scaled frame into a byte buffer; `frame`, `config`,
  `surface` and `gpu` hold the remaining types; `ffi` is the computation
  behind the C entry point.
- `app/` holds the C entry point `gfx_render_frame`, which turns raw
  pointers into slices and calls the library.
- `tests/` exercises the library on concrete frames.
