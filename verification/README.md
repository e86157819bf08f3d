# raw_rs

Processing of raw camera images:

raw file -> decoder (`rawloader`) -> raw stage (black level) -> RGB stage
(demosaicing, white balance, gamma) -> YUV stage (luma histogram
equalisation) -> JPEG/PNG file (`image`).

- `src/` is the library, verified with Verus: byte-order reads, the raw
  decoding scaffolding and its error messages, the row layout of raw
  samples, black-level correction, the integer stage of bilinear
  demosaicing (neighbour sums per colour), the byte layout of the output
  image, and lemmas on how the stages fit together.
- `app/` holds file reading, the calls into `rawloader` and `image`, and
  the floating-point colour stages.
- `tests/` runs the library on concrete images.
