# raw_decoder

Camera RAW handling for a Flutter app: detecting the RAW container format
from magic bytes, probing camera metadata, decoding to packed 8-bit RGB,
converting a decode to JPEG and extracting the camera's embedded preview.

- `src/` is the verified library (Verus). `format` detects formats, `pixels`
  packs developed samples as RGB, `orient` turns an image upright by its EXIF
  orientation, `jpeg` holds the JPEG encoder of the `image` crate behind a
  trusted item, `preview` chooses and re-encodes the embedded preview,
  `decoder` holds the operations as stage machines, `messages` the texts of
  their errors.
- `app/` holds the entry points that the Flutter side calls. Each runs
  under a panic guard, performs the rawler reads that the library's stages
  ask for (rawler may panic on malformed files) and hands their outcomes back;
  it converts rawler's images to plain values (8-bit RGB for embedded
  previews; the floating-point developed samples reduced to 8 bits).
- `tests/` exercises the library.
