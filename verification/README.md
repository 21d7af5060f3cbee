# libheic_rs

HEIF, HEIC and AVIF container parsing in Verus. The library reads the ISO base
media file format box tree of a file, the item graph of its `meta` box and the
primary image item: its properties (`av1C`, `hvcC`, `ispe`, `pixi`, `colr`,
`irot`, `imir`, `clap`), and the coded payload that its `iloc` extents name,
including the descriptor and tiles of a HEIC `grid` item. Every parser is
stated against a specification of the bytes it accepts and the error it
reports otherwise, and the laws of the format that callers rely on (boxes tile
their range, payloads are the concatenation of their extents, grids have one
tile per reference) are proved.

Layout:

- `src/isobmff/`: box parsing (`boxes`, `leaf`, `iloc`, `items`, `hvcc`), the
  item graph (`find`, `resolve`), primary-item properties (`primary`, `heic`)
  and payload extraction (`extract`, `grid`); `types` and `errors` hold the
  data types with their mathematical views.
- `src/source.rs`: random-access byte sources with checked ranges;
  `src/logged_reader.rs`: a reader with the record of the requests made of it.
- `src/image_integration.rs`: sample and byte counts, validation of decoded
  RGBA buffers and hook registration status.
- `src/checksum.rs`: cheap fingerprints of decoded images.
- `app/`: file access, the `image` crate adapter and conversions, and error
  messages.
