# physis

A library for the file formats of a game's data files, written in Verus: every function of
`src/` carries a contract that Verus proves it meets, but for three trusted functions in
`src/text.rs` that call std (`string_from_chars`, `text_from_bytes_lossy`, `text_from_utf8`),
whose contracts restate std's documentation.

- `sha1`: SHA-1 hashing, proved against the standard's definition, with streaming input.
- `patchlist`: the patch lists a patch server answers with, read and written as text; what is
  written reads back (`law_patch_list_round_trip`).
- `patch`: the chunks of ZiPatch files and what applying each does to the game directory;
  `app/` performs those steps on disk. Chunks that add a file carry compressed data blocks;
  their decoder is not part of this project, so `app/` refuses such chunks with a parse
  error.
- `repository`, `resource`: repositories of a game directory, their ordering, index file
  names, repairs of version files, and a resolver that layers resources: it reads and parses
  a file from the first resource that has it.
- `savedata`: character data, gear sets, DAT headers and chat logs; what is written reads back.
- `shpk`: shader packages, their selectors and the checksum of their keys.
- `model`: models (MDL files): `MDL::from_existing` reads their headers, data, bone and
  material names, and the indices, submeshes and vertex streams of each mesh;
  `update_headers` recomputes sizes and offsets from the data; `write_to_buffer` writes them
  back, and the file header it writes reads back. Float values are kept as their bits:
  `app/vertices.rs` decodes the vertices from the vertex streams and encodes them back (half
  and single precision, bytes scaled to the unit range), with the `half` crate.
- `layer`: the objects of layer files and the data of each kind, their string heaps and
  collision attributes.
- `lgb`: the header of layer group files, the search for their first layer chunk, and the
  numbers of a chunk's header.
- `mtrl`: materials: their shader package, texture paths, keys, constants, samplers, and
  color and dye tables, with float values kept as their bit patterns.
- `race`, `common`, `equipment`, `scd`, `schd`, `shcd`, and the plain types of other
  formats.

`bytes`, `text`, `decimal` and `split` hold the byte orders, UTF-8 and decimal text, and the
finding and splitting of text that the formats build on.
