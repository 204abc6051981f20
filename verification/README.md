# iab_gpp

Reading of IAB Global Privacy Platform (GPP) consent strings, verified with Verus.

A GPP string is a base64 header listing section identifiers, followed by one
text per section, separated by `~`. Each section has its own layout; most are
URL-safe base64 payloads made of a core segment and optional segments
separated by `.`. Each segment is decoded whole before it is read, so an
invalid character anywhere in a segment is reported as a segment decoding
error.

Layout:

- `src/encoding`: the bit reader, the base64 decoder, Fibonacci codes,
  and the composite fields (strings, timestamps, bit fields, ranges).
- `src/sections`: section identifiers, the decoded sections (TCF EU v1 and
  v2, TCF Canada, US Privacy, US National, and the US state sections of
  California, Virginia, Colorado, Utah, Connecticut, Florida, Montana,
  Oregon, Texas, Delaware, Iowa, Nebraska, New Hampshire, New Jersey and
  Tennessee), their errors and the consistency checks of the US sections.
- `src/v1`: the GPP string itself: header, section texts, decoding on demand.
- `app`: the `gpptool` command line program, which prints decoded sections
  as colored JSON.

Every section identifier but those of the header decodes with its
section's own decoder. The Maryland and Indiana sections have their value
types only, and identifiers above 22 are refused.

Every function of `src` carries a contract stated over mathematical models of
the bits, texts and sets involved, and is proved by Verus, except four small
trusted wrappers whose contracts Verus takes as given:

- `string_push` (`String::push`),
- `new_section_map`, `section_map_insert` and `section_map_get` (the
  `fnv` hash map: `FnvHashMap::default`, `HashMap::insert`, `HashMap::get`),

together with the declarations of the outside types `FnvHasher` and
`BuildHasherDefault`.
