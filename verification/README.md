# language_detector

Detects the language of an untitled editor buffer from its content.

- `src/` is the verified library (Verus):
  - `syntax`: a plain model of a parsed syntax tree and the count of bytes
    inside error or missing nodes;
  - `coverage`: bytes covered by highlight captures (overlaps counted once)
    and the number of distinct capture names;
  - `scoring`: the exact score of a candidate grammar on a sample and the
    choice of the best match;
  - `detector`: the state machine that decides when a detection runs and
    what it remembers;
  - `content_type`: editor language names of classifier content types;
  - `magika_detector`: classifies a text with Magika and names its editor
    language.
- `app/` is the editor glue: buffers, tasks and timers, the parsers and
  highlight queries, and creating the Magika session.
- `tests/` runs the library on concrete inputs.

The Magika classifier runs on ONNX Runtime, which this build loads at run
time (`ort`'s `load-dynamic` feature): the library must be installed to
create a Magika session.
