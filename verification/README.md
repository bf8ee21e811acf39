# rhwp (verified core)

Verus-verified core of an HWP/HWPX document tool chain.

- `src/model.rs` — the document model the checks read: sections, paragraphs,
  character-shape runs, line segments and the controls that carry paragraphs.
- `src/roundtrip.rs` — the round-trip IR comparison (`diff_documents`,
  `roundtrip_ir_diff`), specified by `doc_diffs`, with the proofs that a
  document compared with itself is clean and that comparing the other way
  round swaps expected and actual.
- `src/hwpx_roundtrip_batch.rs` — command line, result rows, status words,
  inventory TSV, progress lines and summary counts of the batch round trip.
- `src/paint_op.rs`, `src/ole_chart.rs` — paint vocabulary and chart checks.
- `src/height_cursor.rs` — the integer decisions of the column height cursor.
- `src/text.rs` — decimal rendering and the Unicode white-space class.
- `app/` — files, timing, printing, the `charming` chart renderer and the
  floating-point geometry, around the library.
