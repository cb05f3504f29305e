# pdf_writer

A step-by-step PDF writer whose writing functions are verified with Verus.

The entry point is `Pdf`, which builds a document in one internal buffer.
Its methods hand out writers for specific PDF objects (catalog, pages,
annotations, fonts, color spaces, functions, ...). Each writer borrows the
buffer, exposes builder methods for the fields of its object, and closes the
object with `finish`.

Every writing function states in its contract exactly which bytes it appends
(as spec functions over `Seq<u8>`), which is proved for all inputs. Laws such
as the agreement of the cross-reference table with the written objects, the
nesting of graphics states and the round trip of structure roles between PDF
versions are stated in contracts or as public proof functions.

## Layout

- `src/` — the verified library.
  - `object.rs` — primitive objects, arrays, dictionaries, streams, name and
    number trees, and the byte-level model they are specified by.
  - `buf.rs` — the output buffer and the limits it records.
  - `chunk.rs`, `lib.rs` — chunks of indirect objects and the document with
    its cross-reference table and trailer (`xref.rs`).
  - one module per family of writers: `structure.rs`, `annotations.rs`,
    `actions.rs`, `forms.rs`, `attributes.rs`, `color.rs`, `content.rs`,
    `font.rs`, `text.rs`, `functions.rs`, `files.rs`, `renditions.rs`,
    `xobject.rs`.
- `tests/` — tests of the compiled library.
- `app/` — the flag sets (built with `bitflags`) and the formatting of
  floating-point numbers into the decimal texts that the library writes.

Real numbers enter the library as decimal texts (`Real`); formatting an
`f32` into such a text is left to the caller.
