# pdfium_render

Safe access to the Pdfium PDF library, with the library's logic proved correct by Verus.

- `src/` is the verified library: colors, bitmap formats and pixel conversion, bookmarks and
  their breadth-first traversal, documents and their file versions, fonts, form fields, the
  in-memory font provider, the library configuration, and the thread-safe wrapper around a
  set of Pdfium bindings. Pdfium itself is reached through the `PdfiumLibraryBindings` trait.
- `app/` binds that trait to a Pdfium shared library at run time (`libloading`), holds the
  process-wide lock, hands Pdfium its C structures and callbacks, does file and stream I/O,
  and keeps the floating-point parts (transformation matrices, bitmap scaling).
- `tests/` runs the library against an in-memory stand-in for Pdfium.
