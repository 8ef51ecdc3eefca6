# katana_canvas_forge

The verified core of a diagram rendering and export backend.

- `src/` — the library, verified with Verus:
  - `exporter` — HTML export of SVG diagrams (`HtmlExporter`): the page text
    and the export's answer; the file is written by the caller.
  - `mermaid` — the Mermaid renderer: a step machine (`begin`, `advance`)
    that decides each stage of a Node.js render, the Node.js commands, the
    runtime file paths and the vendor directory choice, the SVG attribute reader,
    the runtime checksum and the cache fingerprint, and the render report.
  - `zenuml` — the ordered scripts of a ZenUML render in the V8 runtime.
  - `json` — JSON string escaping as `serde_json` writes it, the JSON string
    grammar that reads it back, and the proof that the two agree.
  - `render` — types shared by the renderers.
  - `text` — char-sequence search and string helpers.
  - `trusted` — the calls into `sha2`, `hex`, `serde_json` and std, with
    the contracts the library relies on.
- `app/` — the `kcf` command line and the process and file work that the
  library's steps ask for.
- `tests/` — tests of the library.
