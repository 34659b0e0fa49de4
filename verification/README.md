# canvas_assembly

The canvas API assembly: it selects the Drive content port of the canvas pages
service, carries page content to and from Drive, and renders API problems.

- `src/` is the library, verified with Verus. The Drive facade's operations
  (create, update, read, restore, version listing, single-part upload, content
  download) are state machines: each takes the answer of the call it asked for
  and names the next call or its outcome. Snapshots, version paging,
  checksums, upload requests, Drive port selection, problem mapping and
  application-root resolution are functions with exact contracts.
- `app/` runs those machines over the Drive App SDK, `reqwest` and `serde_json`,
  builds the routers and the service, and renders responses with the web
  framework.
- `tests/` exercises the library on concrete values.
