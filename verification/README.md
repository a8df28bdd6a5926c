# whynottao

The verified core of a webview application library: the decisions behind its
application event loop, windows, webviews, menus, custom protocols, exposed
namespaces, IPC routing, cookies and request headers, each with a contract proved
by Verus.

- `src/` is the library. `application` is the application's state machine (window
  tracking, close and exit handling, the global menu, the window a menu click
  comes from); `window` and `webview` decide
  how windows and webviews are built and answer their settings; `menu` turns menu
  options into menu plans; `protocol` keeps custom protocols and their awaiting
  requests and checks handler responses; `http_parts`, `json` and `text` hold the
  checks and conversions that rely on the `http`, `serde_json` and `image` crates and
  on the standard library.
- `app/` is the Node.js binding: it owns the native event loop, windows, webviews and
  menus and carries out what the library decides.
- `tests/` exercise the library on concrete values.
