# vst3_skeleton

A VST3 gain plugin with a web editor (WebView2 on Windows, WKWebView through `wry` on
macOS): a logarithmic gain parameter shown in dB, peak and RMS meters per channel.

- `src/` is the verified library: the shared parameter and meter store (values kept as
  `f64` bit patterns, the gain clamped into `[0, 1]`), the edit controller's parameter
  handling and its reaction to editor messages (read from their JSON text with `serde_json`), the factory's class table and instance
  decisions, bus and processing layout, editor geometry, and the lookup of the editor's
  HTML inside the installed bundle.
- `app/` is the plugin around it: the COM classes for the host, the sample loop and dB
  arithmetic, and the platform web views.
- `tests/` exercises the library on concrete values.
