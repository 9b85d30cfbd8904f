# qwen_studio

The decision logic of the Qwen Studio desktop client (a Tauri shell around
chat.qwen.ai), written in Verus and proved against its contracts.

## Layout

- `src/` — the verified library.
  - `text` — substring, prefix, replacement and joining over `Seq<char>`.
  - `version` — release-version comparison (numeric components, then
    pre-release tags), with its order laws.
  - `navigation` — the navigation guard of every window; sign-in links.
  - `deep_link` — `qwen://` links: argument lookup, host and token choice
    (through the `url` crate), the token hand-over script.
  - `updater` — banner, settings-tab answer and install permission for an
    update check; download byte counting. Only strictly newer releases count.
  - `package_update` — installation-kind probing, per-kind install plans for
    a newer release, and the install prompt of a manual check.
  - `window` — initialization scripts, window labels, external links,
    DevTools / maximize / full-screen / close behaviour.
  - `menu` — menu bar, title-bar menu and tray layouts and their dispatch.
  - `clipboard` — base64 hand-over of clipboard images (through `base64`).
  - `icon` — icon decoding (through `image`).
  - `scripts` — the injected JavaScript, as literal pieces.
- `tests/` — tests of the library on concrete values.
- `app/` — the Tauri application: plugins, windows, tray, GTK title bar and
  the commands the page invokes. It asks the window system and the update
  server, hands the answers to the library, and carries out its decisions.
