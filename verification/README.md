# gbf_pake

The verified core of a Granblue Fantasy desktop wrapper (a Tauri app) whose
sidebar, wiki and Options/About pages are webviews beside the game.

- `src/` — the library, verified with Verus:
  - `state` — per-window sidebar flags and the process-wide choices, as step
    functions on `WindowFlags`; panel toggling, automatic lock, lock CSS sync,
    resize echo detection, panel width tier choice.
  - `layout_store` — what is saved per window and how the next launch reads it.
  - `startup` — the once-only startup reveal latch and the page-load decisions.
  - `linux_env` — GDK backend and WebKitGTK safe-mode decisions from the
    environment.
  - `labels`, `theme`, `scripts`, `page_scripts`, `tray` — webview labels,
    themes, the JavaScript pushed into the webviews, the tray menu and shortcut.
  - `label_map`, `text`, `json` — a label-keyed map, string helpers, and JSON
    string literals through serde_json.
  - `laws` — properties spanning several operations.
- `app/` — the Tauri application around it: webviews, windows, the tray, files
  on disk, and the pixel geometry of the split (floating point).
- `tests/` — tests of the library.
