# whatsapp_tauri

The decision logic of a lightweight desktop client for WhatsApp Web, written
in Verus with its contracts proved.

- `src/navigation.rs`: which navigations of the app window are followed,
  denied, or handed to the system browser (external links, WhatsApp redirect
  links), with a guard against repeated navigation events. Only
  `whatsapp.com`, `whatsapp.net` and their subdomains count as WhatsApp.
- `src/filebridge.rs`: MIME types, Base64 entries and the script that hands
  dropped files or a pasted clipboard image to the page.
- `src/downloads.rs`: where a download goes and which notification announces
  its end.
- `src/tray.rs`: the tray menu, its icon and what its items and clicks do.
- `src/encoding.rs`: standard Base64, with its length and its inverse.
- `src/json.rs`: JSON string literals (as `serde_json` escapes them), objects
  and arrays.
- `src/text.rs`: character-level string helpers and file extensions.

`app/` is the Tauri application around the library: window, webview events,
file and clipboard reads, notifications and the tray itself.
