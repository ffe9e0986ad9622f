//! Decision logic of a lightweight desktop wrapper for WhatsApp Web: which
//! navigations stay in the app window, how dropped or pasted files are handed
//! to the page, how downloads are placed and announced, and what the tray
//! menu does.

pub mod text;
pub mod encoding;
pub mod json;
pub mod navigation;
pub mod filebridge;
pub mod downloads;
pub mod tray;
