//! Decision logic of the Qwen Studio desktop shell: which navigations and
//! links stay inside the WebView, how deep links are read, how release
//! versions compare, what the updater shows and installs, how menus dispatch,
//! and the initialization script handed to every window.
pub mod text;
pub mod version;
pub mod navigation;
pub mod deep_link;
pub mod updater;
pub mod package_update;
pub mod scripts;
pub mod window;
pub mod menu;
pub mod clipboard;
pub mod icon;
