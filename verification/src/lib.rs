//! The decisions of a webview application library: the application's event handling,
//! window and webview settings, menus built from options, custom protocols with their
//! awaiting requests, exposed namespaces and IPC routing, cookies and request headers.
//! The host drives the native window and webview toolkits and follows these decisions.

pub mod application;
pub mod error;
pub mod http_parts;
pub mod json;
pub mod menu;
pub mod platform;
pub mod protocol;
pub mod text;
pub mod webview;
pub mod window;

pub use application::{
    ApplicationEvent, ApplicationOptions, ApplicationRunOptions, CustomMenuEvent, JsControlFlow,
    WebviewApplicationEvent, WindowCommand,
};
pub use http_parts::HeaderData;
pub use menu::{MenuItemOptions, MenuOptions};
