//! Locks Microsoft's Chinese IME in Chinese mode and the Japanese IME in a
//! chosen conversion mode, and turns CapsLock into a layout switch: the
//! decisions of the program, verified.

pub mod config;
pub mod lang;
pub mod state;
pub mod keyboard;
pub mod ime;
pub mod events;
pub mod flyout;
pub mod tray;
pub mod settings_window;
pub mod autostart;
