//! The decisions behind a global overlay: a window that a system-wide Shift+Tab shows and
//! hides again.
//!
//! The crate makes no system call. Each platform's part is a small machine that names the next
//! request to make of the system and takes the system's reply; what the requests are, in which
//! order they come and what is undone when one of them fails is proved here.
//!
//! * [`overlay`]: showing and hiding the overlay, and giving the focus back.
//! * [`linux_hotkey`], [`macos_hotkey`], [`windows_hotkey`]: registering the hotkey and waiting
//!   for it, on each platform.
//! * [`status_item`]: the item in the macOS status bar.
//! * [`keyboard`]: finding the Tab key on an X11 keyboard.
//! * [`startup`]: bringing the overlay up.
//! * [`toggle_channel`]: the channel on which a pressed hotkey asks for a toggle.
//! * [`error`]: why a hotkey could not be registered, and the text that says so.

pub mod error;
pub mod keyboard;
pub mod linux_hotkey;
pub mod macos_hotkey;
pub mod overlay;
pub mod startup;
pub mod status_item;
pub mod toggle_channel;
pub mod windows_hotkey;
