//! Reading and writing the desktop wallpaper setting.
//!
//! The operating system's settings call and its last-error query are made by
//! the caller; this library decides what is handed to that call and what its
//! answer means.
pub mod command;
pub mod error;
pub mod laws;
pub mod reader;
pub mod writer;

pub use command::{set_command, SetCommandError, DEFAULT_WALLPAPER};
pub use error::{Context, WallpaperError};
pub use reader::{get_outcome, BUFFER_SIZE};
pub use writer::{encode_path, set_outcome};
