//! What the core decides about audio files and playlists. Reading and
//! writing them belongs to the host.

pub mod format_detector;
pub mod loader;
pub mod playlist_manager;

pub use format_detector::{AudioFormat, FormatDetector};
pub use loader::AudioFileLoader;
pub use playlist_manager::{Playlist, PlaylistItem, PlaylistManager};
