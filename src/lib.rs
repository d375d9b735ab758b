//! A store of teleport points: named bookmarks of directories, with the
//! rules that keep names and paths unique, the text the tool prints, and
//! the terminal command that opens a bookmarked directory.
pub mod launch;
pub mod laws;
pub mod store;
pub mod text;
