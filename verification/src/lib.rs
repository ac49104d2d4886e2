//! An append-only, ordered store of bookmark strings behind one exclusive
//! guard, for a host application that adds bookmarks and lists them from many
//! requests at once.

pub mod collection;
pub mod commands;
pub mod error;
pub mod guard;
pub mod replay;
pub mod store;

pub use collection::BookmarkCollection;
pub use commands::add_bookmark;
pub use commands::get_bookmarks;
pub use error::LockError;
pub use store::BookmarkStore;
