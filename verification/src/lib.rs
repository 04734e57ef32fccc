//! Directory listing lines: permission bits, size, modification time and name
//! of each entry, one line per entry.

pub mod digits;
pub mod entry;
pub mod error;
pub mod listing;
pub mod permissions;
pub mod size;
pub mod timestamp;

pub use entry::{entry_line, format_line, Entry};
pub use error::{ErrorKind, ListError};
pub use listing::{list, process_entry, DirRead, EntryRead, Listing};
pub use permissions::{permission_parse, triplet};
