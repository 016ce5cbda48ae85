//! Path-keyed file and directory reads whose decisions are verified: line
//! splitting, first-line selection, error attribution and the completion of
//! work handed to a worker pool.

pub mod bridge;
pub mod dir;
pub mod error;
pub mod fs;
pub mod lines;

pub use bridge::{deliver, settle, Delivery};
pub use dir::DirEntry;
pub use error::{Error, IoKind};
pub use fs::{
    content_lines, exists_from, first_line, first_line_of, parsed_with_path, text_from_bytes,
    with_path,
};
pub use lines::split_lines;
