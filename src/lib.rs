//! Output-format resolution for an image converter: which codec to write and
//! under which file name, from the output path, the flags given and the format
//! the source image came in.

pub mod text;
pub mod format;
pub mod paths;
pub mod resolve;
