//! Images: the file trees that containers start from, one for each name and
//! tag, and what is kept about them.

pub mod info;
pub mod store;
