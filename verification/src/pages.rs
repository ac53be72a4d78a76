pub mod object_preview;
pub mod page;
