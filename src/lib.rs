//! Supervision of data-source plugins: the line protocol they speak, the
//! progress bars their messages drive, and the bookkeeping of a collection run.

pub mod collect;
pub mod config;
pub mod date;
pub mod json;
pub mod progress;
pub mod protocol;
pub mod source;
pub mod terminal;
pub mod text;
