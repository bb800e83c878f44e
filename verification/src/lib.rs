//! Path queries and file-system outcomes with errors that say which path was
//! being processed and what went wrong.

pub mod chain;
pub mod context;
pub mod guarantees;
pub mod name;
pub mod path;
pub mod platform;
pub mod render;

pub use crate::path::{
    set_readonly_plan, PathAnyhow, EXPECTED_PARENT, INVALID_UTF8, MISSING_EXTENSION,
    MISSING_FILENAME,
};
pub use crate::render::describe;
