//! Verified core of a musical timeline editor: track bookkeeping, block identifiers,
//! the text it shows, and the decisions its widgets take on pointer input.

pub mod decimal;
pub mod interaction;
pub mod labels;
pub mod model;
pub mod ruler;
pub mod str_map;
pub mod types;
