use vstd::prelude::*;

pub mod chains;
pub mod condition;
pub mod context;
pub mod css;
pub mod error;
pub mod glob;
pub mod loader_condition;
pub mod module_type;
pub mod options;
pub mod pattern;
pub mod rule;
pub mod table;
pub mod text;
pub mod webpack;

verus! {

} // verus!
