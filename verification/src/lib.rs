//! Verified core of the odyssey life cycle assessment tool.
use vstd::prelude::*;

pub mod diagnostics;
pub mod error;
pub mod impacts;
pub mod lca;
pub mod lcia;
pub mod mapped_vector;
pub mod parser;
pub mod registry;
pub mod search;
pub mod text;
pub mod yaml;

verus! {

} // verus!
