use vstd::prelude::*;

pub mod cli;
pub mod ordered_map;
pub mod primitives;
pub mod replay;
pub mod scan;
pub mod sim;
pub mod text;

verus! {
}
