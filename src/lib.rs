//! Input handling and interface decisions of an interactive viewer of point
//! charges: reading `(x, y, z)` text, the error dialog, the checks made before
//! a charge is added, and the pairs of charges joined by lines.
use vstd::prelude::*;

pub mod charge_input;
pub mod dialog;
pub mod pairs;
pub mod tuple_text;

verus! {

} // verus!
