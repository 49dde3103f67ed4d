//! Application settings that the library holds.
use vstd::prelude::*;

verus! {

/// The font sizes the application offers.
#[derive(Debug, Clone, Copy, PartialEq, Eq, Structural)]
pub enum FontSize {
    Small,
    Regular,
    Large,
}

} // verus!
