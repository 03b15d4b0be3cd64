//! Choices of the selection popup menu.
use vstd::prelude::*;

verus! {

/// What the user chose in the popup menu.
pub enum Response {
    Close,
    LatLon,
    Index(usize),
}

} // verus!
