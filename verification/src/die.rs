use vstd::prelude::*;
use crate::element::Element;

verus! {

/// An elemental octet die
#[derive(Debug, Hash, Clone, Copy, PartialEq, Eq, Structural)]
pub enum Die {
    Omni,
    Element(Element),
}

} // verus!
