use vstd::prelude::*;

verus! {

/// The class of weapon a character wields; weapon cards equip onto a
/// character of the matching class.
#[derive(Debug, Hash, Clone, Copy, PartialEq, Eq, Structural)]
#[non_exhaustive]
pub enum WeaponType {
    Sword,
    Claymore,
    Bow,
    Catalyst,
    Polearm,
}

} // verus!
