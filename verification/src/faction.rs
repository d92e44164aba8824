use vstd::prelude::*;

verus! {

/// The faction a character card belongs to.
#[derive(Debug, Hash, Clone, Copy, PartialEq, Eq, Structural)]
#[non_exhaustive]
pub enum Faction {
    Mondstadt,
    Liyue,
    Inazuma,
    Sumeru,
    Fatui,
    Monster,
}

} // verus!
