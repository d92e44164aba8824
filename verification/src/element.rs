use vstd::prelude::*;

verus! {

/// The seven elements a character or card can be attuned to.
#[derive(Debug, Hash, Clone, Copy, PartialEq, Eq, Structural)]
pub enum Element {
    Cryo,
    Hydro,
    Electro,
    Geo,
    Dendro,
    Anemo,
    Pyro,
}

impl Element {
    /// The display word for this element, as it appears in diagnostics.
    pub open spec fn spec_word(self) -> Seq<char> {
        match self {
            Element::Cryo => "Cryo"@,
            Element::Hydro => "Hydro"@,
            Element::Electro => "Electro"@,
            Element::Geo => "Geo"@,
            Element::Dendro => "Dendro"@,
            Element::Anemo => "Anemo"@,
            Element::Pyro => "Pyro"@,
        }
    }

    /// The display word for this element.
    pub fn word(&self) -> (r: &'static str)
        ensures
            r@ == self.spec_word(),
    {
        match self {
            Element::Cryo => "Cryo",
            Element::Hydro => "Hydro",
            Element::Electro => "Electro",
            Element::Geo => "Geo",
            Element::Dendro => "Dendro",
            Element::Anemo => "Anemo",
            Element::Pyro => "Pyro",
        }
    }
}

} // verus!
