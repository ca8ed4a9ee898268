//! The configuration that the encoder consumes.

use vstd::prelude::*;

verus! {

/// One toggleable industry of the game.
#[derive(Debug)]
pub struct NewGRFIndustry {
    /// Identifier of the industry. The encoder goes by an entry's position,
    /// not by this number.
    pub id: i32,
    /// Whether the industry stays available in the game.
    pub available: bool,
}

/// What a container is generated from: the industries, in slot order.
#[derive(Debug)]
pub struct NewGRFOptions {
    pub industries: Vec<NewGRFIndustry>,
}

impl View for NewGRFOptions {
    type V = Seq<NewGRFIndustry>;

    /// The entries in order; the entry at position `i` governs slot `i`.
    open spec fn view(&self) -> Seq<NewGRFIndustry> {
        self.industries@
    }
}

impl Default for NewGRFIndustry {
    /// Industry 0, not available.
    fn default() -> (industry: Self)
        ensures
            industry.id == 0,
            !industry.available,
    {
        NewGRFIndustry { id: 0, available: false }
    }
}

impl Default for NewGRFOptions {
    /// The configuration without entries.
    fn default() -> (options: Self)
        ensures
            options@ == Seq::<NewGRFIndustry>::empty(),
    {
        NewGRFOptions { industries: Vec::new() }
    }
}

} // verus!
