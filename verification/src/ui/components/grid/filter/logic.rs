//! How consecutive filter conditions combine.
use vstd::prelude::*;

verus! {

/// The connective between a filter condition and the next one.
#[derive(Clone, Copy, Debug, PartialEq, Eq, Structural)]
pub enum FilterLogic {
    And,
    Or,
}

impl Default for FilterLogic {
    fn default() -> (r: Self)
        ensures
            r == FilterLogic::And,
    {
        FilterLogic::And
    }
}

impl FilterLogic {
    /// `AND` or `OR`.
    pub fn display_name(&self) -> (r: &'static str)
        ensures
            r@ == (match *self {
                FilterLogic::And => "AND"@,
                FilterLogic::Or => "OR"@,
            }),
    {
        match self {
            FilterLogic::And => "AND",
            FilterLogic::Or => "OR",
        }
    }

    /// The other connective.
    pub open spec fn flipped(self) -> FilterLogic {
        match self {
            FilterLogic::And => FilterLogic::Or,
            FilterLogic::Or => FilterLogic::And,
        }
    }

    /// Switches between AND and OR.
    pub fn toggle(&mut self)
        ensures
            *final(self) == old(self).flipped(),
    {
        *self = match self {
            FilterLogic::And => FilterLogic::Or,
            FilterLogic::Or => FilterLogic::And,
        };
    }
}

/// Toggling twice gives back the connective one started with.
pub proof fn lemma_toggle_twice(l: FilterLogic)
    ensures
        l.flipped().flipped() == l,
        l.flipped() != l,
{
}

} // verus!
