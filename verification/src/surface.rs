//! Surface classification of a cell.

use vstd::prelude::*;

verus! {

/// What covers a cell. Water is fixed at generation time; piste is laid on
/// normal ground by the player and can be removed again.
#[derive(Debug, PartialEq, Eq, Structural, PartialOrd, Ord, Clone, Copy, Hash)]
pub enum Surface {
    Normal,
    Piste,
    Water,
}

impl Default for Surface {
    /// Plain ground.
    fn default() -> (s: Surface)
        ensures
            s == Surface::Normal,
    {
        Surface::Normal
    }
}

impl Surface {
    /// The only surface edits a player may make: laying piste on normal
    /// ground, or clearing piste back to normal ground.
    pub open spec fn spec_change_allowed(self, desired: Surface) -> bool {
        ||| (self == Surface::Normal && desired == Surface::Piste)
        ||| (self == Surface::Piste && desired == Surface::Normal)
    }

    /// Whether a player may change this surface to `desired`.
    pub fn change_allowed(self, desired: Surface) -> (b: bool)
        ensures
            b == self.spec_change_allowed(desired),
    {
        match (self, desired) {
            (Surface::Normal, Surface::Piste) => true,
            (Surface::Piste, Surface::Normal) => true,
            _ => false,
        }
    }
}

} // verus!
