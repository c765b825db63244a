//! Versions of the graphics API that a context reports.

use vstd::prelude::*;

verus! {

/// The family of API that a context exposes.
#[derive(Clone, Copy, Debug, PartialEq, Eq, Structural)]
pub enum Api {
    /// Desktop OpenGL.
    Gl,
    /// OpenGL for embedded systems.
    GlEs,
}

/// An API family with a major and a minor version number.
///
/// Versions of different families are not comparable: neither is at least
/// the other.
#[derive(Clone, Copy, Debug, PartialEq, Eq, Structural)]
pub struct Version(pub Api, pub u8, pub u8);

impl Version {
    /// Whether `self` belongs to the family of `floor` and is not older than it.
    pub open spec fn at_least(self, floor: Version) -> bool {
        self.0 == floor.0 && (self.1 > floor.1 || (self.1 == floor.1 && self.2 >= floor.2))
    }

    /// Computes [`Version::at_least`].
    pub fn is_at_least(&self, floor: &Version) -> (r: bool)
        ensures
            r == self.at_least(*floor),
    {
        self.0 == floor.0 && (self.1 > floor.1 || (self.1 == floor.1 && self.2 >= floor.2))
    }
}

} // verus!
