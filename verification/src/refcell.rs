//! The rules by which a cell lends out its value: any number of readers or one
//! writer, never both.
//!
//! Only the bookkeeping lives here. A cell that hands out references on the
//! strength of it needs code that cannot be verified, and keeps a `RefState`
//! to decide what it may lend.

use vstd::prelude::*;

verus! {

/// How the value of a cell is lent out at the moment.
#[derive(Copy, Clone, Debug, PartialEq, Eq, Structural)]
pub enum RefState {
    /// Nobody holds a reference.
    Unshared,
    /// So many shared references are out.
    Shared(usize),
    /// One exclusive reference is out.
    Exclusive,
}

impl RefState {
    /// Number of shared references that are out.
    pub open spec fn readers(self) -> nat {
        match self {
            RefState::Shared(count) => count as nat,
            _ => 0,
        }
    }

    /// Whether an exclusive reference is out.
    pub open spec fn writer(self) -> bool {
        self is Exclusive
    }

    /// A state that the operations below produce: `Shared` counts at least one
    /// reference.
    pub open spec fn well_formed(self) -> bool {
        self matches RefState::Shared(count) ==> count >= 1
    }

    /// The state of a cell that has lent out nothing.
    pub fn new() -> (state: Self)
        ensures
            state == RefState::Unshared,
            state.readers() == 0,
            !state.writer(),
    {
        RefState::Unshared
    }

    /// Asks for a shared reference. It is granted unless an exclusive
    /// reference is out; the result is the state with one reader more.
    pub fn borrow(self) -> (next: Option<Self>)
        requires
            self.readers() < usize::MAX,
        ensures
            self.writer() ==> next is None,
            !self.writer() ==> next == Some(RefState::Shared((self.readers() + 1) as usize)),
            next matches Some(state) ==> state.well_formed(),
    {
        match self {
            RefState::Unshared => Some(RefState::Shared(1)),
            RefState::Shared(count) => Some(RefState::Shared(count + 1)),
            RefState::Exclusive => None,
        }
    }

    /// Asks for the exclusive reference. It is granted only when no reference
    /// at all is out.
    pub fn borrow_mut(self) -> (next: Option<Self>)
        ensures
            self == RefState::Unshared ==> next == Some(RefState::Exclusive),
            self != RefState::Unshared ==> next is None,
    {
        match self {
            RefState::Unshared => Some(RefState::Exclusive),
            _ => None,
        }
    }

    /// Gives a shared reference back. When it was the last one the cell is
    /// unshared again.
    pub fn release(self) -> (next: Self)
        requires
            self.readers() >= 1,
        ensures
            self.readers() == 1 ==> next == RefState::Unshared,
            self.readers() > 1 ==> next == RefState::Shared((self.readers() - 1) as usize),
            next.readers() == self.readers() - 1,
            next.well_formed(),
    {
        match self {
            RefState::Shared(1) => RefState::Unshared,
            RefState::Shared(count) => RefState::Shared(count - 1),
            _ => vstd::pervasive::unreached(),
        }
    }

    /// Gives the exclusive reference back.
    pub fn release_mut(self) -> (next: Self)
        requires
            self.writer(),
        ensures
            next == RefState::Unshared,
    {
        RefState::Unshared
    }
}

} // verus!
