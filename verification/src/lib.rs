pub mod cargo;
pub mod cmake;
pub mod config;
pub mod controller;
pub mod direction;
pub mod editor;
pub mod features;
pub mod focus_input;
pub mod language;
pub mod list_state_item;
pub mod loop_number;
pub mod packaging;
pub mod project_type;
pub mod radio;
pub mod springboot;
pub mod strutil;
pub mod tools;
pub mod vcs;

use vstd::prelude::*;

verus! {

/// An enumeration whose values carry a stable number and cycle through a fixed
/// range with wraparound.
pub trait LoopableNumberedEnum: Sized {
    /// The number of this value.
    spec fn spec_num(self) -> int;

    /// The length of the cycle.
    spec fn spec_count() -> int;

    /// Every value's number lies inside the cycle.
    proof fn lemma_num_in_range(self)
        ensures
            0 <= self.spec_num() < Self::spec_count(),
    ;

    fn num(&self) -> (r: usize)
        ensures
            r == self.spec_num(),
    ;

    fn count() -> (r: usize)
        ensures
            r == Self::spec_count(),
    ;

    fn from_index(i: usize) -> (r: Self)
        requires
            i < Self::spec_count(),
        ensures
            r.spec_num() == i,
    ;

    /// The number one step forward, with wraparound.
    fn next_index(&self) -> (r: usize)
        ensures
            r == (self.spec_num() + 1) % Self::spec_count(),
            r < Self::spec_count(),
    {
        proof {
            self.lemma_num_in_range();
        }
        let n = self.num();
        let c = Self::count();
        proof {
            crate::loop_number::lemma_wrap_formulas(n, c);
        }
        if n >= c - 1 {
            0
        } else {
            n + 1
        }
    }

    /// The number one step backward, with wraparound.
    fn prev_index(&self) -> (r: usize)
        ensures
            r == (self.spec_num() + Self::spec_count() - 1) % Self::spec_count(),
            r < Self::spec_count(),
    {
        proof {
            self.lemma_num_in_range();
        }
        let n = self.num();
        let c = Self::count();
        proof {
            crate::loop_number::lemma_wrap_formulas(n, c);
        }
        if n == 0 {
            c - 1
        } else {
            n - 1
        }
    }

    /// The value one step forward in the cycle.
    #[must_use]
    fn next(&self) -> (r: Self)
        ensures
            r.spec_num() == (self.spec_num() + 1) % Self::spec_count(),
    {
        let i = self.next_index();
        Self::from_index(i)
    }

    /// The value one step backward in the cycle.
    #[must_use]
    fn prev(&self) -> (r: Self)
        ensures
            r.spec_num() == (self.spec_num() + Self::spec_count() - 1) % Self::spec_count(),
    {
        let i = self.prev_index();
        Self::from_index(i)
    }
}

/// A three-value cycle that exercises `LoopableNumberedEnum`.
#[derive(Clone, Debug, PartialEq, Eq, Structural)]
pub enum LoopableNumbered {
    One,
    Two,
    Three,
}

impl LoopableNumberedEnum for LoopableNumbered {
    open spec fn spec_num(self) -> int {
        match self {
            LoopableNumbered::One => 0,
            LoopableNumbered::Two => 1,
            LoopableNumbered::Three => 2,
        }
    }

    open spec fn spec_count() -> int {
        3
    }

    proof fn lemma_num_in_range(self) {
    }

    fn num(&self) -> (r: usize) {
        match self {
            LoopableNumbered::One => 0,
            LoopableNumbered::Two => 1,
            LoopableNumbered::Three => 2,
        }
    }

    fn count() -> (r: usize) {
        3
    }

    fn from_index(i: usize) -> (r: Self) {
        if i == 0 {
            LoopableNumbered::One
        } else if i == 1 {
            LoopableNumbered::Two
        } else {
            LoopableNumbered::Three
        }
    }
}

/// The command-line request: an optional project type that skips the selection
/// list and opens that form directly.
pub struct Args {
    pub project_type: Option<crate::project_type::ProjectType>,
}

} // verus!
