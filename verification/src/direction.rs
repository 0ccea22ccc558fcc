use vstd::prelude::*;

verus! {

/// A navigation direction over an indexed list.
#[derive(Clone, Copy, Debug, PartialEq, Eq, Structural)]
pub enum AppDirection {
    Next,
    Prev,
}

/// The index one step away in the given direction; a missing index starts at zero.
pub open spec fn spec_counter(d: AppDirection, i: Option<usize>, len: usize) -> int {
    match i {
        Option::None => 0,
        Option::Some(i) => match d {
            AppDirection::Next => if i >= len - 1 {
                0
            } else {
                i + 1
            },
            AppDirection::Prev => if i == 0 {
                len - 1
            } else {
                i - 1
            },
        },
    }
}

impl AppDirection {
    /// Step an optional list index one place in this direction, wrapping at the
    /// ends; `None` lands on the first entry.
    pub fn get_counter(self, i: Option<usize>, len: usize) -> (r: usize)
        requires
            len > 0,
        ensures
            r == spec_counter(self, i, len),
            i matches Some(x) && x < len ==> r < len,
    {
        match i {
            Some(i) => match self {
                Self::Next => {
                    if i >= len - 1 {
                        0
                    } else {
                        i + 1
                    }
                },
                Self::Prev => {
                    if i == 0 {
                        len - 1
                    } else {
                        i - 1
                    }
                },
            },
            None => 0,
        }
    }
}

} // verus!
