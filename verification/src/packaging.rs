use crate::LoopableNumberedEnum;
use vstd::prelude::*;

verus! {

/// The distribution packaging a project could be prepared for.
#[derive(Clone, Copy, Debug, PartialEq, Eq, Structural)]
pub enum ProjectPackaging {
    NotNeed,
    Alpine,
    ArchLinux,
    Fedora,
    Gentoo,
    Nix,
    Ubuntu,
}

impl Default for ProjectPackaging {
    fn default() -> (r: Self)
        ensures
            r == ProjectPackaging::NotNeed,
    {
        ProjectPackaging::NotNeed
    }
}

impl LoopableNumberedEnum for ProjectPackaging {
    open spec fn spec_num(self) -> int {
        match self {
            ProjectPackaging::NotNeed => 0,
            ProjectPackaging::Alpine => 1,
            ProjectPackaging::ArchLinux => 2,
            ProjectPackaging::Fedora => 3,
            ProjectPackaging::Gentoo => 4,
            ProjectPackaging::Nix => 5,
            ProjectPackaging::Ubuntu => 6,
        }
    }

    open spec fn spec_count() -> int {
        7
    }

    proof fn lemma_num_in_range(self) {
    }

    fn num(&self) -> (r: usize) {
        match self {
            ProjectPackaging::NotNeed => 0,
            ProjectPackaging::Alpine => 1,
            ProjectPackaging::ArchLinux => 2,
            ProjectPackaging::Fedora => 3,
            ProjectPackaging::Gentoo => 4,
            ProjectPackaging::Nix => 5,
            ProjectPackaging::Ubuntu => 6,
        }
    }

    fn count() -> (r: usize) {
        7
    }

    fn from_index(i: usize) -> (r: Self) {
        if i == 0 {
            ProjectPackaging::NotNeed
        } else if i == 1 {
            ProjectPackaging::Alpine
        } else if i == 2 {
            ProjectPackaging::ArchLinux
        } else if i == 3 {
            ProjectPackaging::Fedora
        } else if i == 4 {
            ProjectPackaging::Gentoo
        } else if i == 5 {
            ProjectPackaging::Nix
        } else {
            ProjectPackaging::Ubuntu
        }
    }
}

} // verus!
