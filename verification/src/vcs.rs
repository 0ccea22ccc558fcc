use crate::radio::RadioOptionValue;
use crate::LoopableNumberedEnum;
use crate::tools::ToolAvailability;
use vstd::prelude::*;

verus! {

/// The version-control system a new project is initialised with.
#[derive(Clone, Copy, Debug, PartialEq, Eq, Structural)]
pub enum Vcs {
    NotNeed,
    Git,
    Svn,
}

impl Default for Vcs {
    fn default() -> (r: Self)
        ensures
            r == Vcs::NotNeed,
    {
        Vcs::NotNeed
    }
}

impl Vcs {
    /// The executable this choice relies on; empty when none is needed.
    pub open spec fn spec_exe(self) -> Seq<char> {
        match self {
            Vcs::NotNeed => ""@,
            Vcs::Git => "git"@,
            Vcs::Svn => "svn"@,
        }
    }

    /// The executable this choice relies on; empty when none is needed.
    pub fn exe(&self) -> (r: String)
        ensures
            r@ == self.spec_exe(),
    {
        match self {
            Vcs::NotNeed => "".to_owned(),
            Vcs::Git => "git".to_owned(),
            Vcs::Svn => "svn".to_owned(),
        }
    }
}

impl RadioOptionValue for Vcs {
    open spec fn spec_all() -> Seq<Vcs> {
        seq![Vcs::NotNeed, Vcs::Git, Vcs::Svn]
    }

    open spec fn spec_default() -> Vcs {
        Vcs::NotNeed
    }

    open spec fn spec_selectable(self, tools: Map<Seq<char>, bool>) -> bool {
        match self {
            Vcs::NotNeed => true,
            _ => tools.contains_key(self.spec_exe()) && tools[self.spec_exe()],
        }
    }

    open spec fn spec_label(self) -> Seq<char> {
        match self {
            Vcs::NotNeed => "NotNeed"@,
            Vcs::Git => "Git"@,
            Vcs::Svn => "Svn"@,
        }
    }

    fn all_values() -> (r: Vec<Vcs>) {
        let mut v: Vec<Vcs> = Vec::new();
        v.push(Vcs::NotNeed);
        v.push(Vcs::Git);
        v.push(Vcs::Svn);
        proof {
            assert(v@ =~= Self::spec_all());
        }
        v
    }

    fn default_value() -> (r: Vcs) {
        Vcs::NotNeed
    }

    fn selectable(&self, tools: &ToolAvailability) -> (r: bool) {
        match self {
            Vcs::NotNeed => true,
            _ => tools.lookup(&self.exe()),
        }
    }

    fn label(&self) -> (r: String) {
        match self {
            Vcs::NotNeed => "NotNeed".to_owned(),
            Vcs::Git => "Git".to_owned(),
            Vcs::Svn => "Svn".to_owned(),
        }
    }

    fn same(&self, other: &Vcs) -> (r: bool) {
        *self == *other
    }
}

impl LoopableNumberedEnum for Vcs {
    open spec fn spec_num(self) -> int {
        match self {
            Vcs::NotNeed => 0,
            Vcs::Git => 1,
            Vcs::Svn => 2,
        }
    }

    open spec fn spec_count() -> int {
        3
    }

    proof fn lemma_num_in_range(self) {
    }

    fn num(&self) -> (r: usize) {
        match self {
            Vcs::NotNeed => 0,
            Vcs::Git => 1,
            Vcs::Svn => 2,
        }
    }

    fn count() -> (r: usize) {
        3
    }

    fn from_index(i: usize) -> (r: Self) {
        if i == 0 {
            Vcs::NotNeed
        } else if i == 1 {
            Vcs::Git
        } else {
            Vcs::Svn
        }
    }
}

} // verus!
