use crate::language::Language;
use crate::strutil::views_of;
use crate::LoopableNumberedEnum;
use vstd::prelude::*;

verus! {

/// The kind of project the wizard can scaffold.
#[derive(Clone, Copy, Debug, PartialEq, Eq, Structural)]
pub enum ProjectType {
    SpringBoot,
    Cmake,
    Maven,
    Cargo,
}

impl Default for ProjectType {
    fn default() -> (r: Self)
        ensures
            r == ProjectType::SpringBoot,
    {
        ProjectType::SpringBoot
    }
}

impl ProjectType {
    /// The display name of this project type.
    pub open spec fn spec_label(self) -> Seq<char> {
        match self {
            ProjectType::SpringBoot => "SpringBoot"@,
            ProjectType::Cmake => "Cmake"@,
            ProjectType::Maven => "Maven"@,
            ProjectType::Cargo => "Cargo"@,
        }
    }

    /// The display name of this project type.
    pub fn label(&self) -> (r: String)
        ensures
            r@ == self.spec_label(),
    {
        match self {
            ProjectType::SpringBoot => "SpringBoot".to_owned(),
            ProjectType::Cmake => "Cmake".to_owned(),
            ProjectType::Maven => "Maven".to_owned(),
            ProjectType::Cargo => "Cargo".to_owned(),
        }
    }

    /// The tool versions offered for this project type, newest last known first.
    pub open spec fn spec_versions(self) -> Seq<Seq<char>> {
        match self {
            ProjectType::SpringBoot => seq!["3.3.0"@, "3.4.0"@, "3.5.0"@],
            ProjectType::Cmake => seq!["3.25"@, "3.26"@, "4.0"@],
            ProjectType::Maven => seq!["3.9.9"@],
            ProjectType::Cargo => seq!["1.86.0"@],
        }
    }

    /// The tool versions offered for this project type.
    pub fn versions(&self) -> (r: Vec<String>)
        ensures
            views_of(r@) == self.spec_versions(),
    {
        let mut v: Vec<String> = Vec::new();
        match self {
            ProjectType::SpringBoot => {
                v.push("3.3.0".to_owned());
                v.push("3.4.0".to_owned());
                v.push("3.5.0".to_owned());
            },
            ProjectType::Cmake => {
                v.push("3.25".to_owned());
                v.push("3.26".to_owned());
                v.push("4.0".to_owned());
            },
            ProjectType::Maven => {
                v.push("3.9.9".to_owned());
            },
            ProjectType::Cargo => {
                v.push("1.86.0".to_owned());
            },
        }
        proof {
            assert(views_of(v@) =~= self.spec_versions());
        }
        v
    }

    /// The implementation languages available for this project type.
    pub open spec fn spec_languages(self) -> Seq<Language> {
        match self {
            ProjectType::Cmake => seq![Language::C, Language::Cpp],
            ProjectType::Maven => seq![Language::Java, Language::Kotlin],
            ProjectType::SpringBoot => seq![Language::Java, Language::Kotlin],
            ProjectType::Cargo => seq![Language::Rust],
        }
    }

    /// The implementation languages available for this project type.
    pub fn languages(&self) -> (r: Vec<Language>)
        ensures
            r@ == self.spec_languages(),
    {
        let mut v: Vec<Language> = Vec::new();
        match self {
            ProjectType::Cmake => {
                v.push(Language::C);
                v.push(Language::Cpp);
            },
            ProjectType::Maven | ProjectType::SpringBoot => {
                v.push(Language::Java);
                v.push(Language::Kotlin);
            },
            ProjectType::Cargo => {
                v.push(Language::Rust);
            },
        }
        proof {
            assert(v@ =~= self.spec_languages());
        }
        v
    }
}

impl LoopableNumberedEnum for ProjectType {
    open spec fn spec_num(self) -> int {
        match self {
            ProjectType::SpringBoot => 0,
            ProjectType::Cmake => 1,
            ProjectType::Maven => 2,
            ProjectType::Cargo => 3,
        }
    }

    open spec fn spec_count() -> int {
        4
    }

    proof fn lemma_num_in_range(self) {
    }

    fn num(&self) -> (r: usize) {
        match self {
            ProjectType::SpringBoot => 0,
            ProjectType::Cmake => 1,
            ProjectType::Maven => 2,
            ProjectType::Cargo => 3,
        }
    }

    fn count() -> (r: usize) {
        4
    }

    fn from_index(i: usize) -> (r: Self) {
        if i == 0 {
            ProjectType::SpringBoot
        } else if i == 1 {
            ProjectType::Cmake
        } else if i == 2 {
            ProjectType::Maven
        } else {
            ProjectType::Cargo
        }
    }
}

} // verus!
