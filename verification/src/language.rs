use crate::strutil::views_of;
use vstd::prelude::*;

verus! {

/// An implementation language the wizard knows version lists for.
#[derive(Clone, Copy, Debug, PartialEq, Eq, Structural)]
pub enum Language {
    Java,
    Python,
    C,
    Cpp,
    Kotlin,
    Rust,
}

impl Default for Language {
    fn default() -> (r: Self)
        ensures
            r == Language::Java,
    {
        Language::Java
    }
}

impl Language {
    /// The display name of this language.
    pub open spec fn spec_label(self) -> Seq<char> {
        match self {
            Language::Java => "Java"@,
            Language::Python => "Python"@,
            Language::C => "C"@,
            Language::Cpp => "Cpp"@,
            Language::Kotlin => "Kotlin"@,
            Language::Rust => "Rust"@,
        }
    }

    /// The display name of this language.
    pub fn label(&self) -> (r: String)
        ensures
            r@ == self.spec_label(),
    {
        match self {
            Language::Java => "Java".to_owned(),
            Language::Python => "Python".to_owned(),
            Language::C => "C".to_owned(),
            Language::Cpp => "Cpp".to_owned(),
            Language::Kotlin => "Kotlin".to_owned(),
            Language::Rust => "Rust".to_owned(),
        }
    }

    /// The language versions the wizard offers.
    pub open spec fn spec_versions(self) -> Seq<Seq<char>> {
        match self {
            Language::Java => seq!["23"@, "21"@, "17"@, "11"@, "8"@],
            Language::C => seq!["90"@, "99"@, "11"@, "17"@, "23"@],
            Language::Cpp => seq!["98"@, "03"@, "11"@, "14"@, "17"@, "20"@, "23"@, "26"@],
            Language::Python => seq!["3.13"@, "3.12"@, "3.11"@, "3.10"@, "3.9"@, "3.8"@],
            Language::Kotlin => seq!["2.1.20"@],
            Language::Rust => seq!["1.86.0"@],
        }
    }

    /// The language versions the wizard offers.
    pub fn versions(self) -> (r: Vec<String>)
        ensures
            views_of(r@) == self.spec_versions(),
    {
        let mut v: Vec<String> = Vec::new();
        match self {
            Language::Java => {
                v.push("23".to_owned());
                v.push("21".to_owned());
                v.push("17".to_owned());
                v.push("11".to_owned());
                v.push("8".to_owned());
            },
            Language::C => {
                v.push("90".to_owned());
                v.push("99".to_owned());
                v.push("11".to_owned());
                v.push("17".to_owned());
                v.push("23".to_owned());
            },
            Language::Cpp => {
                v.push("98".to_owned());
                v.push("03".to_owned());
                v.push("11".to_owned());
                v.push("14".to_owned());
                v.push("17".to_owned());
                v.push("20".to_owned());
                v.push("23".to_owned());
                v.push("26".to_owned());
            },
            Language::Python => {
                v.push("3.13".to_owned());
                v.push("3.12".to_owned());
                v.push("3.11".to_owned());
                v.push("3.10".to_owned());
                v.push("3.9".to_owned());
                v.push("3.8".to_owned());
            },
            Language::Kotlin => {
                v.push("2.1.20".to_owned());
            },
            Language::Rust => {
                v.push("1.86.0".to_owned());
            },
        }
        proof {
            assert(views_of(v@) =~= self.spec_versions());
        }
        v
    }
}

} // verus!
