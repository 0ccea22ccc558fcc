use crate::language::Language;
use crate::project_type::ProjectType;
use crate::vcs::Vcs;
use vstd::prelude::*;

verus! {

/// The choices collected for one project before materialisation.
#[derive(Debug)]
pub struct ProjectConfig {
    pub name: String,
    pub project_version: String,
    pub language_version: String,
    pub path: String,
    pub language: Language,
    pub project_type: ProjectType,
    pub vcs: Vcs,
}

impl ProjectConfig {
    /// The starting configuration, rooted at the directory the host was
    /// started in.
    pub fn new(path: String) -> (r: Self)
        ensures
            r.name@ == Seq::<char>::empty(),
            r.project_version@ == Seq::<char>::empty(),
            r.language_version@ == Seq::<char>::empty(),
            r.path == path,
            r.language == Language::Java,
            r.project_type == ProjectType::SpringBoot,
            r.vcs == Vcs::NotNeed,
    {
        ProjectConfig {
            name: String::new(),
            project_version: String::new(),
            language_version: String::new(),
            path,
            language: Language::Java,
            project_type: ProjectType::SpringBoot,
            vcs: Vcs::NotNeed,
        }
    }
}

} // verus!
