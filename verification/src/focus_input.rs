use vstd::prelude::*;

verus! {

/// The panes a single-page form layout can give input focus to.
#[derive(Clone, Copy, Debug, PartialEq, Eq, Structural)]
pub enum FocusInput {
    ProjectType,
    ProjectVersion,
    Language,
    LanguageVersion,
    Vcs,
    Editor,
    Name,
    ErrorMessage,
    Bottom,
}

impl FocusInput {
    /// The heading shown above this pane; panes without a heading give the
    /// empty string.
    pub open spec fn spec_title(self) -> Seq<char> {
        match self {
            FocusInput::ProjectType => "Project Type"@,
            FocusInput::ProjectVersion => "Project Version"@,
            FocusInput::Language => "Language"@,
            FocusInput::LanguageVersion => "Language Version"@,
            FocusInput::Vcs => "VCS"@,
            FocusInput::Editor => "Editor"@,
            FocusInput::Name => "Project Info"@,
            FocusInput::ErrorMessage => Seq::<char>::empty(),
            FocusInput::Bottom => Seq::<char>::empty(),
        }
    }

    /// The heading shown above this pane; panes without a heading give the
    /// empty string.
    pub fn title(self) -> (r: String)
        ensures
            r@ == self.spec_title(),
    {
        match self {
            FocusInput::ProjectType => "Project Type".to_owned(),
            FocusInput::ProjectVersion => "Project Version".to_owned(),
            FocusInput::Language => "Language".to_owned(),
            FocusInput::LanguageVersion => "Language Version".to_owned(),
            FocusInput::Vcs => "VCS".to_owned(),
            FocusInput::Editor => "Editor".to_owned(),
            FocusInput::Name => "Project Info".to_owned(),
            FocusInput::ErrorMessage => String::new(),
            FocusInput::Bottom => String::new(),
        }
    }
}

} // verus!
