use crate::controller::{
    handle_inner_keyevent, keyevent_transition, FormFields, FormKey, InnerCommonState,
    InnerHandleKeyEventOutput,
};
use crate::editor::Editor;
use crate::radio::{RadioOption, RadioOptionValue};
use crate::strutil::{snake_of, to_snake};
use crate::tools::ToolAvailability;
use crate::vcs::Vcs;
use vstd::prelude::*;
use vstd::string::StringExecFns;

verus! {

/// The fields of the CMake form, in display order.
#[derive(Clone, Copy, Debug, PartialEq, Eq, Structural)]
pub enum CmakeField {
    Name,
    ProjectVersion,
    ProjectType,
    Language,
    LanguageVersion,
    Editor,
    Vcs,
    Path,
}

/// The field at a display position.
pub open spec fn spec_cmake_field_of(i: int) -> CmakeField {
    if i == 0 {
        CmakeField::Name
    } else if i == 1 {
        CmakeField::ProjectVersion
    } else if i == 2 {
        CmakeField::ProjectType
    } else if i == 3 {
        CmakeField::Language
    } else if i == 4 {
        CmakeField::LanguageVersion
    } else if i == 5 {
        CmakeField::Editor
    } else if i == 6 {
        CmakeField::Vcs
    } else {
        CmakeField::Path
    }
}

/// The validation rule of the CMake catalog: no field accepts empty text.
pub open spec fn spec_validate_cmake_field(f: CmakeField, text: Seq<char>) -> Seq<char> {
    if text.len() == 0 {
        snake_of(f.spec_name()) + " cannot be empty"@
    } else {
        Seq::<char>::empty()
    }
}

/// Law: a field's text validates exactly when it is non-empty.
pub proof fn lemma_validate_cmake_field(f: CmakeField, text: Seq<char>)
    ensures
        spec_validate_cmake_field(f, text).len() == 0 <==> text.len() > 0,
{
    reveal_strlit(" cannot be empty");
}

impl CmakeField {
    /// The display position of this field.
    pub open spec fn spec_index(self) -> int {
        match self {
            CmakeField::Name => 0,
            CmakeField::ProjectVersion => 1,
            CmakeField::ProjectType => 2,
            CmakeField::Language => 3,
            CmakeField::LanguageVersion => 4,
            CmakeField::Editor => 5,
            CmakeField::Vcs => 6,
            CmakeField::Path => 7,
        }
    }

    /// The display name of this field.
    pub open spec fn spec_name(self) -> Seq<char> {
        match self {
            CmakeField::Name => "Name"@,
            CmakeField::ProjectVersion => "ProjectVersion"@,
            CmakeField::ProjectType => "ProjectType"@,
            CmakeField::Language => "Language"@,
            CmakeField::LanguageVersion => "LanguageVersion"@,
            CmakeField::Editor => "Editor"@,
            CmakeField::Vcs => "Vcs"@,
            CmakeField::Path => "Path"@,
        }
    }

    /// The display position of this field.
    pub fn index(&self) -> (r: usize)
        ensures
            r == self.spec_index(),
    {
        match self {
            CmakeField::Name => 0,
            CmakeField::ProjectVersion => 1,
            CmakeField::ProjectType => 2,
            CmakeField::Language => 3,
            CmakeField::LanguageVersion => 4,
            CmakeField::Editor => 5,
            CmakeField::Vcs => 6,
            CmakeField::Path => 7,
        }
    }

    /// The field at a display position.
    pub fn from_index(i: usize) -> (r: Self)
        requires
            i < 8,
        ensures
            r == spec_cmake_field_of(i as int),
            r.spec_index() == i,
    {
        if i == 0 {
            CmakeField::Name
        } else if i == 1 {
            CmakeField::ProjectVersion
        } else if i == 2 {
            CmakeField::ProjectType
        } else if i == 3 {
            CmakeField::Language
        } else if i == 4 {
            CmakeField::LanguageVersion
        } else if i == 5 {
            CmakeField::Editor
        } else if i == 6 {
            CmakeField::Vcs
        } else {
            CmakeField::Path
        }
    }

    /// The display name of this field.
    pub fn display_name(&self) -> (r: String)
        ensures
            r@ == self.spec_name(),
    {
        match self {
            CmakeField::Name => "Name".to_owned(),
            CmakeField::ProjectVersion => "ProjectVersion".to_owned(),
            CmakeField::ProjectType => "ProjectType".to_owned(),
            CmakeField::Language => "Language".to_owned(),
            CmakeField::LanguageVersion => "LanguageVersion".to_owned(),
            CmakeField::Editor => "Editor".to_owned(),
            CmakeField::Vcs => "Vcs".to_owned(),
            CmakeField::Path => "Path".to_owned(),
        }
    }

    /// Validate text for this field: the returned message is empty exactly
    /// when the text passes.
    pub fn vaildate_string(self, value: &str) -> (r: String)
        ensures
            r@ == spec_validate_cmake_field(self, value@),
    {
        if value.is_empty() {
            let mut e = to_snake(self.display_name().as_str());
            e.append(" cannot be empty");
            e
        } else {
            String::new()
        }
    }
}

/// Whether the new project builds a program or a library.
#[derive(Clone, Copy, Debug, PartialEq, Eq, Structural)]
pub enum ProjectType {
    Executable,
    Library,
}

impl Default for ProjectType {
    fn default() -> (r: Self)
        ensures
            r == ProjectType::Executable,
    {
        ProjectType::Executable
    }
}

impl ProjectType {
    /// The lower-case spelling used in the generated build file.
    pub open spec fn spec_target_kind(self) -> Seq<char> {
        match self {
            ProjectType::Executable => "executable"@,
            ProjectType::Library => "library"@,
        }
    }

    /// The lower-case spelling used in the generated build file.
    pub fn target_kind(self) -> (r: String)
        ensures
            r@ == self.spec_target_kind(),
    {
        match self {
            ProjectType::Executable => "executable".to_owned(),
            ProjectType::Library => "library".to_owned(),
        }
    }
}

impl RadioOptionValue for ProjectType {
    open spec fn spec_all() -> Seq<ProjectType> {
        seq![ProjectType::Executable, ProjectType::Library]
    }

    open spec fn spec_default() -> ProjectType {
        ProjectType::Executable
    }

    open spec fn spec_selectable(self, tools: Map<Seq<char>, bool>) -> bool {
        true
    }

    open spec fn spec_label(self) -> Seq<char> {
        match self {
            ProjectType::Executable => "Executable"@,
            ProjectType::Library => "Library"@,
        }
    }

    fn all_values() -> (r: Vec<ProjectType>) {
        let mut v: Vec<ProjectType> = Vec::new();
        v.push(ProjectType::Executable);
        v.push(ProjectType::Library);
        proof {
            assert(v@ =~= Self::spec_all());
        }
        v
    }

    fn default_value() -> (r: ProjectType) {
        ProjectType::Executable
    }

    fn selectable(&self, tools: &ToolAvailability) -> (r: bool) {
        true
    }

    fn label(&self) -> (r: String) {
        match self {
            ProjectType::Executable => "Executable".to_owned(),
            ProjectType::Library => "Library".to_owned(),
        }
    }

    fn same(&self, other: &ProjectType) -> (r: bool) {
        *self == *other
    }
}

/// The implementation language of the generated project.
#[derive(Clone, Copy, Debug, PartialEq, Eq, Structural)]
pub enum Language {
    C,
    Cpp,
}

impl Default for Language {
    fn default() -> (r: Self)
        ensures
            r == Language::C,
    {
        Language::C
    }
}

impl Language {
    /// The entry source file of this language.
    pub open spec fn spec_main_file(self) -> Seq<char> {
        match self {
            Language::C => "main.c"@,
            Language::Cpp => "main.cpp"@,
        }
    }

    /// The entry source file of this language.
    pub fn main_file(self) -> (r: String)
        ensures
            r@ == self.spec_main_file(),
    {
        match self {
            Language::C => "main.c".to_owned(),
            Language::Cpp => "main.cpp".to_owned(),
        }
    }

    /// The build-file spelling of this language's standard.
    pub open spec fn spec_standard(self) -> Seq<char> {
        match self {
            Language::C => "C"@,
            Language::Cpp => "CXX"@,
        }
    }

    /// The build-file spelling of this language's standard.
    pub fn standard(self) -> (r: String)
        ensures
            r@ == self.spec_standard(),
    {
        match self {
            Language::C => "C".to_owned(),
            Language::Cpp => "CXX".to_owned(),
        }
    }

    /// The hello-world body of the entry source file.
    pub open spec fn spec_main_file_content(self) -> Seq<char> {
        match self {
            Language::C => "#include <stdio.h>\n\nint main() {\n\tprintf(\"Hello, World!\");\n\treturn 0;\n}\n"@,
            Language::Cpp => "#include <iostream>\n\nint main() {\n\tstd::cout << \"Hello, World!\" << std::endl;\n\treturn 0;\n}\n"@,
        }
    }

    /// The hello-world body of the entry source file.
    pub fn main_file_content(self) -> (r: String)
        ensures
            r@ == self.spec_main_file_content(),
    {
        match self {
            Language::C => "#include <stdio.h>\n\nint main() {\n\tprintf(\"Hello, World!\");\n\treturn 0;\n}\n".to_owned(),
            Language::Cpp => "#include <iostream>\n\nint main() {\n\tstd::cout << \"Hello, World!\" << std::endl;\n\treturn 0;\n}\n".to_owned(),
        }
    }
}

impl RadioOptionValue for Language {
    open spec fn spec_all() -> Seq<Language> {
        seq![Language::C, Language::Cpp]
    }

    open spec fn spec_default() -> Language {
        Language::C
    }

    open spec fn spec_selectable(self, tools: Map<Seq<char>, bool>) -> bool {
        true
    }

    open spec fn spec_label(self) -> Seq<char> {
        match self {
            Language::C => "C"@,
            Language::Cpp => "Cpp"@,
        }
    }

    fn all_values() -> (r: Vec<Language>) {
        let mut v: Vec<Language> = Vec::new();
        v.push(Language::C);
        v.push(Language::Cpp);
        proof {
            assert(v@ =~= Self::spec_all());
        }
        v
    }

    fn default_value() -> (r: Language) {
        Language::C
    }

    fn selectable(&self, tools: &ToolAvailability) -> (r: bool) {
        true
    }

    fn label(&self) -> (r: String) {
        match self {
            Language::C => "C".to_owned(),
            Language::Cpp => "Cpp".to_owned(),
        }
    }

    fn same(&self, other: &Language) -> (r: bool) {
        *self == *other
    }
}

/// The CMake project form: three text buffers, four radio cycles, and a
/// display-only path, driven by the shared controller.
pub struct CmakeInner {
    pub name: String,
    pub cmake_minimum_required: String,
    pub project_type: RadioOption<ProjectType>,
    pub language: RadioOption<Language>,
    pub language_standard_version: String,
    pub editor: RadioOption<Editor>,
    pub vcs: RadioOption<Vcs>,
    pub path: String,
    pub common_state: InnerCommonState,
}

impl CmakeInner {
    /// Well-formed: every radio cycle is consistent and the shared state spans
    /// exactly this form's fields.
    pub open spec fn wf(self) -> bool {
        &&& self.fields_wf()
        &&& self.common_state.wf()
        &&& self.common_state.focus_index.length == 8
    }

    /// A fresh form over the given tool availability, rooted at `path`.
    pub fn new(tools: &ToolAvailability, path: String) -> (r: Self)
        ensures
            r.wf(),
            r.name@ == Seq::<char>::empty(),
            r.cmake_minimum_required@ == Seq::<char>::empty(),
            r.language_standard_version@ == Seq::<char>::empty(),
            r.path == path,
            r.common_state.focus_index == (crate::loop_number::LoopNumber {
                value: 0,
                length: 8,
            }),
            forall|j: int|
                0 <= j < 8 ==> r.common_state.error_messages@[j]@ == Seq::<char>::empty(),
    {
        proof {
            crate::radio::lemma_options_nonempty::<ProjectType>(tools@, 0);
            crate::radio::lemma_options_nonempty::<Language>(tools@, 0);
            crate::radio::lemma_options_nonempty::<Editor>(tools@, 0);
            crate::radio::lemma_options_nonempty::<Vcs>(tools@, 0);
        }
        CmakeInner {
            name: String::new(),
            cmake_minimum_required: String::new(),
            project_type: RadioOption::default_for(tools),
            language: RadioOption::default_for(tools),
            language_standard_version: String::new(),
            editor: RadioOption::default_for(tools),
            vcs: RadioOption::default_for(tools),
            path,
            common_state: InnerCommonState::new(8),
        }
    }

    /// Apply one key event through the shared controller, committing the new
    /// validation state in one step.
    pub fn handle_keyevent(&mut self, key: FormKey) -> (out: InnerHandleKeyEventOutput)
        requires
            old(self).wf(),
        ensures
            final(self).wf(),
            keyevent_transition(
                *old(self),
                old(self).common_state,
                *final(self),
                final(self).common_state,
                key,
                out,
            ),
    {
        let ghost orig = *self;
        // A minimal placeholder occupies the slot while the real state is out.
        let mut state = InnerCommonState::new(1);
        core::mem::swap(&mut state, &mut self.common_state);
        let ghost pre_ctrl = *self;
        let (state2, out) = handle_inner_keyevent(self, state, key);
        let ghost post_ctrl = *self;
        self.common_state = state2;
        proof {
            assert(crate::controller::same_fields(pre_ctrl, orig));
            assert(crate::controller::same_fields(post_ctrl, *self));
            crate::controller::lemma_transition_congruence(
                pre_ctrl,
                orig,
                post_ctrl,
                *self,
                state,
                state2,
                key,
                out,
            );
        }
        out
    }

    /// The display labels of the fields, in display order.
    pub fn labels() -> (r: Vec<String>)
        ensures
            r@.len() == 8,
            r@[0]@ == "name"@,
            r@[1]@ == "cmake_minimum_required"@,
            r@[2]@ == "project_type"@,
            r@[3]@ == "language"@,
            r@[4]@ == "language_version"@,
            r@[5]@ == "editor"@,
            r@[6]@ == "vcs"@,
            r@[7]@ == "path"@,
    {
        let mut v: Vec<String> = Vec::new();
        v.push("name".to_owned());
        v.push("cmake_minimum_required".to_owned());
        v.push("project_type".to_owned());
        v.push("language".to_owned());
        v.push("language_version".to_owned());
        v.push("editor".to_owned());
        v.push("vcs".to_owned());
        v.push("path".to_owned());
        v
    }

    /// The help line shown for each field, in display order.
    pub fn tips() -> (r: Vec<String>)
        ensures
            r@.len() == 8,
            r@[0]@ == "Please input the name of this project"@,
            r@[1]@ == "Please input the cmake_minimum_required of this project"@,
            r@[2]@ == "Use arrow keys to select project_type"@,
            r@[3]@ == "Use arrow keys to select language"@,
            r@[4]@ == "Use arrow keys to select language_version"@,
            r@[5]@ == "Use arrow keys to select editor"@,
            r@[6]@ == "Use arrow keys to select vcs tool"@,
            r@[7]@ == "Please input the path of this project"@,
    {
        let mut v: Vec<String> = Vec::new();
        v.push("Please input the name of this project".to_owned());
        v.push("Please input the cmake_minimum_required of this project".to_owned());
        v.push("Use arrow keys to select project_type".to_owned());
        v.push("Use arrow keys to select language".to_owned());
        v.push("Use arrow keys to select language_version".to_owned());
        v.push("Use arrow keys to select editor".to_owned());
        v.push("Use arrow keys to select vcs tool".to_owned());
        v.push("Please input the path of this project".to_owned());
        v
    }

    /// The display text of one field: a text buffer's content, a radio's
    /// current label, or the path.
    pub fn get_field(&self, field: CmakeField) -> (r: String)
        ensures
            r@ == match field {
                CmakeField::Name => self.name@,
                CmakeField::ProjectVersion => self.cmake_minimum_required@,
                CmakeField::ProjectType => self.project_type.value.spec_label(),
                CmakeField::Language => self.language.value.spec_label(),
                CmakeField::LanguageVersion => self.language_standard_version@,
                CmakeField::Editor => self.editor.value.spec_label(),
                CmakeField::Vcs => self.vcs.value.spec_label(),
                CmakeField::Path => self.path@,
            },
    {
        match field {
            CmakeField::Name => self.name.clone(),
            CmakeField::ProjectVersion => self.cmake_minimum_required.clone(),
            CmakeField::ProjectType => self.project_type.value.label(),
            CmakeField::Language => self.language.value.label(),
            CmakeField::LanguageVersion => self.language_standard_version.clone(),
            CmakeField::Editor => self.editor.value.label(),
            CmakeField::Vcs => self.vcs.value.label(),
            CmakeField::Path => self.path.clone(),
        }
    }

    /// The cursor and cycle length of a radio field; `None` for every other
    /// field.
    pub fn get_radio(&self, field: CmakeField) -> (r: Option<(usize, usize)>)
        ensures
            match r {
                Some(p) => Self::spec_is_radio(field.spec_index()) && p.0
                    == self.spec_radio_id(field.spec_index()) && p.1 == self.spec_radio_len(
                    field.spec_index(),
                ),
                None => !Self::spec_is_radio(field.spec_index()),
            },
    {
        match field {
            CmakeField::ProjectType => Some((self.project_type.id, self.project_type.length())),
            CmakeField::Language => Some((self.language.id, self.language.length())),
            CmakeField::Editor => Some((self.editor.id, self.editor.length())),
            CmakeField::Vcs => Some((self.vcs.id, self.vcs.length())),
            _ => None,
        }
    }

    /// The help line for the whole form.
    pub fn bottom_help_message(&self) -> (r: String)
        ensures
            r@ == "tab: focus next item | shift+tab: focus prev item | Enter: confirm to create project | "@,
    {
        "tab: focus next item | shift+tab: focus prev item | Enter: confirm to create project | ".to_owned()
    }

    /// The generated build file for the completed form.
    pub fn cmake_lists(&self) -> (r: String)
        ensures
            r@ == "cmake_minimum_required(VERSION "@ + self.cmake_minimum_required@ + ")\nproject("@
                + self.name@ + ")\n\nset(CMAKE_"@ + self.language.value.spec_standard()
                + "_STANDARD "@ + self.language_standard_version@ + ")\n\nadd_"@
                + self.project_type.value.spec_target_kind() + "(${PROJECT_NAME} "@
                + self.language.value.spec_main_file() + ")\n"@,
    {
        let mut t = "cmake_minimum_required(VERSION ".to_owned();
        t.append(self.cmake_minimum_required.as_str());
        t.append(")\nproject(");
        t.append(self.name.as_str());
        t.append(")\n\nset(CMAKE_");
        t.append(self.language.value.standard().as_str());
        t.append("_STANDARD ");
        t.append(self.language_standard_version.as_str());
        t.append(")\n\nadd_");
        t.append(self.project_type.value.target_kind().as_str());
        t.append("(${PROJECT_NAME} ");
        t.append(self.language.value.main_file().as_str());
        t.append(")\n");
        proof {
            assert(t@ =~= "cmake_minimum_required(VERSION "@ + self.cmake_minimum_required@
                + ")\nproject("@ + self.name@ + ")\n\nset(CMAKE_"@
                + self.language.value.spec_standard() + "_STANDARD "@
                + self.language_standard_version@ + ")\n\nadd_"@
                + self.project_type.value.spec_target_kind() + "(${PROJECT_NAME} "@
                + self.language.value.spec_main_file() + ")\n"@);
        }
        t
    }
}

impl FormFields for CmakeInner {
    open spec fn spec_field_count() -> int {
        8
    }

    open spec fn spec_is_text(i: int) -> bool {
        i == 0 || i == 1 || i == 4
    }

    open spec fn spec_is_radio(i: int) -> bool {
        i == 2 || i == 3 || i == 5 || i == 6
    }

    open spec fn spec_text(self, i: int) -> Seq<char> {
        if i == 0 {
            self.name@
        } else if i == 1 {
            self.cmake_minimum_required@
        } else if i == 4 {
            self.language_standard_version@
        } else {
            Seq::<char>::empty()
        }
    }

    open spec fn spec_radio_id(self, i: int) -> int {
        if i == 2 {
            self.project_type.id as int
        } else if i == 3 {
            self.language.id as int
        } else if i == 5 {
            self.editor.id as int
        } else if i == 6 {
            self.vcs.id as int
        } else {
            0
        }
    }

    open spec fn spec_radio_len(self, i: int) -> int {
        if i == 2 {
            self.project_type.options@.len() as int
        } else if i == 3 {
            self.language.options@.len() as int
        } else if i == 5 {
            self.editor.options@.len() as int
        } else if i == 6 {
            self.vcs.options@.len() as int
        } else {
            0
        }
    }

    open spec fn spec_validate(i: int, text: Seq<char>) -> Seq<char> {
        spec_validate_cmake_field(spec_cmake_field_of(i), text)
    }

    open spec fn fields_wf(self) -> bool {
        &&& self.project_type.wf()
        &&& self.language.wf()
        &&& self.editor.wf()
        &&& self.vcs.wf()
    }

    proof fn lemma_count_positive() {
    }

    proof fn lemma_kind_exclusive(i: int) {
    }

    proof fn lemma_validate_empty(i: int) {
        reveal_strlit(" cannot be empty");
    }

    proof fn lemma_radio_wf(self, i: int) {
    }

    fn field_count() -> (r: usize) {
        8
    }

    fn is_text_field(&self, i: usize) -> (r: bool) {
        i == 0 || i == 1 || i == 4
    }

    fn is_radio_field(&self, i: usize) -> (r: bool) {
        i == 2 || i == 3 || i == 5 || i == 6
    }

    fn push_char(&mut self, i: usize, c: char) {
        if i == 0 {
            crate::strutil::push_char(&mut self.name, c);
        } else if i == 1 {
            crate::strutil::push_char(&mut self.cmake_minimum_required, c);
        } else {
            crate::strutil::push_char(&mut self.language_standard_version, c);
        }
    }

    fn pop_char(&mut self, i: usize) {
        if i == 0 {
            crate::strutil::pop_char(&mut self.name);
        } else if i == 1 {
            crate::strutil::pop_char(&mut self.cmake_minimum_required);
        } else {
            crate::strutil::pop_char(&mut self.language_standard_version);
        }
    }

    fn validate_field(&self, i: usize) -> (e: String) {
        if i == 0 {
            CmakeField::Name.vaildate_string(self.name.as_str())
        } else if i == 1 {
            CmakeField::ProjectVersion.vaildate_string(self.cmake_minimum_required.as_str())
        } else if i == 4 {
            CmakeField::LanguageVersion.vaildate_string(self.language_standard_version.as_str())
        } else {
            String::new()
        }
    }

    fn radio_next(&mut self, i: usize) {
        if i == 2 {
            self.project_type.next();
        } else if i == 3 {
            self.language.next();
        } else if i == 5 {
            self.editor.next();
        } else {
            self.vcs.next();
        }
    }

    fn radio_prev(&mut self, i: usize) {
        if i == 2 {
            self.project_type.prev();
        } else if i == 3 {
            self.language.prev();
        } else if i == 5 {
            self.editor.prev();
        } else {
            self.vcs.prev();
        }
    }
}

} // verus!
