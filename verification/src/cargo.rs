use crate::controller::{
    handle_inner_keyevent, keyevent_transition, FormFields, FormKey, InnerCommonState,
    InnerHandleKeyEventOutput,
};
use crate::editor::Editor;
use crate::radio::{RadioOption, RadioOptionValue};
use crate::strutil::{snake_of, to_snake};
use crate::tools::ToolAvailability;
use crate::vcs::Vcs;
use vstd::prelude::*;
use vstd::string::StringExecFns;

verus! {

/// The fields of the Cargo form, in display order.
#[derive(Clone, Copy, Debug, PartialEq, Eq, Structural)]
pub enum CargoField {
    Name,
    ProjectType,
    Edition,
    Editor,
    Vcs,
    Path,
}

/// The field at a display position.
pub open spec fn spec_cargo_field_of(i: int) -> CargoField {
    if i == 0 {
        CargoField::Name
    } else if i == 1 {
        CargoField::ProjectType
    } else if i == 2 {
        CargoField::Edition
    } else if i == 3 {
        CargoField::Editor
    } else if i == 4 {
        CargoField::Vcs
    } else {
        CargoField::Path
    }
}

/// The validation rule of the Cargo catalog: no field accepts empty text.
pub open spec fn spec_validate_cargo_field(f: CargoField, text: Seq<char>) -> Seq<char> {
    if text.len() == 0 {
        snake_of(f.spec_name()) + " cannot be empty"@
    } else {
        Seq::<char>::empty()
    }
}

/// Law: a field's text validates exactly when it is non-empty.
pub proof fn lemma_validate_cargo_field(f: CargoField, text: Seq<char>)
    ensures
        spec_validate_cargo_field(f, text).len() == 0 <==> text.len() > 0,
{
    reveal_strlit(" cannot be empty");
}

impl CargoField {
    /// The display position of this field.
    pub open spec fn spec_index(self) -> int {
        match self {
            CargoField::Name => 0,
            CargoField::ProjectType => 1,
            CargoField::Edition => 2,
            CargoField::Editor => 3,
            CargoField::Vcs => 4,
            CargoField::Path => 5,
        }
    }

    /// The display name of this field.
    pub open spec fn spec_name(self) -> Seq<char> {
        match self {
            CargoField::Name => "Name"@,
            CargoField::ProjectType => "ProjectType"@,
            CargoField::Edition => "Edition"@,
            CargoField::Editor => "Editor"@,
            CargoField::Vcs => "Vcs"@,
            CargoField::Path => "Path"@,
        }
    }

    /// The display position of this field.
    pub fn index(&self) -> (r: usize)
        ensures
            r == self.spec_index(),
    {
        match self {
            CargoField::Name => 0,
            CargoField::ProjectType => 1,
            CargoField::Edition => 2,
            CargoField::Editor => 3,
            CargoField::Vcs => 4,
            CargoField::Path => 5,
        }
    }

    /// The field at a display position.
    pub fn from_index(i: usize) -> (r: Self)
        requires
            i < 6,
        ensures
            r == spec_cargo_field_of(i as int),
            r.spec_index() == i,
    {
        if i == 0 {
            CargoField::Name
        } else if i == 1 {
            CargoField::ProjectType
        } else if i == 2 {
            CargoField::Edition
        } else if i == 3 {
            CargoField::Editor
        } else if i == 4 {
            CargoField::Vcs
        } else {
            CargoField::Path
        }
    }

    /// The display name of this field.
    pub fn display_name(&self) -> (r: String)
        ensures
            r@ == self.spec_name(),
    {
        match self {
            CargoField::Name => "Name".to_owned(),
            CargoField::ProjectType => "ProjectType".to_owned(),
            CargoField::Edition => "Edition".to_owned(),
            CargoField::Editor => "Editor".to_owned(),
            CargoField::Vcs => "Vcs".to_owned(),
            CargoField::Path => "Path".to_owned(),
        }
    }

    /// Validate text for this field: the returned message is empty exactly
    /// when the text passes.
    pub fn vaildate_string(self, value: &str) -> (r: String)
        ensures
            r@ == spec_validate_cargo_field(self, value@),
    {
        if value.is_empty() {
            let mut e = to_snake(self.display_name().as_str());
            e.append(" cannot be empty");
            e
        } else {
            String::new()
        }
    }
}

/// Whether the new crate is a program or a library.
#[derive(Clone, Copy, Debug, PartialEq, Eq, Structural)]
pub enum ProjectType {
    Executable,
    Library,
}

impl Default for ProjectType {
    fn default() -> (r: Self)
        ensures
            r == ProjectType::Executable,
    {
        ProjectType::Executable
    }
}

impl ProjectType {
    /// The flag handed to the scaffolding command for this project type.
    pub open spec fn spec_args(self) -> Seq<char> {
        match self {
            ProjectType::Executable => "--name"@,
            ProjectType::Library => "--lib"@,
        }
    }

    /// The flag handed to the scaffolding command for this project type.
    pub fn args(self) -> (r: String)
        ensures
            r@ == self.spec_args(),
    {
        match self {
            ProjectType::Executable => "--name".to_owned(),
            ProjectType::Library => "--lib".to_owned(),
        }
    }

    /// The crate's entry file for this project type.
    pub open spec fn spec_main_file(self) -> Seq<char> {
        match self {
            ProjectType::Executable => "src/main.rs"@,
            ProjectType::Library => "src/lib.rs"@,
        }
    }

    /// The crate's entry file for this project type.
    pub fn main_file(self) -> (r: String)
        ensures
            r@ == self.spec_main_file(),
    {
        match self {
            ProjectType::Executable => "src/main.rs".to_owned(),
            ProjectType::Library => "src/lib.rs".to_owned(),
        }
    }
}

impl RadioOptionValue for ProjectType {
    open spec fn spec_all() -> Seq<ProjectType> {
        seq![ProjectType::Executable, ProjectType::Library]
    }

    open spec fn spec_default() -> ProjectType {
        ProjectType::Executable
    }

    open spec fn spec_selectable(self, tools: Map<Seq<char>, bool>) -> bool {
        true
    }

    open spec fn spec_label(self) -> Seq<char> {
        match self {
            ProjectType::Executable => "Executable"@,
            ProjectType::Library => "Library"@,
        }
    }

    fn all_values() -> (r: Vec<ProjectType>) {
        let mut v: Vec<ProjectType> = Vec::new();
        v.push(ProjectType::Executable);
        v.push(ProjectType::Library);
        proof {
            assert(v@ =~= Self::spec_all());
        }
        v
    }

    fn default_value() -> (r: ProjectType) {
        ProjectType::Executable
    }

    fn selectable(&self, tools: &ToolAvailability) -> (r: bool) {
        true
    }

    fn label(&self) -> (r: String) {
        match self {
            ProjectType::Executable => "Executable".to_owned(),
            ProjectType::Library => "Library".to_owned(),
        }
    }

    fn same(&self, other: &ProjectType) -> (r: bool) {
        *self == *other
    }
}

/// The Rust edition the new crate is created with.
#[derive(Clone, Copy, Debug, PartialEq, Eq, Structural)]
pub enum Edition {
    Fifteen,
    Eighteen,
    TwentyOne,
    TwentyFour,
}

impl Default for Edition {
    fn default() -> (r: Self)
        ensures
            r == Edition::TwentyFour,
    {
        Edition::TwentyFour
    }
}

impl RadioOptionValue for Edition {
    open spec fn spec_all() -> Seq<Edition> {
        seq![Edition::Fifteen, Edition::Eighteen, Edition::TwentyOne, Edition::TwentyFour]
    }

    open spec fn spec_default() -> Edition {
        Edition::TwentyFour
    }

    open spec fn spec_selectable(self, tools: Map<Seq<char>, bool>) -> bool {
        true
    }

    open spec fn spec_label(self) -> Seq<char> {
        match self {
            Edition::Fifteen => "2015"@,
            Edition::Eighteen => "2018"@,
            Edition::TwentyOne => "2021"@,
            Edition::TwentyFour => "2024"@,
        }
    }

    fn all_values() -> (r: Vec<Edition>) {
        let mut v: Vec<Edition> = Vec::new();
        v.push(Edition::Fifteen);
        v.push(Edition::Eighteen);
        v.push(Edition::TwentyOne);
        v.push(Edition::TwentyFour);
        proof {
            assert(v@ =~= Self::spec_all());
        }
        v
    }

    fn default_value() -> (r: Edition) {
        Edition::TwentyFour
    }

    fn selectable(&self, tools: &ToolAvailability) -> (r: bool) {
        true
    }

    fn label(&self) -> (r: String) {
        match self {
            Edition::Fifteen => "2015".to_owned(),
            Edition::Eighteen => "2018".to_owned(),
            Edition::TwentyOne => "2021".to_owned(),
            Edition::TwentyFour => "2024".to_owned(),
        }
    }

    fn same(&self, other: &Edition) -> (r: bool) {
        *self == *other
    }
}

/// The Cargo project form: one text buffer, four radio cycles, and a
/// display-only path, driven by the shared controller.
pub struct CargoInner {
    pub name: String,
    pub project_type: RadioOption<ProjectType>,
    pub edition: RadioOption<Edition>,
    pub editor: RadioOption<Editor>,
    pub vcs: RadioOption<Vcs>,
    pub path: String,
    pub common_state: InnerCommonState,
}

impl CargoInner {
    /// Well-formed: every radio cycle is consistent and the shared state spans
    /// exactly this form's fields.
    pub open spec fn wf(self) -> bool {
        &&& self.fields_wf()
        &&& self.common_state.wf()
        &&& self.common_state.focus_index.length == 6
    }

    /// A fresh form over the given tool availability, rooted at `path`.
    pub fn new(tools: &ToolAvailability, path: String) -> (r: Self)
        ensures
            r.wf(),
            r.name@ == Seq::<char>::empty(),
            r.path == path,
            r.common_state.focus_index == (crate::loop_number::LoopNumber {
                value: 0,
                length: 6,
            }),
            forall|j: int|
                0 <= j < 6 ==> r.common_state.error_messages@[j]@ == Seq::<char>::empty(),
    {
        proof {
            crate::radio::lemma_options_nonempty::<ProjectType>(tools@, 0);
            crate::radio::lemma_options_nonempty::<Edition>(tools@, 0);
            crate::radio::lemma_options_nonempty::<Editor>(tools@, 0);
            crate::radio::lemma_options_nonempty::<Vcs>(tools@, 0);
        }
        CargoInner {
            name: String::new(),
            project_type: RadioOption::default_for(tools),
            edition: RadioOption::default_for(tools),
            editor: RadioOption::default_for(tools),
            vcs: RadioOption::default_for(tools),
            path,
            common_state: InnerCommonState::new(6),
        }
    }

    /// Apply one key event through the shared controller, committing the new
    /// validation state in one step.
    pub fn handle_keyevent(&mut self, key: FormKey) -> (out: InnerHandleKeyEventOutput)
        requires
            old(self).wf(),
        ensures
            final(self).wf(),
            keyevent_transition(
                *old(self),
                old(self).common_state,
                *final(self),
                final(self).common_state,
                key,
                out,
            ),
    {
        let ghost orig = *self;
        // A minimal placeholder occupies the slot while the real state is out.
        let mut state = InnerCommonState::new(1);
        core::mem::swap(&mut state, &mut self.common_state);
        let ghost pre_ctrl = *self;
        let (state2, out) = handle_inner_keyevent(self, state, key);
        let ghost post_ctrl = *self;
        self.common_state = state2;
        proof {
            assert(crate::controller::same_fields(pre_ctrl, orig));
            assert(crate::controller::same_fields(post_ctrl, *self));
            crate::controller::lemma_transition_congruence(
                pre_ctrl,
                orig,
                post_ctrl,
                *self,
                state,
                state2,
                key,
                out,
            );
        }
        out
    }

    /// The display labels of the fields, in display order.
    pub fn labels() -> (r: Vec<String>)
        ensures
            r@.len() == 6,
            forall|j: int| 0 <= j < 6 ==> r@[j]@ == snake_of(spec_cargo_field_of(j).spec_name()),
    {
        let mut v: Vec<String> = Vec::new();
        let mut i: usize = 0;
        while i < 6
            invariant
                i <= 6,
                v@.len() == i,
                forall|j: int| 0 <= j < i ==> v@[j]@ == snake_of(spec_cargo_field_of(j).spec_name()),
            decreases 6 - i,
        {
            let f = CargoField::from_index(i);
            v.push(to_snake(f.display_name().as_str()));
            i += 1;
        }
        v
    }

    /// The help line shown for each field, in display order.
    pub fn tips() -> (r: Vec<String>)
        ensures
            r@.len() == 6,
            r@[0]@ == "Please input the name of this project"@,
            r@[1]@ == "Use arrow keys to select project_type"@,
            r@[2]@ == "Use arrow keys to select edition"@,
            r@[3]@ == "Use arrow keys to select editor"@,
            r@[4]@ == "Use arrow keys to select vcs tool"@,
            r@[5]@ == "Please input the path of this project"@,
    {
        let mut v: Vec<String> = Vec::new();
        v.push("Please input the name of this project".to_owned());
        v.push("Use arrow keys to select project_type".to_owned());
        v.push("Use arrow keys to select edition".to_owned());
        v.push("Use arrow keys to select editor".to_owned());
        v.push("Use arrow keys to select vcs tool".to_owned());
        v.push("Please input the path of this project".to_owned());
        v
    }

    /// The display text of one field: the name buffer, a radio's current
    /// label, or the path.
    pub fn get_field(&self, field: CargoField) -> (r: String)
        ensures
            r@ == match field {
                CargoField::Name => self.name@,
                CargoField::ProjectType => self.project_type.value.spec_label(),
                CargoField::Edition => self.edition.value.spec_label(),
                CargoField::Editor => self.editor.value.spec_label(),
                CargoField::Vcs => self.vcs.value.spec_label(),
                CargoField::Path => self.path@,
            },
    {
        match field {
            CargoField::Name => self.name.clone(),
            CargoField::ProjectType => self.project_type.value.label(),
            CargoField::Edition => self.edition.value.label(),
            CargoField::Editor => self.editor.value.label(),
            CargoField::Vcs => self.vcs.value.label(),
            CargoField::Path => self.path.clone(),
        }
    }

    /// The cursor and cycle length of a radio field; `None` for every other
    /// field.
    pub fn get_radio(&self, field: CargoField) -> (r: Option<(usize, usize)>)
        ensures
            match r {
                Some(p) => Self::spec_is_radio(field.spec_index()) && p.0
                    == self.spec_radio_id(field.spec_index()) && p.1 == self.spec_radio_len(
                    field.spec_index(),
                ),
                None => !Self::spec_is_radio(field.spec_index()),
            },
    {
        match field {
            CargoField::ProjectType => Some((self.project_type.id, self.project_type.length())),
            CargoField::Edition => Some((self.edition.id, self.edition.length())),
            CargoField::Editor => Some((self.editor.id, self.editor.length())),
            CargoField::Vcs => Some((self.vcs.id, self.vcs.length())),
            _ => None,
        }
    }

    /// The help line for the whole form.
    pub fn bottom_help_message(&self) -> (r: String)
        ensures
            r@ == "tab: focus next item | shift+tab: focus prev item | Enter: confirm to create project | "@,
    {
        "tab: focus next item | shift+tab: focus prev item | Enter: confirm to create project | ".to_owned()
    }

    /// The arguments handed to the scaffolding command for the completed form.
    pub fn cargo_args(&self) -> (r: Vec<String>)
        ensures
            r@.len() == 5,
            r@[0]@ == "init"@,
            r@[1]@ == self.project_type.value.spec_args(),
            r@[2]@ == self.name@,
            r@[3]@ == "--edition"@,
            r@[4]@ == self.edition.value.spec_label(),
    {
        let mut v: Vec<String> = Vec::new();
        v.push("init".to_owned());
        v.push(self.project_type.value.args());
        v.push(self.name.clone());
        v.push("--edition".to_owned());
        v.push(self.edition.value.label());
        v
    }
}

impl FormFields for CargoInner {
    open spec fn spec_field_count() -> int {
        6
    }

    open spec fn spec_is_text(i: int) -> bool {
        i == 0
    }

    open spec fn spec_is_radio(i: int) -> bool {
        i == 1 || i == 2 || i == 3 || i == 4
    }

    open spec fn spec_text(self, i: int) -> Seq<char> {
        if i == 0 {
            self.name@
        } else {
            Seq::<char>::empty()
        }
    }

    open spec fn spec_radio_id(self, i: int) -> int {
        if i == 1 {
            self.project_type.id as int
        } else if i == 2 {
            self.edition.id as int
        } else if i == 3 {
            self.editor.id as int
        } else if i == 4 {
            self.vcs.id as int
        } else {
            0
        }
    }

    open spec fn spec_radio_len(self, i: int) -> int {
        if i == 1 {
            self.project_type.options@.len() as int
        } else if i == 2 {
            self.edition.options@.len() as int
        } else if i == 3 {
            self.editor.options@.len() as int
        } else if i == 4 {
            self.vcs.options@.len() as int
        } else {
            0
        }
    }

    open spec fn spec_validate(i: int, text: Seq<char>) -> Seq<char> {
        spec_validate_cargo_field(spec_cargo_field_of(i), text)
    }

    open spec fn fields_wf(self) -> bool {
        &&& self.project_type.wf()
        &&& self.edition.wf()
        &&& self.editor.wf()
        &&& self.vcs.wf()
    }

    proof fn lemma_count_positive() {
    }

    proof fn lemma_kind_exclusive(i: int) {
    }

    proof fn lemma_validate_empty(i: int) {
        reveal_strlit(" cannot be empty");
    }

    proof fn lemma_radio_wf(self, i: int) {
    }

    fn field_count() -> (r: usize) {
        6
    }

    fn is_text_field(&self, i: usize) -> (r: bool) {
        i == 0
    }

    fn is_radio_field(&self, i: usize) -> (r: bool) {
        i == 1 || i == 2 || i == 3 || i == 4
    }

    fn push_char(&mut self, i: usize, c: char) {
        crate::strutil::push_char(&mut self.name, c);
    }

    fn pop_char(&mut self, i: usize) {
        crate::strutil::pop_char(&mut self.name);
    }

    fn validate_field(&self, i: usize) -> (e: String) {
        if i == 0 {
            CargoField::Name.vaildate_string(self.name.as_str())
        } else {
            String::new()
        }
    }

    fn radio_next(&mut self, i: usize) {
        if i == 1 {
            self.project_type.next();
        } else if i == 2 {
            self.edition.next();
        } else if i == 3 {
            self.editor.next();
        } else {
            self.vcs.next();
        }
    }

    fn radio_prev(&mut self, i: usize) {
        if i == 1 {
            self.project_type.prev();
        } else if i == 2 {
            self.edition.prev();
        } else if i == 3 {
            self.editor.prev();
        } else {
            self.vcs.prev();
        }
    }
}

} // verus!
