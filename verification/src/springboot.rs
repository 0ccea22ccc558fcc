use crate::controller::{
    handle_inner_keyevent, keyevent_transition, FormFields, FormKey,
    InnerCommonState, InnerHandleKeyEventOutput,
};
use crate::editor::Editor;
use crate::radio::{RadioOption, RadioOptionValue};
use crate::strutil::{ends_with_char, snake_of, to_snake};
use crate::tools::ToolAvailability;
use crate::vcs::Vcs;
use vstd::prelude::*;
use vstd::string::StringExecFns;

verus! {

/// The fields of the Spring Boot form, in display order.
#[derive(Clone, Copy, Debug, PartialEq, Eq, Structural)]
pub enum SpringBootField {
    Name,
    Generator,
    GroupId,
    ArtifactId,
    BootVersion,
    Language,
    JavaVersion,
    Editor,
    Vcs,
    Dependencies,
    Path,
}

/// The field at a display position.
pub open spec fn spec_field_of(i: int) -> SpringBootField {
    if i == 0 {
        SpringBootField::Name
    } else if i == 1 {
        SpringBootField::Generator
    } else if i == 2 {
        SpringBootField::GroupId
    } else if i == 3 {
        SpringBootField::ArtifactId
    } else if i == 4 {
        SpringBootField::BootVersion
    } else if i == 5 {
        SpringBootField::Language
    } else if i == 6 {
        SpringBootField::JavaVersion
    } else if i == 7 {
        SpringBootField::Editor
    } else if i == 8 {
        SpringBootField::Vcs
    } else if i == 9 {
        SpringBootField::Dependencies
    } else {
        SpringBootField::Path
    }
}

/// The validation rule of the Spring Boot catalog: no field accepts empty
/// text, and the two identifier fields also reject a trailing dot.
pub open spec fn spec_validate_field(f: SpringBootField, text: Seq<char>) -> Seq<char> {
    if text.len() == 0 {
        snake_of(f.spec_name()) + " cannot be empty"@
    } else if (f == SpringBootField::GroupId || f == SpringBootField::ArtifactId) && text.last()
        == '.' {
        snake_of(f.spec_name()) + " cannot end with '.'"@
    } else {
        Seq::<char>::empty()
    }
}

/// Law: a field's text validates exactly when it is non-empty and, for the two
/// identifier fields, does not end with a dot.
pub proof fn lemma_validate_field(f: SpringBootField, text: Seq<char>)
    ensures
        spec_validate_field(f, text).len() == 0 <==> (text.len() > 0 && !((f
            == SpringBootField::GroupId || f == SpringBootField::ArtifactId) && text.last()
            == '.')),
{
    reveal_strlit(" cannot be empty");
    reveal_strlit(" cannot end with '.'");
}

impl SpringBootField {
    /// The display position of this field.
    pub open spec fn spec_index(self) -> int {
        match self {
            SpringBootField::Name => 0,
            SpringBootField::Generator => 1,
            SpringBootField::GroupId => 2,
            SpringBootField::ArtifactId => 3,
            SpringBootField::BootVersion => 4,
            SpringBootField::Language => 5,
            SpringBootField::JavaVersion => 6,
            SpringBootField::Editor => 7,
            SpringBootField::Vcs => 8,
            SpringBootField::Dependencies => 9,
            SpringBootField::Path => 10,
        }
    }

    /// The display name of this field.
    pub open spec fn spec_name(self) -> Seq<char> {
        match self {
            SpringBootField::Name => "Name"@,
            SpringBootField::Generator => "Generator"@,
            SpringBootField::GroupId => "GroupId"@,
            SpringBootField::ArtifactId => "ArtifactId"@,
            SpringBootField::BootVersion => "BootVersion"@,
            SpringBootField::Language => "Language"@,
            SpringBootField::JavaVersion => "JavaVersion"@,
            SpringBootField::Editor => "Editor"@,
            SpringBootField::Vcs => "Vcs"@,
            SpringBootField::Dependencies => "Dependencies"@,
            SpringBootField::Path => "Path"@,
        }
    }

    /// The display position of this field.
    pub fn index(&self) -> (r: usize)
        ensures
            r == self.spec_index(),
    {
        match self {
            SpringBootField::Name => 0,
            SpringBootField::Generator => 1,
            SpringBootField::GroupId => 2,
            SpringBootField::ArtifactId => 3,
            SpringBootField::BootVersion => 4,
            SpringBootField::Language => 5,
            SpringBootField::JavaVersion => 6,
            SpringBootField::Editor => 7,
            SpringBootField::Vcs => 8,
            SpringBootField::Dependencies => 9,
            SpringBootField::Path => 10,
        }
    }

    /// The field at a display position.
    pub fn from_index(i: usize) -> (r: Self)
        requires
            i < 11,
        ensures
            r == spec_field_of(i as int),
            r.spec_index() == i,
    {
        if i == 0 {
            SpringBootField::Name
        } else if i == 1 {
            SpringBootField::Generator
        } else if i == 2 {
            SpringBootField::GroupId
        } else if i == 3 {
            SpringBootField::ArtifactId
        } else if i == 4 {
            SpringBootField::BootVersion
        } else if i == 5 {
            SpringBootField::Language
        } else if i == 6 {
            SpringBootField::JavaVersion
        } else if i == 7 {
            SpringBootField::Editor
        } else if i == 8 {
            SpringBootField::Vcs
        } else if i == 9 {
            SpringBootField::Dependencies
        } else {
            SpringBootField::Path
        }
    }

    /// The display name of this field.
    pub fn display_name(&self) -> (r: String)
        ensures
            r@ == self.spec_name(),
    {
        match self {
            SpringBootField::Name => "Name".to_owned(),
            SpringBootField::Generator => "Generator".to_owned(),
            SpringBootField::GroupId => "GroupId".to_owned(),
            SpringBootField::ArtifactId => "ArtifactId".to_owned(),
            SpringBootField::BootVersion => "BootVersion".to_owned(),
            SpringBootField::Language => "Language".to_owned(),
            SpringBootField::JavaVersion => "JavaVersion".to_owned(),
            SpringBootField::Editor => "Editor".to_owned(),
            SpringBootField::Vcs => "Vcs".to_owned(),
            SpringBootField::Dependencies => "Dependencies".to_owned(),
            SpringBootField::Path => "Path".to_owned(),
        }
    }

    /// Validate text for this field: the returned message is empty exactly
    /// when the text passes.
    pub fn validate_string(self, value: &str) -> (r: String)
        ensures
            r@ == spec_validate_field(self, value@),
    {
        if value.is_empty() {
            let mut e = to_snake(self.display_name().as_str());
            e.append(" cannot be empty");
            return e;
        }
        match self {
            SpringBootField::GroupId | SpringBootField::ArtifactId => {
                if ends_with_char(value, '.') {
                    let mut e = to_snake(self.display_name().as_str());
                    e.append(" cannot end with '.'");
                    e
                } else {
                    String::new()
                }
            },
            _ => String::new(),
        }
    }
}

/// The build tool that generates the project skeleton.
#[derive(Clone, Copy, Debug, PartialEq, Eq, Structural)]
pub enum Generator {
    Maven,
    Gradle,
}

impl Default for Generator {
    fn default() -> (r: Self)
        ensures
            r == Generator::Maven,
    {
        Generator::Maven
    }
}

impl crate::LoopableNumberedEnum for Generator {
    open spec fn spec_num(self) -> int {
        match self {
            Generator::Maven => 0,
            Generator::Gradle => 1,
        }
    }

    open spec fn spec_count() -> int {
        2
    }

    proof fn lemma_num_in_range(self) {
    }

    fn num(&self) -> (r: usize) {
        match self {
            Generator::Maven => 0,
            Generator::Gradle => 1,
        }
    }

    fn count() -> (r: usize) {
        2
    }

    fn from_index(i: usize) -> (r: Self) {
        if i == 0 {
            Generator::Maven
        } else {
            Generator::Gradle
        }
    }
}

impl Generator {
    /// The project-type request parameter this generator stands for.
    pub open spec fn spec_param_kind(self) -> Seq<char> {
        match self {
            Generator::Maven => "maven-project"@,
            Generator::Gradle => "gradle-project"@,
        }
    }

    /// The project-type request parameter this generator stands for.
    pub fn param_kind(self) -> (r: String)
        ensures
            r@ == self.spec_param_kind(),
    {
        match self {
            Generator::Maven => "maven-project".to_owned(),
            Generator::Gradle => "gradle-project".to_owned(),
        }
    }
}

impl RadioOptionValue for Generator {
    open spec fn spec_all() -> Seq<Generator> {
        seq![Generator::Maven, Generator::Gradle]
    }

    open spec fn spec_default() -> Generator {
        Generator::Maven
    }

    open spec fn spec_selectable(self, tools: Map<Seq<char>, bool>) -> bool {
        true
    }

    open spec fn spec_label(self) -> Seq<char> {
        match self {
            Generator::Maven => "Maven"@,
            Generator::Gradle => "Gradle"@,
        }
    }

    fn all_values() -> (r: Vec<Generator>) {
        let mut v: Vec<Generator> = Vec::new();
        v.push(Generator::Maven);
        v.push(Generator::Gradle);
        proof {
            assert(v@ =~= Self::spec_all());
        }
        v
    }

    fn default_value() -> (r: Generator) {
        Generator::Maven
    }

    fn selectable(&self, tools: &ToolAvailability) -> (r: bool) {
        true
    }

    fn label(&self) -> (r: String) {
        match self {
            Generator::Maven => "Maven".to_owned(),
            Generator::Gradle => "Gradle".to_owned(),
        }
    }

    fn same(&self, other: &Generator) -> (r: bool) {
        *self == *other
    }
}

/// The implementation language of the generated project.
#[derive(Clone, Copy, Debug, PartialEq, Eq, Structural)]
pub enum Language {
    Java,
    Kotlin,
}

impl Default for Language {
    fn default() -> (r: Self)
        ensures
            r == Language::Java,
    {
        Language::Java
    }
}

impl Language {
    /// The source-file extension of this language.
    pub open spec fn spec_extension(self) -> Seq<char> {
        match self {
            Language::Java => "java"@,
            Language::Kotlin => "kt"@,
        }
    }

    /// The source-file extension of this language.
    pub fn extension(self) -> (r: String)
        ensures
            r@ == self.spec_extension(),
    {
        match self {
            Language::Java => "java".to_owned(),
            Language::Kotlin => "kt".to_owned(),
        }
    }

    /// The lower-case name this language carries in request parameters.
    pub open spec fn spec_param_name(self) -> Seq<char> {
        match self {
            Language::Java => "java"@,
            Language::Kotlin => "kotlin"@,
        }
    }

    /// The lower-case name this language carries in request parameters.
    pub fn param_name(self) -> (r: String)
        ensures
            r@ == self.spec_param_name(),
    {
        match self {
            Language::Java => "java".to_owned(),
            Language::Kotlin => "kotlin".to_owned(),
        }
    }
}

impl RadioOptionValue for Language {
    open spec fn spec_all() -> Seq<Language> {
        seq![Language::Java, Language::Kotlin]
    }

    open spec fn spec_default() -> Language {
        Language::Java
    }

    open spec fn spec_selectable(self, tools: Map<Seq<char>, bool>) -> bool {
        true
    }

    open spec fn spec_label(self) -> Seq<char> {
        match self {
            Language::Java => "Java"@,
            Language::Kotlin => "Kotlin"@,
        }
    }

    fn all_values() -> (r: Vec<Language>) {
        let mut v: Vec<Language> = Vec::new();
        v.push(Language::Java);
        v.push(Language::Kotlin);
        proof {
            assert(v@ =~= Self::spec_all());
        }
        v
    }

    fn default_value() -> (r: Language) {
        Language::Java
    }

    fn selectable(&self, tools: &ToolAvailability) -> (r: bool) {
        true
    }

    fn label(&self) -> (r: String) {
        match self {
            Language::Java => "Java".to_owned(),
            Language::Kotlin => "Kotlin".to_owned(),
        }
    }

    fn same(&self, other: &Language) -> (r: bool) {
        *self == *other
    }
}

/// The Java language level of the generated project.
#[derive(Clone, Copy, Debug, PartialEq, Eq, Structural)]
pub enum JavaVersion {
    TwentyThree,
    TwentyOne,
    Seventeen,
    Eight,
}

impl Default for JavaVersion {
    fn default() -> (r: Self)
        ensures
            r == JavaVersion::Seventeen,
    {
        JavaVersion::Seventeen
    }
}

impl RadioOptionValue for JavaVersion {
    open spec fn spec_all() -> Seq<JavaVersion> {
        seq![
            JavaVersion::TwentyThree,
            JavaVersion::TwentyOne,
            JavaVersion::Seventeen,
            JavaVersion::Eight,
        ]
    }

    open spec fn spec_default() -> JavaVersion {
        JavaVersion::Seventeen
    }

    open spec fn spec_selectable(self, tools: Map<Seq<char>, bool>) -> bool {
        true
    }

    open spec fn spec_label(self) -> Seq<char> {
        match self {
            JavaVersion::TwentyThree => "23"@,
            JavaVersion::TwentyOne => "21"@,
            JavaVersion::Seventeen => "17"@,
            JavaVersion::Eight => "8"@,
        }
    }

    fn all_values() -> (r: Vec<JavaVersion>) {
        let mut v: Vec<JavaVersion> = Vec::new();
        v.push(JavaVersion::TwentyThree);
        v.push(JavaVersion::TwentyOne);
        v.push(JavaVersion::Seventeen);
        v.push(JavaVersion::Eight);
        proof {
            assert(v@ =~= Self::spec_all());
        }
        v
    }

    fn default_value() -> (r: JavaVersion) {
        JavaVersion::Seventeen
    }

    fn selectable(&self, tools: &ToolAvailability) -> (r: bool) {
        true
    }

    fn label(&self) -> (r: String) {
        match self {
            JavaVersion::TwentyThree => "23".to_owned(),
            JavaVersion::TwentyOne => "21".to_owned(),
            JavaVersion::Seventeen => "17".to_owned(),
            JavaVersion::Eight => "8".to_owned(),
        }
    }

    fn same(&self, other: &JavaVersion) -> (r: bool) {
        *self == *other
    }
}

/// The Spring Boot project form: four text buffers, five radio cycles, and two
/// display-only fields, driven by the shared controller.
pub struct SpringBootInner {
    pub name: String,
    pub generator: RadioOption<Generator>,
    pub group_id: String,
    pub artifact_id: String,
    pub boot_version: String,
    pub language: RadioOption<Language>,
    pub java_version: RadioOption<JavaVersion>,
    pub editor: RadioOption<Editor>,
    pub vcs: RadioOption<Vcs>,
    pub dependencies: Vec<String>,
    pub path: String,
    pub common_state: InnerCommonState,
}

impl SpringBootInner {
    /// Well-formed: every radio cycle is consistent and the shared state spans
    /// exactly this form's fields.
    pub open spec fn wf(self) -> bool {
        &&& self.fields_wf()
        &&& self.common_state.wf()
        &&& self.common_state.focus_index.length == 11
    }

    /// A fresh form over the given tool availability, rooted at `path`.
    pub fn new(tools: &ToolAvailability, path: String) -> (r: Self)
        ensures
            r.wf(),
            r.name@ == "demo"@,
            r.group_id@ == "com.example"@,
            r.artifact_id@ == "demo"@,
            r.boot_version@ == "3.3.0"@,
            r.path == path,
            r.dependencies@.len() == 1 && r.dependencies@[0]@ == Seq::<char>::empty(),
            r.common_state.focus_index == (crate::loop_number::LoopNumber {
                value: 0,
                length: 11,
            }),
            forall|j: int|
                0 <= j < 11 ==> r.common_state.error_messages@[j]@ == Seq::<char>::empty(),
    {
        proof {
            crate::radio::lemma_options_nonempty::<Generator>(tools@, 0);
            crate::radio::lemma_options_nonempty::<Language>(tools@, 0);
            crate::radio::lemma_options_nonempty::<JavaVersion>(tools@, 0);
            crate::radio::lemma_options_nonempty::<Editor>(tools@, 0);
            crate::radio::lemma_options_nonempty::<Vcs>(tools@, 0);
        }
        let mut dependencies: Vec<String> = Vec::new();
        dependencies.push(String::new());
        SpringBootInner {
            name: "demo".to_owned(),
            generator: RadioOption::default_for(tools),
            group_id: "com.example".to_owned(),
            artifact_id: "demo".to_owned(),
            boot_version: "3.3.0".to_owned(),
            language: RadioOption::default_for(tools),
            java_version: RadioOption::default_for(tools),
            editor: RadioOption::default_for(tools),
            vcs: RadioOption::default_for(tools),
            dependencies,
            path,
            common_state: InnerCommonState::new(11),
        }
    }

    /// Apply one key event: the shared validation state is taken out, the
    /// generic controller computes the new state, and the result is committed
    /// back in one step.
    pub fn handle_keyevent(&mut self, key: FormKey) -> (out: InnerHandleKeyEventOutput)
        requires
            old(self).wf(),
        ensures
            final(self).wf(),
            keyevent_transition(
                *old(self),
                old(self).common_state,
                *final(self),
                final(self).common_state,
                key,
                out,
            ),
    {
        let ghost orig = *self;
        // A minimal placeholder occupies the slot while the real state is out.
        let mut state = InnerCommonState::new(1);
        core::mem::swap(&mut state, &mut self.common_state);
        let ghost pre_ctrl = *self;
        let (state2, out) = handle_inner_keyevent(self, state, key);
        let ghost post_ctrl = *self;
        self.common_state = state2;
        proof {
            assert(crate::controller::same_fields(pre_ctrl, orig));
            assert(crate::controller::same_fields(post_ctrl, *self));
            crate::controller::lemma_transition_congruence(
                pre_ctrl,
                orig,
                post_ctrl,
                *self,
                state,
                state2,
                key,
                out,
            );
        }
        out
    }


    /// The form with one text buffer replaced; fields other than the four text
    /// buffers are never replaced.
    pub open spec fn with_buffer(self, field: SpringBootField, s: String) -> Self {
        match field {
            SpringBootField::Name => SpringBootInner { name: s, ..self },
            SpringBootField::GroupId => SpringBootInner { group_id: s, ..self },
            SpringBootField::ArtifactId => SpringBootInner { artifact_id: s, ..self },
            SpringBootField::BootVersion => SpringBootInner { boot_version: s, ..self },
            _ => self,
        }
    }

    /// A mutable handle to the text buffer of a text field; `None` for every
    /// other field.
    pub fn get_focus_field_mut(&mut self, field: SpringBootField) -> (r: Option<&mut String>)
        ensures
            match r {
                Some(buf) => {
                    &&& Self::spec_is_text(field.spec_index())
                    &&& *buf == old(self).spec_buffer_at(field)
                    &&& *final(self) == old(self).with_buffer(field, *final(buf))
                },
                None => {
                    &&& !Self::spec_is_text(field.spec_index())
                    &&& *final(self) == *old(self)
                },
            },
    {
        match field {
            SpringBootField::Name => Some(&mut self.name),
            SpringBootField::GroupId => Some(&mut self.group_id),
            SpringBootField::ArtifactId => Some(&mut self.artifact_id),
            SpringBootField::BootVersion => Some(&mut self.boot_version),
            _ => None,
        }
    }

    /// The text buffer a text field edits.
    pub open spec fn spec_buffer_at(self, field: SpringBootField) -> String {
        match field {
            SpringBootField::Name => self.name,
            SpringBootField::GroupId => self.group_id,
            SpringBootField::ArtifactId => self.artifact_id,
            SpringBootField::BootVersion => self.boot_version,
            _ => self.name,
        }
    }

    /// The display labels of the fields, in display order.
    pub fn labels() -> (r: Vec<String>)
        ensures
            r@.len() == 11,
            forall|j: int| 0 <= j < 11 ==> r@[j]@ == snake_of(spec_field_of(j).spec_name()),
    {
        let mut v: Vec<String> = Vec::new();
        let mut i: usize = 0;
        while i < 11
            invariant
                i <= 11,
                v@.len() == i,
                forall|j: int| 0 <= j < i ==> v@[j]@ == snake_of(spec_field_of(j).spec_name()),
            decreases 11 - i,
        {
            let f = SpringBootField::from_index(i);
            v.push(to_snake(f.display_name().as_str()));
            i += 1;
        }
        v
    }

    /// The help line shown for each field, in display order.
    pub fn tips() -> (r: Vec<String>)
        ensures
            r@.len() == 11,
            r@[0]@ == "Please input the name of this project"@,
            r@[1]@ == "Use arrow keys to select generator"@,
            r@[2]@ == "Please input the group_id of this project"@,
            r@[3]@ == "Please input the artifact_id of this project"@,
            r@[4]@ == "Please input the boot_version of this project"@,
            r@[5]@ == "Use arrow keys to select language"@,
            r@[6]@ == "Use arrow keys to select java_version"@,
            r@[7]@ == "Use arrow keys to select editor"@,
            r@[8]@ == "Use arrow keys to select vcs tool"@,
            r@[9]@ == "Please input the dependencies of this project"@,
            r@[10]@ == "Please input the path of this project"@,
    {
        let mut v: Vec<String> = Vec::new();
        v.push("Please input the name of this project".to_owned());
        v.push("Use arrow keys to select generator".to_owned());
        v.push("Please input the group_id of this project".to_owned());
        v.push("Please input the artifact_id of this project".to_owned());
        v.push("Please input the boot_version of this project".to_owned());
        v.push("Use arrow keys to select language".to_owned());
        v.push("Use arrow keys to select java_version".to_owned());
        v.push("Use arrow keys to select editor".to_owned());
        v.push("Use arrow keys to select vcs tool".to_owned());
        v.push("Please input the dependencies of this project".to_owned());
        v.push("Please input the path of this project".to_owned());
        v
    }

    /// The display text of one field: a text buffer's content, a radio's
    /// current label, the joined dependency list, or the path.
    pub fn get_field(&self, field: SpringBootField) -> (r: String)
        ensures
            r@ == match field {
                SpringBootField::Name => self.name@,
                SpringBootField::Generator => self.generator.value.spec_label(),
                SpringBootField::GroupId => self.group_id@,
                SpringBootField::ArtifactId => self.artifact_id@,
                SpringBootField::BootVersion => self.boot_version@,
                SpringBootField::Language => self.language.value.spec_label(),
                SpringBootField::JavaVersion => self.java_version.value.spec_label(),
                SpringBootField::Editor => self.editor.value.spec_label(),
                SpringBootField::Vcs => self.vcs.value.spec_label(),
                SpringBootField::Dependencies => crate::strutil::spec_joined(
                    crate::strutil::views_of(self.dependencies@),
                    ","@,
                ),
                SpringBootField::Path => self.path@,
            },
    {
        match field {
            SpringBootField::Name => self.name.clone(),
            SpringBootField::Generator => self.generator.value.label(),
            SpringBootField::GroupId => self.group_id.clone(),
            SpringBootField::ArtifactId => self.artifact_id.clone(),
            SpringBootField::BootVersion => self.boot_version.clone(),
            SpringBootField::Language => self.language.value.label(),
            SpringBootField::JavaVersion => self.java_version.value.label(),
            SpringBootField::Editor => self.editor.value.label(),
            SpringBootField::Vcs => self.vcs.value.label(),
            SpringBootField::Dependencies => crate::strutil::join_strings(&self.dependencies, ","),
            SpringBootField::Path => self.path.clone(),
        }
    }

    /// The cursor and cycle length of a radio field; `None` for every other
    /// field.
    pub fn get_radio(&self, field: SpringBootField) -> (r: Option<(usize, usize)>)
        ensures
            match r {
                Some(p) => Self::spec_is_radio(field.spec_index()) && p.0
                    == self.spec_radio_id(field.spec_index()) && p.1 == self.spec_radio_len(
                    field.spec_index(),
                ),
                None => !Self::spec_is_radio(field.spec_index()),
            },
    {
        match field {
            SpringBootField::Generator => Some((self.generator.id, self.generator.length())),
            SpringBootField::Language => Some((self.language.id, self.language.length())),
            SpringBootField::JavaVersion => Some((self.java_version.id, self.java_version.length())),
            SpringBootField::Editor => Some((self.editor.id, self.editor.length())),
            SpringBootField::Vcs => Some((self.vcs.id, self.vcs.length())),
            _ => None,
        }
    }

    /// The help line for the whole form.
    pub fn bottom_help_message(&self) -> (r: String)
        ensures
            r@ == "tab: focus next item | shift+tab: focus prev item | Enter: confirm to create project | "@,
    {
        "tab: focus next item | shift+tab: focus prev item | Enter: confirm to create project | ".to_owned()
    }

    /// The request parameters the completed form submits for materialisation.
    pub fn starter_params(&self) -> (r: Vec<(String, String)>)
        ensures
            r@.len() == 9,
            r@[0].0@ == "groupId"@ && r@[0].1@ == self.group_id@,
            r@[1].0@ == "artifactId"@ && r@[1].1@ == self.artifact_id@,
            r@[2].0@ == "type"@ && r@[2].1@ == self.generator.value.spec_param_kind(),
            r@[3].0@ == "name"@ && r@[3].1@ == self.name@,
            r@[4].0@ == "language"@ && r@[4].1@ == self.language.value.spec_param_name(),
            r@[5].0@ == "javaVersion"@ && r@[5].1@ == self.java_version.value.spec_label(),
            r@[6].0@ == "bootVersion"@ && r@[6].1@ == self.boot_version@,
            r@[7].0@ == "baseDir"@ && r@[7].1@ == self.name@,
            r@[8].0@ == "dependencies"@ && r@[8].1@ == crate::strutil::spec_joined(
                crate::strutil::views_of(self.dependencies@),
                ","@,
            ),
    {
        let mut v: Vec<(String, String)> = Vec::new();
        v.push(("groupId".to_owned(), self.group_id.clone()));
        v.push(("artifactId".to_owned(), self.artifact_id.clone()));
        v.push(("type".to_owned(), self.generator.value.param_kind()));
        v.push(("name".to_owned(), self.name.clone()));
        v.push(("language".to_owned(), self.language.value.param_name()));
        v.push(("javaVersion".to_owned(), self.java_version.value.label()));
        v.push(("bootVersion".to_owned(), self.boot_version.clone()));
        v.push(("baseDir".to_owned(), self.name.clone()));
        v.push(("dependencies".to_owned(), crate::strutil::join_strings(&self.dependencies, ",")));
        v
    }

    /// The path, inside the generated project, of the application entry file
    /// that the editor is opened on.
    pub fn application_file_path(&self) -> (r: String)
        ensures
            r@ == "src/main/"@ + self.language.value.spec_param_name() + "/"@
                + crate::strutil::spec_replace(self.group_id@, '.', '/') + "/"@ + self.artifact_id@
                + "/"@ + crate::strutil::spec_upper_first(self.artifact_id@) + "Application."@
                + self.language.value.spec_extension(),
    {
        let mut p = "src/main/".to_owned();
        p.append(self.language.value.param_name().as_str());
        p.append("/");
        p.append(crate::strutil::replace_char(self.group_id.as_str(), '.', '/').as_str());
        p.append("/");
        p.append(self.artifact_id.as_str());
        p.append("/");
        p.append(crate::strutil::upper_first(self.artifact_id.as_str()).as_str());
        p.append("Application.");
        p.append(self.language.value.extension().as_str());
        proof {
            assert(p@ =~= "src/main/"@ + self.language.value.spec_param_name() + "/"@
                + crate::strutil::spec_replace(self.group_id@, '.', '/') + "/"@
                + self.artifact_id@ + "/"@ + crate::strutil::spec_upper_first(self.artifact_id@)
                + "Application."@ + self.language.value.spec_extension());
        }
        p
    }
}

impl FormFields for SpringBootInner {
    open spec fn spec_field_count() -> int {
        11
    }

    open spec fn spec_is_text(i: int) -> bool {
        i == 0 || i == 2 || i == 3 || i == 4
    }

    open spec fn spec_is_radio(i: int) -> bool {
        i == 1 || i == 5 || i == 6 || i == 7 || i == 8
    }

    open spec fn spec_text(self, i: int) -> Seq<char> {
        if i == 0 {
            self.name@
        } else if i == 2 {
            self.group_id@
        } else if i == 3 {
            self.artifact_id@
        } else if i == 4 {
            self.boot_version@
        } else {
            Seq::<char>::empty()
        }
    }

    open spec fn spec_radio_id(self, i: int) -> int {
        if i == 1 {
            self.generator.id as int
        } else if i == 5 {
            self.language.id as int
        } else if i == 6 {
            self.java_version.id as int
        } else if i == 7 {
            self.editor.id as int
        } else if i == 8 {
            self.vcs.id as int
        } else {
            0
        }
    }

    open spec fn spec_radio_len(self, i: int) -> int {
        if i == 1 {
            self.generator.options@.len() as int
        } else if i == 5 {
            self.language.options@.len() as int
        } else if i == 6 {
            self.java_version.options@.len() as int
        } else if i == 7 {
            self.editor.options@.len() as int
        } else if i == 8 {
            self.vcs.options@.len() as int
        } else {
            0
        }
    }

    open spec fn spec_validate(i: int, text: Seq<char>) -> Seq<char> {
        spec_validate_field(spec_field_of(i), text)
    }

    open spec fn fields_wf(self) -> bool {
        &&& self.generator.wf()
        &&& self.language.wf()
        &&& self.java_version.wf()
        &&& self.editor.wf()
        &&& self.vcs.wf()
    }

    proof fn lemma_count_positive() {
    }

    proof fn lemma_kind_exclusive(i: int) {
    }

    proof fn lemma_validate_empty(i: int) {
        reveal_strlit(" cannot be empty");
    }

    proof fn lemma_radio_wf(self, i: int) {
    }

    fn field_count() -> (r: usize) {
        11
    }

    fn is_text_field(&self, i: usize) -> (r: bool) {
        i == 0 || i == 2 || i == 3 || i == 4
    }

    fn is_radio_field(&self, i: usize) -> (r: bool) {
        i == 1 || i == 5 || i == 6 || i == 7 || i == 8
    }

    fn push_char(&mut self, i: usize, c: char) {
        if i == 0 {
            crate::strutil::push_char(&mut self.name, c);
        } else if i == 2 {
            crate::strutil::push_char(&mut self.group_id, c);
        } else if i == 3 {
            crate::strutil::push_char(&mut self.artifact_id, c);
        } else {
            crate::strutil::push_char(&mut self.boot_version, c);
        }
    }

    fn pop_char(&mut self, i: usize) {
        if i == 0 {
            crate::strutil::pop_char(&mut self.name);
        } else if i == 2 {
            crate::strutil::pop_char(&mut self.group_id);
        } else if i == 3 {
            crate::strutil::pop_char(&mut self.artifact_id);
        } else {
            crate::strutil::pop_char(&mut self.boot_version);
        }
    }

    fn validate_field(&self, i: usize) -> (e: String) {
        if i == 0 {
            SpringBootField::Name.validate_string(self.name.as_str())
        } else if i == 2 {
            SpringBootField::GroupId.validate_string(self.group_id.as_str())
        } else if i == 3 {
            SpringBootField::ArtifactId.validate_string(self.artifact_id.as_str())
        } else if i == 4 {
            SpringBootField::BootVersion.validate_string(self.boot_version.as_str())
        } else {
            String::new()
        }
    }

    fn radio_next(&mut self, i: usize) {
        if i == 1 {
            self.generator.next();
        } else if i == 5 {
            self.language.next();
        } else if i == 6 {
            self.java_version.next();
        } else if i == 7 {
            self.editor.next();
        } else {
            self.vcs.next();
        }
    }

    fn radio_prev(&mut self, i: usize) {
        if i == 1 {
            self.generator.prev();
        } else if i == 5 {
            self.language.prev();
        } else if i == 6 {
            self.java_version.prev();
        } else if i == 7 {
            self.editor.prev();
        } else {
            self.vcs.prev();
        }
    }
}

} // verus!
