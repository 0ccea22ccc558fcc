use project_setup::cargo::{CargoField, CargoInner, Edition, ProjectType};
use project_setup::cmake::{CmakeField, CmakeInner};
use project_setup::controller::FormKey;
use project_setup::springboot::{Generator, JavaVersion, Language, SpringBootField, SpringBootInner};
use project_setup::tools::ToolAvailability;

fn no_tools() -> ToolAvailability {
    ToolAvailability::new()
}

#[test]
fn springboot_defaults() {
    let f = SpringBootInner::new(&no_tools(), "/tmp".to_string());
    assert_eq!(f.name, "demo");
    assert_eq!(f.group_id, "com.example");
    assert_eq!(f.artifact_id, "demo");
    assert_eq!(f.boot_version, "3.3.0");
    assert_eq!(f.generator.value, Generator::Maven);
    assert_eq!(f.language.value, Language::Java);
    assert_eq!(f.java_version.value, JavaVersion::Seventeen);
    assert_eq!(f.common_state.focus_index.value, 0);
    assert_eq!(f.common_state.error_messages.len(), 11);
}

#[test]
fn typing_appends_and_revalidates() {
    let mut f = SpringBootInner::new(&no_tools(), "/tmp".to_string());
    f.handle_keyevent(FormKey::Char('x'));
    assert_eq!(f.name, "demox");
    assert_eq!(f.common_state.error_messages[0], "");
}

#[test]
fn append_then_erase_restores_buffer_and_message() {
    let mut f = SpringBootInner::new(&no_tools(), "/tmp".to_string());
    let before_error = f.common_state.error_messages[0].clone();
    f.handle_keyevent(FormKey::Char('a'));
    f.handle_keyevent(FormKey::Char('b'));
    f.handle_keyevent(FormKey::Erase);
    f.handle_keyevent(FormKey::Erase);
    assert_eq!(f.name, "demo");
    assert_eq!(f.common_state.error_messages[0], before_error);
}

#[test]
fn erasing_an_empty_buffer_keeps_it_empty() {
    let mut f = CargoInner::new(&no_tools(), "/tmp".to_string());
    f.handle_keyevent(FormKey::Erase);
    assert_eq!(f.name, "");
    assert_eq!(
        f.common_state.error_messages[0],
        "name cannot be empty"
    );
}

#[test]
fn confirm_with_empty_field_never_submits() {
    let mut f = CargoInner::new(&no_tools(), "/tmp".to_string());
    let out = f.handle_keyevent(FormKey::Confirm);
    assert!(!out.exit);
    assert_eq!(f.common_state.error_messages[0], "name cannot be empty");
}

#[test]
fn confirm_with_all_fields_passing_submits() {
    let mut f = CargoInner::new(&no_tools(), "/tmp".to_string());
    f.handle_keyevent(FormKey::Char('x'));
    let out = f.handle_keyevent(FormKey::Confirm);
    assert!(out.exit);
    for e in &f.common_state.error_messages {
        assert_eq!(e, "");
    }
}

#[test]
fn two_field_walkthrough_submits() {
    let mut f = CargoInner::new(&no_tools(), "/tmp".to_string());
    f.handle_keyevent(FormKey::Char('x'));
    assert_eq!(f.common_state.error_messages[0], "");
    f.handle_keyevent(FormKey::FocusNext);
    assert_eq!(f.common_state.focus_index.value, 1);
    assert_eq!(f.project_type.value, ProjectType::Executable);
    f.handle_keyevent(FormKey::SelectNext);
    assert_eq!(f.project_type.value, ProjectType::Library);
    let out = f.handle_keyevent(FormKey::Confirm);
    assert!(out.exit);
}

#[test]
fn focus_wraps_around_both_ways() {
    let mut f = CargoInner::new(&no_tools(), "/tmp".to_string());
    f.handle_keyevent(FormKey::FocusPrev);
    assert_eq!(f.common_state.focus_index.value, 5);
    f.handle_keyevent(FormKey::FocusNext);
    assert_eq!(f.common_state.focus_index.value, 0);
}

#[test]
fn trailing_dot_blocks_submission() {
    let mut f = SpringBootInner::new(&no_tools(), "/tmp".to_string());
    f.handle_keyevent(FormKey::FocusNext);
    f.handle_keyevent(FormKey::FocusNext);
    assert_eq!(f.common_state.focus_index.value, 2);
    f.handle_keyevent(FormKey::Char('.'));
    assert_eq!(f.group_id, "com.example.");
    assert_eq!(
        f.common_state.error_messages[2],
        "group_id cannot end with '.'"
    );
    let out = f.handle_keyevent(FormKey::Confirm);
    assert!(!out.exit);
    f.handle_keyevent(FormKey::Erase);
    let out2 = f.handle_keyevent(FormKey::Confirm);
    assert!(out2.exit);
}

#[test]
fn selection_keys_cycle_the_focused_radio() {
    let mut f = SpringBootInner::new(&no_tools(), "/tmp".to_string());
    f.handle_keyevent(FormKey::FocusNext);
    f.handle_keyevent(FormKey::SelectNext);
    assert_eq!(f.generator.value, Generator::Gradle);
    f.handle_keyevent(FormKey::SelectNext);
    assert_eq!(f.generator.value, Generator::Maven);
    f.handle_keyevent(FormKey::SelectPrev);
    assert_eq!(f.generator.value, Generator::Gradle);
}

#[test]
fn selection_keys_ignore_text_fields() {
    let mut f = SpringBootInner::new(&no_tools(), "/tmp".to_string());
    f.handle_keyevent(FormKey::SelectNext);
    assert_eq!(f.generator.value, Generator::Maven);
    assert_eq!(f.name, "demo");
}

#[test]
fn character_keys_ignore_radio_fields() {
    let mut f = SpringBootInner::new(&no_tools(), "/tmp".to_string());
    f.handle_keyevent(FormKey::FocusNext);
    let out = f.handle_keyevent(FormKey::Char('z'));
    assert!(!out.exit);
    assert!(!out.esc_handled);
    assert_eq!(f.name, "demo");
    assert_eq!(f.generator.value, Generator::Maven);
}

#[test]
fn other_keys_are_left_to_the_host() {
    let mut f = SpringBootInner::new(&no_tools(), "/tmp".to_string());
    let out = f.handle_keyevent(FormKey::Other);
    assert!(!out.esc_handled);
    assert!(!out.exit);
    assert_eq!(f.name, "demo");
    assert_eq!(f.common_state.focus_index.value, 0);
}

#[test]
fn springboot_validator_messages() {
    assert_eq!(
        SpringBootField::BootVersion.validate_string(""),
        "boot_version cannot be empty"
    );
    assert_eq!(
        SpringBootField::ArtifactId.validate_string("demo."),
        "artifact_id cannot end with '.'"
    );
    assert_eq!(SpringBootField::GroupId.validate_string("com.example"), "");
    assert_eq!(SpringBootField::Name.validate_string("a."), "");
}

#[test]
fn cargo_validator_messages() {
    assert_eq!(CargoField::Name.vaildate_string(""), "name cannot be empty");
    assert_eq!(CargoField::Name.vaildate_string("x"), "");
}

#[test]
fn cmake_validator_messages() {
    assert_eq!(
        CmakeField::ProjectVersion.vaildate_string(""),
        "project_version cannot be empty"
    );
    assert_eq!(CmakeField::LanguageVersion.vaildate_string("17"), "");
}

#[test]
fn labels_are_snake_case() {
    assert_eq!(
        SpringBootInner::labels(),
        vec![
            "name",
            "generator",
            "group_id",
            "artifact_id",
            "boot_version",
            "language",
            "java_version",
            "editor",
            "vcs",
            "dependencies",
            "path"
        ]
    );
    assert_eq!(
        CargoInner::labels(),
        vec!["name", "project_type", "edition", "editor", "vcs", "path"]
    );
    assert_eq!(
        CmakeInner::labels(),
        vec![
            "name",
            "cmake_minimum_required",
            "project_type",
            "language",
            "language_version",
            "editor",
            "vcs",
            "path"
        ]
    );
}

#[test]
fn tips_follow_the_fields() {
    let tips = SpringBootInner::tips();
    assert_eq!(tips.len(), 11);
    assert_eq!(tips[0], "Please input the name of this project");
    assert_eq!(tips[8], "Use arrow keys to select vcs tool");
    assert_eq!(CargoInner::tips()[1], "Use arrow keys to select project_type");
    assert_eq!(
        CmakeInner::tips()[1],
        "Please input the cmake_minimum_required of this project"
    );
}

#[test]
fn field_text_reflects_the_form() {
    let f = SpringBootInner::new(&no_tools(), "/projects".to_string());
    assert_eq!(f.get_field(SpringBootField::Name), "demo");
    assert_eq!(f.get_field(SpringBootField::Generator), "Maven");
    assert_eq!(f.get_field(SpringBootField::JavaVersion), "17");
    assert_eq!(f.get_field(SpringBootField::Path), "/projects");
    assert_eq!(f.get_field(SpringBootField::Dependencies), "");
    let c = CmakeInner::new(&no_tools(), "/projects".to_string());
    assert_eq!(c.get_field(CmakeField::Language), "C");
}

#[test]
fn radio_queries_name_only_radios() {
    let f = SpringBootInner::new(&no_tools(), "/tmp".to_string());
    assert_eq!(f.get_radio(SpringBootField::Generator), Some((0, 2)));
    assert_eq!(f.get_radio(SpringBootField::JavaVersion), Some((2, 4)));
    assert_eq!(f.get_radio(SpringBootField::Name), None);
    let c = CargoInner::new(&no_tools(), "/tmp".to_string());
    assert_eq!(c.get_radio(CargoField::Edition), Some((3, 4)));
    assert_eq!(c.get_radio(CargoField::Path), None);
}

#[test]
fn starter_params_carry_the_form() {
    let mut f = SpringBootInner::new(&no_tools(), "/tmp".to_string());
    f.handle_keyevent(FormKey::FocusNext);
    f.handle_keyevent(FormKey::SelectNext);
    let params = f.starter_params();
    assert_eq!(params.len(), 9);
    assert_eq!(params[0], ("groupId".to_string(), "com.example".to_string()));
    assert_eq!(params[1], ("artifactId".to_string(), "demo".to_string()));
    assert_eq!(params[2], ("type".to_string(), "gradle-project".to_string()));
    assert_eq!(params[3], ("name".to_string(), "demo".to_string()));
    assert_eq!(params[4], ("language".to_string(), "java".to_string()));
    assert_eq!(params[5], ("javaVersion".to_string(), "17".to_string()));
    assert_eq!(params[6], ("bootVersion".to_string(), "3.3.0".to_string()));
    assert_eq!(params[7], ("baseDir".to_string(), "demo".to_string()));
    assert_eq!(params[8], ("dependencies".to_string(), "".to_string()));
}

#[test]
fn application_file_path_is_assembled() {
    let f = SpringBootInner::new(&no_tools(), "/tmp".to_string());
    assert_eq!(
        f.application_file_path(),
        "src/main/java/com/example/demo/DemoApplication.java"
    );
}

#[test]
fn cmake_lists_is_assembled() {
    let mut f = CmakeInner::new(&no_tools(), "/tmp".to_string());
    f.handle_keyevent(FormKey::Char('p'));
    f.handle_keyevent(FormKey::FocusNext);
    f.handle_keyevent(FormKey::Char('3'));
    f.handle_keyevent(FormKey::FocusNext);
    f.handle_keyevent(FormKey::FocusNext);
    f.handle_keyevent(FormKey::FocusNext);
    f.handle_keyevent(FormKey::Char('1'));
    f.handle_keyevent(FormKey::Char('7'));
    assert_eq!(
        f.cmake_lists(),
        "cmake_minimum_required(VERSION 3)\nproject(p)\n\nset(CMAKE_C_STANDARD 17)\n\nadd_executable(${PROJECT_NAME} main.c)\n"
    );
}

#[test]
fn cargo_args_follow_the_form() {
    let mut f = CargoInner::new(&no_tools(), "/tmp".to_string());
    f.handle_keyevent(FormKey::Char('x'));
    let args = f.cargo_args();
    assert_eq!(args, vec!["init", "--name", "x", "--edition", "2024"]);
    let mut lib = CargoInner::new(&no_tools(), "/tmp".to_string());
    lib.handle_keyevent(FormKey::FocusNext);
    lib.handle_keyevent(FormKey::SelectNext);
    assert_eq!(lib.cargo_args()[1], "--lib");
}

#[test]
fn edition_labels_cycle() {
    let mut f = CargoInner::new(&no_tools(), "/tmp".to_string());
    assert_eq!(f.edition.value, Edition::TwentyFour);
    f.handle_keyevent(FormKey::FocusNext);
    f.handle_keyevent(FormKey::FocusNext);
    f.handle_keyevent(FormKey::SelectNext);
    assert_eq!(f.edition.value, Edition::Fifteen);
    f.handle_keyevent(FormKey::SelectPrev);
    assert_eq!(f.edition.value, Edition::TwentyFour);
}

#[test]
fn focus_wraps_on_the_long_form_too() {
    let mut f = SpringBootInner::new(&no_tools(), "/tmp".to_string());
    f.handle_keyevent(FormKey::FocusPrev);
    assert_eq!(f.common_state.focus_index.value, 10);
    f.handle_keyevent(FormKey::FocusNext);
    assert_eq!(f.common_state.focus_index.value, 0);
}

#[test]
fn mutable_buffer_handles_name_text_fields_only() {
    let mut f = SpringBootInner::new(&no_tools(), "/tmp".to_string());
    {
        let buf = f.get_focus_field_mut(SpringBootField::GroupId).unwrap();
        buf.push('x');
    }
    assert_eq!(f.group_id, "com.examplex");
    assert!(f.get_focus_field_mut(SpringBootField::Editor).is_none());
    assert!(f.get_focus_field_mut(SpringBootField::Path).is_none());
}

#[test]
fn springboot_language_details() {
    assert_eq!(Language::Java.extension(), "java");
    assert_eq!(Language::Kotlin.extension(), "kt");
    assert_eq!(Language::Kotlin.param_name(), "kotlin");
}
