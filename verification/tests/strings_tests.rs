use project_setup::config::ProjectConfig;
use project_setup::features::{form_data, path_converter};
use project_setup::focus_input::FocusInput;
use project_setup::language::Language;
use project_setup::list_state_item::ListStateItem;
use project_setup::project_type::ProjectType;
use project_setup::strutil::{ascii_upper, join_strings, replace_char, upper_first};
use project_setup::tools::{Executable, ExecutableEnum};
use project_setup::vcs::Vcs;

#[test]
fn form_data_joins_pairs() {
    let params = vec![
        ("groupId".to_string(), "com.example".to_string()),
        ("name".to_string(), "demo".to_string()),
    ];
    assert_eq!(form_data(&params), "groupId=com.example&name=demo");
    let one = vec![("a".to_string(), "1".to_string())];
    assert_eq!(form_data(&one), "a=1");
    let none: Vec<(String, String)> = Vec::new();
    assert_eq!(form_data(&none), "");
}

#[test]
fn join_strings_separates_entries() {
    let items = vec!["x".to_string(), "y".to_string(), "z".to_string()];
    assert_eq!(join_strings(&items, ","), "x,y,z");
    let single = vec!["only".to_string()];
    assert_eq!(join_strings(&single, ","), "only");
    let empty: Vec<String> = Vec::new();
    assert_eq!(join_strings(&empty, ","), "");
}

#[test]
fn replace_char_rewrites_every_occurrence() {
    assert_eq!(replace_char("com.example.app", '.', '/'), "com/example/app");
    assert_eq!(replace_char("nodots", '.', '/'), "nodots");
}

#[test]
fn upper_first_capitalises_ascii() {
    assert_eq!(upper_first("demo"), "Demo");
    assert_eq!(upper_first(""), "");
    assert_eq!(upper_first("7zip"), "7zip");
    assert_eq!(ascii_upper('q'), 'Q');
    assert_eq!(ascii_upper('Q'), 'Q');
}

#[test]
fn path_converter_rewrites_drive_letters() {
    assert_eq!(path_converter("C:\\Users\\dev"), "/c/Users/dev");
    assert_eq!(path_converter("D:/data"), "/d/data");
    assert_eq!(path_converter("plain/unix/path"), "plain/unix/path");
    assert_eq!(path_converter("ab:no-drive"), "ab:no-drive");
}

#[test]
fn executable_list_names_every_tool() {
    let names = Executable::list(false);
    assert_eq!(
        names,
        vec![
            "", "git", "svn", "", "vim", "code", "nvim", "idea", "clion", "rustrover", "curl",
            "wget", "unzip", "tar", "7z"
        ]
    );
    let descs = Executable::list(true);
    assert_eq!(descs.len(), 15);
    assert_eq!(descs[0], "checking executable...");
    assert_eq!(descs[1], "checking git executable...");
    assert_eq!(descs[10], "checking curl executable...");
}

#[test]
fn executable_enum_list_stops_at_editors() {
    let names = ExecutableEnum::list(false);
    assert_eq!(names.len(), 10);
    assert_eq!(names[1], "git");
    assert_eq!(names[9], "rustrover");
    let descs = ExecutableEnum::list(true);
    assert_eq!(descs[9], "checking rustrover executable...");
}

#[test]
fn project_type_versions_and_languages() {
    assert_eq!(
        ProjectType::SpringBoot.versions(),
        vec!["3.3.0", "3.4.0", "3.5.0"]
    );
    assert_eq!(ProjectType::Cargo.versions(), vec!["1.86.0"]);
    assert_eq!(
        ProjectType::Cmake.languages(),
        vec![Language::C, Language::Cpp]
    );
    assert_eq!(ProjectType::Cargo.languages(), vec![Language::Rust]);
}

#[test]
fn language_versions_are_listed() {
    assert_eq!(Language::Java.versions(), vec!["23", "21", "17", "11", "8"]);
    assert_eq!(Language::Kotlin.versions(), vec!["2.1.20"]);
    assert_eq!(
        Language::Cpp.versions(),
        vec!["98", "03", "11", "14", "17", "20", "23", "26"]
    );
}

#[test]
fn focus_input_titles() {
    assert_eq!(FocusInput::ProjectType.title(), "Project Type");
    assert_eq!(FocusInput::Name.title(), "Project Info");
    assert_eq!(FocusInput::Bottom.title(), "");
}

#[test]
fn list_state_navigation_wraps() {
    let mut l = ListStateItem::new(vec![10u32, 20, 30]);
    assert_eq!(l.selected, Some(0));
    let mut current = 0u32;
    l.next(&mut current);
    assert_eq!((l.selected, current), (Some(1), 20));
    l.next(&mut current);
    assert_eq!((l.selected, current), (Some(2), 30));
    l.next(&mut current);
    assert_eq!((l.selected, current), (Some(0), 10));
    l.next(&mut current);
    l.previous(&mut current);
    assert_eq!((l.selected, current), (Some(0), 10));
}

#[test]
fn project_config_starts_blank() {
    let c = ProjectConfig::new("/work".to_string());
    assert_eq!(c.name, "");
    assert_eq!(c.path, "/work");
    assert_eq!(c.language, Language::Java);
    assert_eq!(c.project_type, ProjectType::SpringBoot);
    assert_eq!(c.vcs, Vcs::NotNeed);
}

#[test]
fn vcs_and_editor_executables() {
    assert_eq!(Vcs::Git.exe(), "git");
    assert_eq!(Vcs::NotNeed.exe(), "");
    assert_eq!(project_setup::editor::Editor::VSCode.exe(), "code");
}
