use project_setup::editor::Editor;
use project_setup::features::{preferred_unzip_tool, UnzipTool};
use project_setup::features::{preferred_download_tool, DownloadTool};
use project_setup::radio::{RadioOption, RadioOptionValue};
use project_setup::tools::{Executable, ToolAvailability};
use project_setup::vcs::Vcs;

fn probes(entries: &[(&str, bool)]) -> ToolAvailability {
    let mut t = ToolAvailability::new();
    for (name, ok) in entries {
        t.record((*name).to_string(), *ok);
    }
    t
}

#[test]
fn lookup_defaults_to_unavailable() {
    let t = probes(&[("git", true), ("svn", false)]);
    assert!(Executable::executable(&t, &"git".to_string()));
    assert!(!Executable::executable(&t, &"svn".to_string()));
    assert!(!Executable::executable(&t, &"vim".to_string()));
}

#[test]
fn later_probe_overrides_earlier() {
    let t = probes(&[("git", false), ("git", true)]);
    assert!(Executable::executable(&t, &"git".to_string()));
}

#[test]
fn editor_not_need_is_always_selectable() {
    let t = probes(&[]);
    assert!(Editor::NotNeed.selectable(&t));
    assert!(!Editor::Vim.selectable(&t));
}

#[test]
fn editor_options_follow_probes() {
    let t = probes(&[("vim", true), ("code", false)]);
    let r: RadioOption<Editor> = RadioOption::default_for(&t);
    assert_eq!(r.length(), 2);
    assert_eq!(r.value, Editor::NotNeed);
    assert_eq!(r.id, 0);
    assert_eq!(r.options, vec![Editor::NotNeed, Editor::Vim]);
}

#[test]
fn cursor_stays_below_length() {
    let t = probes(&[("git", true), ("svn", true)]);
    let mut r: RadioOption<Vcs> = RadioOption::default_for(&t);
    for _ in 0..7 {
        assert!(r.id < r.length());
        r.next();
    }
    for _ in 0..7 {
        assert!(r.id < r.length());
        r.prev();
    }
    assert_eq!(r.value, Vcs::NotNeed);
}

#[test]
fn radio_cycles_through_selectable_values() {
    let t = probes(&[("git", true)]);
    let mut r: RadioOption<Vcs> = RadioOption::default_for(&t);
    assert_eq!(r.length(), 2);
    assert_eq!(r.value, Vcs::NotNeed);
    r.next();
    assert_eq!(r.value, Vcs::Git);
    r.next();
    assert_eq!(r.value, Vcs::NotNeed);
    r.prev();
    assert_eq!(r.value, Vcs::Git);
}

#[test]
fn filtered_default_falls_back_to_first_selectable() {
    let t = probes(&[("wget", true)]);
    let mut r: RadioOption<DownloadTool> = RadioOption::default_for(&t);
    assert_eq!(r.value, DownloadTool::Wget);
    assert_eq!(r.length(), 1);
    r.next();
    assert_eq!(r.value, DownloadTool::Wget);
    r.prev();
    assert_eq!(r.value, DownloadTool::Wget);
}

#[test]
fn preferred_download_tool_prefers_the_default() {
    let both = probes(&[("curl", true), ("wget", true)]);
    assert_eq!(preferred_download_tool(&both), Some(DownloadTool::Curl));
    let wget_only = probes(&[("wget", true)]);
    assert_eq!(preferred_download_tool(&wget_only), Some(DownloadTool::Wget));
    let none = probes(&[("curl", false)]);
    assert_eq!(preferred_download_tool(&none), None);
}

#[test]
fn symbols_mark_the_cursor() {
    let t = probes(&[]);
    let r: RadioOption<project_setup::springboot::Generator> = RadioOption::default_for(&t);
    assert_eq!(r.get_symbol(0), "◉ Maven");
    assert_eq!(r.get_symbol(1), "○ Gradle");
}

#[test]
fn preferred_unzip_tool_follows_the_order() {
    let all = probes(&[("unzip", true), ("7z", true), ("tar", true)]);
    assert_eq!(preferred_unzip_tool(&all), Some(UnzipTool::Unzip));
    let seven = probes(&[("7z", true), ("tar", true)]);
    assert_eq!(preferred_unzip_tool(&seven), Some(UnzipTool::SevenZ));
    let tar_only = probes(&[("tar", true)]);
    assert_eq!(preferred_unzip_tool(&tar_only), Some(UnzipTool::Tar));
    assert_eq!(preferred_unzip_tool(&probes(&[])), None);
}
