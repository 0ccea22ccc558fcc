use project_setup::direction::AppDirection;
use project_setup::project_type::ProjectType;
use project_setup::loop_number::{InvalidLength, LoopNumber};
use project_setup::controller::{InnerCommonState, InnerHandleKeyEventOutput};
use project_setup::packaging::ProjectPackaging;
use project_setup::springboot::Generator;
use project_setup::vcs::Vcs;
use project_setup::{LoopableNumbered, LoopableNumberedEnum};

#[test]
fn test_numbered_enum_extra_method() {
    assert_eq!(LoopableNumbered::One.next(), LoopableNumbered::Two);
    assert_eq!(LoopableNumbered::One.prev(), LoopableNumbered::Three);
}

#[test]
fn loop_number_rejects_zero_length() {
    assert_eq!(LoopNumber::new(0), Err(InvalidLength));
}

#[test]
fn loop_number_starts_at_zero() {
    let c = LoopNumber::new(5).unwrap();
    assert_eq!(c.value, 0);
    assert_eq!(c.length, 5);
}

#[test]
fn loop_number_full_cycle_returns_to_zero() {
    let mut c = LoopNumber::new(5).unwrap();
    for _ in 0..5 {
        c = c.next();
    }
    assert_eq!(c.value, 0);
}

#[test]
fn loop_number_prev_undoes_next() {
    let c = LoopNumber::new(7).unwrap();
    let stepped = c.next().next().next();
    assert_eq!(stepped.prev().value, 2);
    assert_eq!(stepped.next().prev().value, stepped.value);
}

#[test]
fn loop_number_wraps_at_both_ends() {
    let c = LoopNumber::new(4).unwrap();
    assert_eq!(c.prev().value, 3);
    let mut d = c;
    for _ in 0..3 {
        d = d.next();
    }
    assert_eq!(d.value, 3);
    assert_eq!(d.next().value, 0);
}

#[test]
fn counter_steps_in_both_directions() {
    assert_eq!(AppDirection::Next.get_counter(Some(0), 3), 1);
    assert_eq!(AppDirection::Next.get_counter(Some(2), 3), 0);
    assert_eq!(AppDirection::Prev.get_counter(Some(0), 3), 2);
    assert_eq!(AppDirection::Prev.get_counter(Some(2), 3), 1);
    assert_eq!(AppDirection::Next.get_counter(None, 3), 0);
    assert_eq!(AppDirection::Prev.get_counter(None, 3), 0);
}

#[test]
fn numbered_enum_indices_cycle() {
    assert_eq!(ProjectType::SpringBoot.next_index(), 1);
    assert_eq!(ProjectType::Cargo.next_index(), 0);
    assert_eq!(ProjectType::SpringBoot.prev_index(), 3);
    assert_eq!(ProjectType::Cargo.num(), 3);
    assert_eq!(ProjectType::SpringBoot.prev(), ProjectType::Cargo);
    assert_eq!(ProjectType::Cargo.next(), ProjectType::SpringBoot);
}

#[test]
fn vcs_and_generator_cycles() {
    assert_eq!(Vcs::Svn.next(), Vcs::NotNeed);
    assert_eq!(Vcs::NotNeed.prev(), Vcs::Svn);
    assert_eq!(Generator::Maven.next(), Generator::Gradle);
    assert_eq!(Generator::Gradle.next(), Generator::Maven);
    assert_eq!(ProjectPackaging::NotNeed.prev(), ProjectPackaging::Ubuntu);
}

#[test]
fn output_markers_compose() {
    let out = InnerHandleKeyEventOutput::default();
    assert!(!out.exit);
    assert!(!out.esc_handled);
    let exited = out.with_exited();
    assert!(exited.exit);
    assert!(!exited.esc_handled);
    let both = exited.with_esc_handled();
    assert!(both.exit);
    assert!(both.esc_handled);
}

#[test]
fn fresh_state_spans_the_fields() {
    let s = InnerCommonState::new(4);
    assert_eq!(s.focus_index.value, 0);
    assert_eq!(s.focus_index.length, 4);
    assert_eq!(s.error_messages, vec!["", "", "", ""]);
}
