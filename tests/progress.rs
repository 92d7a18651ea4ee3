use netzero::progress::{ProgressBar, ProgressError, TextBar};
use netzero::protocol::ProgressMessage;

fn set_max(max: usize) -> ProgressMessage {
    ProgressMessage::SetMax { max, status: None }
}

fn set_progress(progress: usize) -> ProgressMessage {
    ProgressMessage::SetProgress { progress, status: None }
}

#[test]
fn a_new_bar_is_empty() {
    let b = TextBar::new("meter".to_string());
    assert_eq!(b.name(), "meter");
    assert_eq!(b.progress(), 0);
    assert_eq!(b.max(), 0);
    assert_eq!(b.status(), "");
}

#[test]
fn counts_follow_the_last_messages() {
    let mut b = TextBar::new("meter".to_string());
    for m in [set_max(10), set_progress(3), set_max(20), set_progress(9)] {
        assert!(b.handle_message(m).is_ok());
    }
    assert_eq!((b.progress(), b.max()), (9, 20));
    let _ = b.handle_message(ProgressMessage::SetStatus { status: "working".to_string() });
    assert_eq!((b.progress(), b.max()), (9, 20));
    assert_eq!(b.status(), "working");
}

#[test]
fn status_changes_only_when_given() {
    let mut b = TextBar::new("m".to_string());
    let _ = b.handle_message(ProgressMessage::SetMax { max: 4, status: Some("start".to_string()) });
    assert_eq!(b.status(), "start");
    let _ = b.handle_message(set_progress(1));
    assert_eq!(b.status(), "start");
    let _ = b.handle_message(ProgressMessage::SetProgress { progress: 2, status: Some("half".to_string()) });
    assert_eq!(b.status(), "half");
}

#[test]
fn reset_restores_the_initial_state() {
    let mut b = TextBar::new("meter".to_string());
    let _ = b.handle_message(ProgressMessage::SetMax { max: 8, status: Some("x".to_string()) });
    let _ = b.handle_message(set_progress(5));
    let _ = b.handle_message(ProgressMessage::Reset);
    assert_eq!((b.progress(), b.max(), b.status().as_str()), (0, 0, ""));
    assert_eq!(b.name(), "meter");
    let _ = b.handle_message(set_progress(2));
    assert_eq!((b.progress(), b.max()), (2, 0));
}

#[test]
fn a_complete_bar_has_no_blank_cell() {
    let mut b = TextBar::new("a".to_string());
    let _ = b.handle_message(set_max(10));
    let _ = b.handle_message(set_progress(10));
    let line = b.render(1, 12, 0);
    assert_eq!(line, format!("a [{}] ", "=".repeat(10)));
}

#[test]
fn a_bar_without_maximum_is_empty() {
    let mut b = TextBar::new("a".to_string());
    let _ = b.handle_message(set_progress(7));
    assert_eq!(b.render(1, 12, 0), format!("a [{}] ", " ".repeat(10)));
    let fresh = TextBar::new("a".to_string());
    assert_eq!(fresh.render(1, 2, 0), "a [] ");
}

#[test]
fn filled_cells_round_to_nearest() {
    let mut b = TextBar::new("x".to_string());
    let _ = b.handle_message(set_max(3));
    let _ = b.handle_message(set_progress(1));
    // 10 cells * 1/3 = 3.33
    assert_eq!(b.render(1, 12, 0), "x [===       ] ");
    let _ = b.handle_message(set_progress(2));
    // 10 cells * 2/3 = 6.67
    assert_eq!(b.render(1, 12, 0), "x [=======   ] ");
    let _ = b.handle_message(set_max(4));
    let _ = b.handle_message(set_progress(1));
    // 10 cells * 1/4 = 2.5, halves round up
    assert_eq!(b.render(1, 12, 0), "x [===       ] ");
}

#[test]
fn progress_beyond_maximum_is_clamped() {
    let mut b = TextBar::new("x".to_string());
    let _ = b.handle_message(set_max(4));
    let _ = b.handle_message(set_progress(40));
    assert_eq!(b.render(1, 6, 0), "x [====] ");
}

#[test]
fn huge_counts_render_without_overflow() {
    let mut b = TextBar::new("x".to_string());
    let _ = b.handle_message(set_max(usize::MAX));
    let _ = b.handle_message(set_progress(usize::MAX / 2));
    assert_eq!(b.render(1, 6, 0), "x [==  ] ");
}

#[test]
fn name_and_status_are_padded() {
    let mut b = TextBar::new("gas".to_string());
    let _ = b.handle_message(ProgressMessage::SetStatus { status: "ok".to_string() });
    assert_eq!(b.render(6, 4, 5), "   gas [  ] ok   ");
    let long = TextBar::new("electricity".to_string());
    assert_eq!(long.render(4, 2, 0), "electricity [] ");
}

#[test]
fn rendering_twice_gives_the_same_text() {
    let mut b = TextBar::new("solar".to_string());
    let _ = b.handle_message(ProgressMessage::SetMax { max: 7, status: Some("day 3".to_string()) });
    let _ = b.handle_message(set_progress(3));
    let first = b.render(8, 30, 10);
    let second = b.render(8, 30, 10);
    assert_eq!(first, second);
    assert_eq!(first.chars().count(), 8 + 1 + 30 + 1 + 10);
}

#[test]
fn progress_errors_describe_themselves() {
    assert_eq!(
        ProgressError::CommunicationError.describe(),
        "Failed to communicate with progress bar"
    );
    assert_eq!(
        ProgressError::DuplicateName.describe(),
        "A progress bar of that name already exists"
    );
}

#[test]
fn every_message_succeeds_on_a_text_bar() {
    let mut b = TextBar::new("m".to_string());
    assert_eq!(b.handle_message(ProgressMessage::SetMax { max: 2, status: Some("s".to_string()) }), Ok(()));
    assert_eq!(b.handle_message(ProgressMessage::SetProgress { progress: 9, status: Some("t".to_string()) }), Ok(()));
    assert_eq!((b.progress(), b.max(), b.status().as_str()), (9, 2, "t"));
    assert_eq!(b.handle_message(ProgressMessage::SetStatus { status: "u".to_string() }), Ok(()));
    assert_eq!(b.handle_message(ProgressMessage::Reset), Ok(()));
    assert_eq!((b.progress(), b.max(), b.status().as_str()), (0, 0, ""));
    assert_eq!(b.set_max(4), Ok(()));
    assert_eq!(b.set_progress(5), Ok(()));
    assert_eq!(b.set_status("v".to_string()), Ok(()));
    assert_eq!((b.progress(), b.max(), b.status().as_str()), (5, 4, "v"));
    assert_eq!(b.reset(), Ok(()));
    assert_eq!(b.flush(), Ok(()));
    assert_eq!((b.progress(), b.max(), b.status().as_str(), b.name().as_str()), (0, 0, "", "m"));
}
