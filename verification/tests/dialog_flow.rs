use tomato_core::dialog::{insert_line_breaks, update_dialog, DialogState};
use tomato_core::player::{PlayerState, PlayerStateMachine};

fn talking_player() -> PlayerState {
    let mut p = PlayerState::new(0, 0);
    p.state = PlayerStateMachine::Talking;
    p.wants_to_interact = true;
    p
}

#[test]
fn an_empty_screen_pulls_the_next_text_in() {
    let mut d = DialogState::new();
    d.texts = vec![String::from("first"), String::from("second")];
    let mut p = talking_player();
    let wrapped = update_dialog(&mut d, &mut p, false, false);
    assert!(wrapped);
    assert_eq!(d.text, "first");
    assert_eq!(d.texts, vec![String::from("second")]);
    assert!(!d.finished);
    assert!(d.show);
    assert_eq!(p.state, PlayerStateMachine::Talking);
}

#[test]
fn skip_reveals_the_whole_text() {
    let mut d = DialogState::new();
    d.text = String::from("first");
    let mut p = talking_player();
    let wrapped = update_dialog(&mut d, &mut p, false, true);
    assert!(!wrapped);
    assert_eq!(d.current_char, 999);
    assert!(d.finished);
}

#[test]
fn continue_advances_to_the_next_text() {
    let mut d = DialogState::new();
    d.text = String::from("first");
    d.texts = vec![String::from("second")];
    d.finished = true;
    let mut p = talking_player();
    let wrapped = update_dialog(&mut d, &mut p, true, false);
    assert!(wrapped);
    assert_eq!(d.text, "second");
    assert!(d.texts.is_empty());
    assert_eq!(d.current_char, 0);
    assert!(!d.finished);
    assert_eq!(p.state, PlayerStateMachine::Talking);
}

#[test]
fn continue_on_the_last_text_closes_and_frees_the_player() {
    let mut d = DialogState::new();
    d.text = String::from("last");
    d.finished = true;
    let mut p = talking_player();
    let wrapped = update_dialog(&mut d, &mut p, true, false);
    assert!(!wrapped);
    assert!(!d.show);
    assert!(d.text.is_empty());
    assert_eq!(d.current_char, 0);
    assert_eq!(p.state, PlayerStateMachine::Idling);
    assert!(!p.wants_to_interact);
}

#[test]
fn continue_does_nothing_while_text_still_reveals() {
    let mut d = DialogState::new();
    d.text = String::from("still going");
    d.current_char = 3;
    let mut p = talking_player();
    let wrapped = update_dialog(&mut d, &mut p, true, false);
    assert!(!wrapped);
    assert_eq!(d.text, "still going");
    assert_eq!(d.current_char, 3);
    assert!(d.show);
    assert_eq!(p.state, PlayerStateMachine::Talking);
}

#[test]
fn skip_and_continue_in_one_frame_close_the_last_text() {
    let mut d = DialogState::new();
    d.text = String::from("last");
    let mut p = talking_player();
    update_dialog(&mut d, &mut p, true, true);
    assert!(!d.show);
    assert_eq!(p.state, PlayerStateMachine::Idling);
}

#[test]
fn line_breaks_replace_the_measured_places() {
    let chars: Vec<char> = "hello world".chars().collect();
    let out = insert_line_breaks(&chars, &vec![5]);
    let s: String = out.into_iter().collect();
    assert_eq!(s, "hello\nworld");
}

#[test]
fn line_breaks_beyond_the_end_change_nothing() {
    let chars: Vec<char> = "abc".chars().collect();
    let out = insert_line_breaks(&chars, &vec![7]);
    let s: String = out.into_iter().collect();
    assert_eq!(s, "abc");
}
