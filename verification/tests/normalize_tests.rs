use input_dispatch::normalize;
use input_dispatch::Chord;
use input_dispatch::KeyEvent;

#[test]
fn quit_synonyms() {
    assert_eq!(normalize(KeyEvent::Ctrl('c')), Chord::Quit);
    assert_eq!(normalize(KeyEvent::Char('q')), Chord::Quit);
}

#[test]
fn move_right_synonyms() {
    assert_eq!(normalize(KeyEvent::Char('l')), Chord::MoveRight);
    assert_eq!(normalize(KeyEvent::Right), Chord::MoveRight);
    assert_eq!(normalize(KeyEvent::Ctrl('f')), Chord::MoveRight);
}

#[test]
fn move_left_synonyms() {
    assert_eq!(normalize(KeyEvent::Char('h')), Chord::MoveLeft);
    assert_eq!(normalize(KeyEvent::Left), Chord::MoveLeft);
    assert_eq!(normalize(KeyEvent::Ctrl('b')), Chord::MoveLeft);
}

#[test]
fn move_down_synonyms() {
    assert_eq!(normalize(KeyEvent::Char('j')), Chord::MoveDown);
    assert_eq!(normalize(KeyEvent::Down), Chord::MoveDown);
    assert_eq!(normalize(KeyEvent::Ctrl('n')), Chord::MoveDown);
}

#[test]
fn move_up_synonyms() {
    assert_eq!(normalize(KeyEvent::Char('k')), Chord::MoveUp);
    assert_eq!(normalize(KeyEvent::Up), Chord::MoveUp);
    assert_eq!(normalize(KeyEvent::Ctrl('p')), Chord::MoveUp);
}

#[test]
fn single_member_groups() {
    assert_eq!(normalize(KeyEvent::Char('+')), Chord::ZoomIn);
    assert_eq!(normalize(KeyEvent::Char('-')), Chord::ZoomOut);
    assert_eq!(normalize(KeyEvent::Char('0')), Chord::ResetZoom);
    assert_eq!(normalize(KeyEvent::Char('\n')), Chord::Confirm);
    assert_eq!(normalize(KeyEvent::Esc), Chord::Cancel);
    assert_eq!(normalize(KeyEvent::Backspace), Chord::DeleteRequest);
    assert_eq!(normalize(KeyEvent::Char('y')), Chord::Affirmative);
    assert_eq!(normalize(KeyEvent::Char('n')), Chord::Negative);
}

#[test]
fn plain_letters_are_not_control_synonyms() {
    // Only Ctrl-c quits; a plain 'c' is its own chord. Same for the other
    // control combinations.
    assert_eq!(
        normalize(KeyEvent::Char('c')),
        Chord::Unrecognized(KeyEvent::Char('c'))
    );
    assert_eq!(
        normalize(KeyEvent::Char('f')),
        Chord::Unrecognized(KeyEvent::Char('f'))
    );
    // And Ctrl-q is not a quit synonym either.
    assert_eq!(
        normalize(KeyEvent::Ctrl('q')),
        Chord::Unrecognized(KeyEvent::Ctrl('q'))
    );
}

#[test]
fn unrecognized_events_keep_their_identity() {
    assert_eq!(
        normalize(KeyEvent::Char('x')),
        Chord::Unrecognized(KeyEvent::Char('x'))
    );
    assert_ne!(
        normalize(KeyEvent::Char('x')),
        normalize(KeyEvent::Char('z'))
    );
}

#[test]
fn normalization_is_stable() {
    // The same raw input always denotes the same chord.
    assert_eq!(
        normalize(KeyEvent::Ctrl('c')),
        normalize(KeyEvent::Ctrl('c'))
    );
}
