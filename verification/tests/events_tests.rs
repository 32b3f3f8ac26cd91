use input_dispatch::next_step;
use input_dispatch::FileToDelete;
use input_dispatch::KeyEvent;
use input_dispatch::KeyboardEvents;
use input_dispatch::Mode;
use input_dispatch::Op;

#[test]
fn events_come_out_once_and_in_order() {
    let mut source = KeyboardEvents::new(vec![
        KeyEvent::Char('l'),
        KeyEvent::Char('h'),
        KeyEvent::Esc,
    ]);
    assert_eq!(source.next(), Some(KeyEvent::Char('l')));
    assert_eq!(source.next(), Some(KeyEvent::Char('h')));
    assert_eq!(source.next(), Some(KeyEvent::Esc));
    assert_eq!(source.next(), None);
    // Exhaustion is terminal: the source never restarts or replays.
    assert_eq!(source.next(), None);
    assert_eq!(source.next(), None);
}

#[test]
fn empty_source_is_exhausted_at_once() {
    let mut source = KeyboardEvents::new(vec![]);
    assert_eq!(source.next(), None);
    assert_eq!(source.next(), None);
}

#[test]
fn end_of_input_stops_dispatch() {
    // Once the source signals termination, no step dispatches anything.
    for mode in [
        Mode::Loading,
        Mode::Normal,
        Mode::ErrorMessage,
        Mode::ScreenTooSmall,
        Mode::Exiting,
        Mode::WarningMessage,
    ] {
        assert_eq!(next_step(mode, None, None), None);
    }
    let held = FileToDelete {
        path: String::from("/home/user/big_file"),
    };
    assert_eq!(next_step(Mode::DeleteFileConfirm, None, Some(held)), None);
}

#[test]
fn a_whole_input_session() {
    // Drain a scripted source through the dispatcher, as the input loop does.
    let mut source = KeyboardEvents::new(vec![
        KeyEvent::Char('l'),
        KeyEvent::Char('x'),
        KeyEvent::Char('q'),
    ]);
    let mut invoked: Vec<Op> = Vec::new();
    let mut steps: usize = 0;
    loop {
        match next_step(Mode::Normal, source.next(), None) {
            Some(ops) => {
                steps += 1;
                invoked.extend(ops);
            }
            None => break,
        }
    }
    // One step per event — the unmapped 'x' dispatched too, to no operation —
    // and nothing after end of input.
    assert_eq!(steps, 3);
    assert_eq!(invoked, vec![Op::MoveSelectedRight, Op::PromptExit]);
}
