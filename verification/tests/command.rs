use hecto::command::{Direction, EditorCommand, InputEvent, KeyCode, KeyPhase, TranslateError};
use hecto::terminal::Size;

fn press(code: KeyCode, ctrl: bool) -> InputEvent {
    InputEvent::Key { code, ctrl, phase: KeyPhase::Press }
}

#[test]
fn ctrl_q_press_quits() {
    let command = EditorCommand::try_from_event(press(KeyCode::Char('q'), true));
    assert_eq!(command, Ok(EditorCommand::Quit));
}

#[test]
fn plain_q_is_not_a_command() {
    let command = EditorCommand::try_from_event(press(KeyCode::Char('q'), false));
    assert_eq!(command, Err(TranslateError));
}

#[test]
fn navigation_keys_translate_to_moves() {
    let cases = [
        (KeyCode::Up, Direction::Up),
        (KeyCode::Down, Direction::Down),
        (KeyCode::Left, Direction::Left),
        (KeyCode::Right, Direction::Right),
        (KeyCode::PageUp, Direction::PageUp),
        (KeyCode::PageDown, Direction::PageDown),
        (KeyCode::Home, Direction::Home),
        (KeyCode::End, Direction::End),
    ];
    for (code, direction) in cases {
        let command = EditorCommand::try_from_event(press(code, false));
        assert_eq!(command, Ok(EditorCommand::Move(direction)));
        let with_ctrl = EditorCommand::try_from_event(press(code, true));
        assert_eq!(with_ctrl, Ok(EditorCommand::Move(direction)));
    }
}

#[test]
fn resize_notification_translates_to_resize() {
    let size = Size { height: 17, width: 80 };
    let command = EditorCommand::try_from_event(InputEvent::Resize(size));
    assert_eq!(command, Ok(EditorCommand::Resize(size)));
}

#[test]
fn unrecognized_key_press_is_an_error() {
    assert_eq!(
        EditorCommand::try_from_event(press(KeyCode::Char('a'), false)),
        Err(TranslateError)
    );
    assert_eq!(
        EditorCommand::try_from_event(press(KeyCode::Other, true)),
        Err(TranslateError)
    );
}

#[test]
fn non_press_phases_do_not_translate() {
    for phase in [KeyPhase::Repeat, KeyPhase::Release] {
        let event = InputEvent::Key { code: KeyCode::Up, ctrl: false, phase };
        assert_eq!(EditorCommand::try_from_event(event), Err(TranslateError));
    }
}
