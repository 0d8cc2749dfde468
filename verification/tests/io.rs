use word_drill::io::{classify_confirm_key, EditStep, KeyEvent, LineEdit, Reply, IO};

#[test]
fn confirmation_ignores_unqualified_keys() {
    let mut io = IO::new();
    let keys = vec![
        KeyEvent::Character('x'),
        KeyEvent::Character('q'),
        KeyEvent::Character('y'),
    ];
    assert_eq!(io.request_confirmation("Start playing?", &keys), Reply::Yes);
}

#[test]
fn confirmation_negative() {
    let mut io = IO::new();
    let keys = vec![KeyEvent::Character('n')];
    assert_eq!(io.request_confirmation("Start playing?", &keys), Reply::No);
}

#[test]
fn confirmation_uppercase_and_noise() {
    let mut io = IO::new();
    let keys = vec![KeyEvent::Other, KeyEvent::Backspace, KeyEvent::Character('Y')];
    assert_eq!(io.request_confirmation("?", &keys), Reply::Yes);
    let keys = vec![KeyEvent::Enter, KeyEvent::Character('N')];
    assert_eq!(io.request_confirmation("?", &keys), Reply::No);
}

#[test]
fn confirmation_defaults_to_no_on_exhausted_stream() {
    let mut io = IO::new();
    assert_eq!(io.request_confirmation("?", &vec![]), Reply::No);
    let keys = vec![KeyEvent::Character('z'), KeyEvent::Other];
    assert_eq!(io.request_confirmation("?", &keys), Reply::No);
}

#[test]
fn line_input_edits_and_submits() {
    let mut io = IO::new();
    let keys = vec![
        KeyEvent::Character('c'),
        KeyEvent::Character('a'),
        KeyEvent::Character('t'),
        KeyEvent::Backspace,
        KeyEvent::Character('t'),
        KeyEvent::Enter,
    ];
    let input = io.request_user_input(Some("word - "), &keys);
    assert_eq!(input.0, "cat".to_owned());
}

#[test]
fn line_input_backspace_on_empty_buffer() {
    let mut io = IO::new();
    let keys = vec![KeyEvent::Backspace, KeyEvent::Character('x'), KeyEvent::Enter];
    let input = io.request_user_input(None, &keys);
    assert_eq!(input.0, "x".to_owned());
}

#[test]
fn line_input_on_exhausted_stream_keeps_the_buffer() {
    let mut io = IO::new();
    let keys = vec![KeyEvent::Character('h'), KeyEvent::Character('i')];
    let input = io.request_user_input(None, &keys);
    assert_eq!(input.0, "hi".to_owned());
}

#[test]
fn line_editor_steps() {
    let mut edit = LineEdit::new();
    assert_eq!(edit.apply(KeyEvent::Backspace), EditStep::Ignored);
    assert_eq!(edit.apply(KeyEvent::Character('a')), EditStep::Echoed('a'));
    assert_eq!(edit.apply(KeyEvent::Other), EditStep::Ignored);
    assert_eq!(edit.apply(KeyEvent::Backspace), EditStep::Erased);
    assert_eq!(edit.apply(KeyEvent::Enter), EditStep::Submitted);
    assert_eq!(edit.buffer, "".to_owned());
}

#[test]
fn classify_keys_for_confirmation() {
    assert_eq!(classify_confirm_key(&KeyEvent::Character('y')), Some(Reply::Yes));
    assert_eq!(classify_confirm_key(&KeyEvent::Character('N')), Some(Reply::No));
    assert_eq!(classify_confirm_key(&KeyEvent::Character('k')), None);
    assert_eq!(classify_confirm_key(&KeyEvent::Enter), None);
}

#[test]
fn cursor_bookkeeping() {
    let mut io = IO::new();
    assert_eq!((io.current_x, io.current_y), (1, 1));
    io.write_string("abc");
    assert_eq!((io.current_x, io.current_y), (4, 1));
    let pos = io.new_line();
    assert_eq!(pos, (1, 2));
    assert_eq!((io.current_x, io.current_y), (1, 2));
    let pos = io.put_string("hello");
    assert_eq!(pos, (1, 3));
    assert!(!io.move_cursor_left());
    io.write_string("x");
    assert!(io.move_cursor_left());
    assert_eq!((io.current_x, io.current_y), (1, 3));
    io.clear();
    assert_eq!((io.current_x, io.current_y), (1, 1));
}

#[test]
fn prompts_advance_the_row() {
    let mut io = IO::new();
    io.request_any_key();
    assert_eq!((io.current_x, io.current_y), (1, 2));
    io.request_confirmation("?", &vec![KeyEvent::Character('y')]);
    assert_eq!((io.current_x, io.current_y), (1, 4));
    io.request_user_input(Some("q - "), &vec![KeyEvent::Enter]);
    assert_eq!((io.current_x, io.current_y), (1, 5));
}
