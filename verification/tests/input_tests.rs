use termsession::input::InputBuffer;

#[test]
fn new_buffer_is_empty() {
    let buffer = InputBuffer::new();
    assert_eq!(buffer.len(), 0);
    assert_eq!(buffer.offset(), 0);
    assert_eq!(buffer.current_line(), "");
    assert!(!buffer.command_mode());
}

#[test]
fn push_appends_and_advances_the_cursor() {
    let mut buffer = InputBuffer::new();
    buffer.push('h');
    buffer.push('i');
    assert_eq!(buffer.current_line(), "hi");
    assert_eq!(buffer.len(), 2);
    assert_eq!(buffer.offset(), 2);
}

#[test]
fn pop_removes_the_last_character() {
    let mut buffer = InputBuffer::new();
    buffer.push('a');
    buffer.push('b');
    buffer.push('c');
    buffer.pop();
    assert_eq!(buffer.current_line(), "ab");
    assert_eq!(buffer.len(), 2);
    assert_eq!(buffer.offset(), 2);
}

#[test]
fn backspace_on_an_empty_buffer_is_a_no_op() {
    let mut buffer = InputBuffer::new();
    buffer.pop();
    assert_eq!(buffer.len(), 0);
    assert_eq!(buffer.offset(), 0);
    buffer.pop();
    buffer.pop();
    assert_eq!(buffer.len(), 0);
    assert_eq!(buffer.offset(), 0);
    assert_eq!(buffer.current_line(), "");
}

#[test]
fn pop_down_to_empty_and_beyond() {
    let mut buffer = InputBuffer::new();
    buffer.push('x');
    buffer.pop();
    assert_eq!(buffer.len(), 0);
    assert_eq!(buffer.offset(), 0);
    buffer.pop();
    assert_eq!(buffer.len(), 0);
    assert_eq!(buffer.offset(), 0);
    buffer.push('y');
    assert_eq!(buffer.current_line(), "y");
    assert_eq!(buffer.offset(), 1);
}

#[test]
fn clear_empties_the_line_and_resets_the_cursor() {
    let mut buffer = InputBuffer::new();
    for c in "some text".chars() {
        buffer.push(c);
    }
    buffer.clear();
    assert_eq!(buffer.len(), 0);
    assert_eq!(buffer.offset(), 0);
    assert_eq!(buffer.current_line(), "");
    buffer.push('z');
    assert_eq!(buffer.current_line(), "z");
    assert_eq!(buffer.offset(), 1);
}

#[test]
fn command_mode_is_a_leading_slash() {
    let mut buffer = InputBuffer::new();
    buffer.push('/');
    assert!(buffer.command_mode());
    buffer.push('h');
    assert!(buffer.command_mode());
    buffer.clear();
    assert!(!buffer.command_mode());
    buffer.push('h');
    buffer.push('/');
    assert!(!buffer.command_mode());
}

#[test]
fn current_line_keeps_every_character() {
    let mut buffer = InputBuffer::new();
    let text = "na\u{ef}ve \u{65e5}\u{672c} \u{1f600}\n!";
    for c in text.chars() {
        buffer.push(c);
    }
    assert_eq!(buffer.current_line(), text);
    assert_eq!(buffer.len(), text.chars().count());
    assert_eq!(buffer.offset(), text.chars().count());
}
