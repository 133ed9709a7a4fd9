use readln::console::{console_key, LEFT_CTRL_PRESSED, VK_BACK, VK_LEFT, VK_RETURN, VK_RIGHT, VK_UP, VK_W};
use readln::{parse_esc_seq, read_key, Key};

#[test]
fn escape_bracket_c_is_arrow_right() {
    assert_eq!(read_key(&[27, b'[', b'C']), Some((Key::ArrowRight, 3)));
}

#[test]
fn arrow_keys_decode() {
    assert_eq!(read_key(&[27, b'[', b'A']), Some((Key::ArrowUp, 3)));
    assert_eq!(read_key(&[27, b'[', b'B']), Some((Key::ArrowDown, 3)));
    assert_eq!(read_key(&[27, b'[', b'D']), Some((Key::ArrowLeft, 3)));
}

#[test]
fn ctrl_arrows_decode() {
    assert_eq!(read_key(b"\x1b[1;5C"), Some((Key::CtrlArrowRight, 6)));
    assert_eq!(read_key(b"\x1b[1;5D"), Some((Key::CtrlArrowLeft, 6)));
}

#[test]
fn truncated_escape_is_no_op_and_consumes_budget() {
    let input = [27, b'[', b'x', b'y', b'z', b'w', b'v', b'q'];
    assert_eq!(read_key(&input), Some((Key::NA, 7)));
    assert_eq!(parse_esc_seq(&input[1..]), Some((Key::NA, 6)));
}

#[test]
fn incomplete_escape_needs_more_bytes() {
    assert_eq!(read_key(&[]), None);
    assert_eq!(read_key(&[27]), None);
    assert_eq!(read_key(&[27, b'[']), None);
    assert_eq!(read_key(b"\x1b[1;5"), None);
    assert_eq!(parse_esc_seq(&[]), None);
}

#[test]
fn direct_bytes_decode() {
    assert_eq!(read_key(b"a"), Some((Key::Char('a'), 1)));
    assert_eq!(read_key(b" rest"), Some((Key::Char(' '), 1)));
    assert_eq!(read_key(&[10]), Some((Key::Enter, 1)));
    assert_eq!(read_key(&[127]), Some((Key::Backspace, 1)));
    assert_eq!(read_key(&[8]), Some((Key::CtrlBackspace, 1)));
    assert_eq!(read_key(&[23]), Some((Key::CtrlBackspace, 1)));
    assert_eq!(read_key(&[0]), Some((Key::NA, 1)));
    assert_eq!(read_key(&[31]), Some((Key::NA, 1)));
    assert_eq!(read_key(&[13]), Some((Key::NA, 1)));
}

#[test]
fn position_decides_a_match() {
    // Only the byte at a sequence's last index is compared.
    assert_eq!(read_key(&[27, b'x', b'C']), Some((Key::ArrowRight, 3)));
    assert_eq!(parse_esc_seq(&[b'[', b'A', b'B']), Some((Key::ArrowUp, 2)));
}

#[test]
fn console_keys_map() {
    assert_eq!(console_key(VK_RETURN, 0, 13), Key::Enter);
    assert_eq!(console_key(VK_BACK, 0, 8), Key::Backspace);
    assert_eq!(console_key(VK_BACK, LEFT_CTRL_PRESSED, 0), Key::CtrlBackspace);
    assert_eq!(console_key(VK_W, LEFT_CTRL_PRESSED, 23), Key::CtrlBackspace);
    assert_eq!(console_key(VK_W, 0, b'w'), Key::Char('w'));
    assert_eq!(console_key(VK_LEFT, LEFT_CTRL_PRESSED, 0), Key::CtrlArrowLeft);
    assert_eq!(console_key(VK_RIGHT, LEFT_CTRL_PRESSED, 0), Key::CtrlArrowRight);
    assert_eq!(console_key(VK_RIGHT, 0, 0), Key::ArrowRight);
    assert_eq!(console_key(VK_UP, 0, 0), Key::ArrowUp);
    assert_eq!(console_key(0x41, LEFT_CTRL_PRESSED, 1), Key::NA);
    assert_eq!(console_key(0x10, 0, 0), Key::NA);
}
