use bluepill::terminal::{dma_echo_step, terminal_command, TerminalCommand};

#[test]
fn terminal_tilde_clears() {
    assert_eq!(terminal_command(b'~'), TerminalCommand::ClearDisplay);
}

#[test]
fn terminal_caret_toggles_led() {
    assert_eq!(terminal_command(b'^'), TerminalCommand::ToggleLed);
}

#[test]
fn terminal_other_bytes_print() {
    assert_eq!(terminal_command(b'H'), TerminalCommand::Print(b'H'));
    assert_eq!(terminal_command(b'\n'), TerminalCommand::Print(b'\n'));
    assert_eq!(terminal_command(0xe9), TerminalCommand::Print(0xe9));
}

#[test]
fn dma_echo_echoes_newest_byte() {
    assert_eq!(dma_echo_step(0, b"a"), (1, Some(b'a')));
    assert_eq!(dma_echo_step(1, b"ab"), (2, Some(b'b')));
    assert_eq!(dma_echo_step(1, b"abc"), (3, Some(b'c')));
}

#[test]
fn dma_echo_quiet_without_news() {
    assert_eq!(dma_echo_step(2, b"ab"), (2, None));
    assert_eq!(dma_echo_step(0, b""), (0, None));
    assert_eq!(dma_echo_step(5, b""), (0, None));
}
