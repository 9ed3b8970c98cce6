use console_core::command::parse_command;
use console_core::command::Command;

#[test]
fn parses_help() {
    assert_eq!(parse_command(b"help"), Command::Help);
}

#[test]
fn parses_hi() {
    assert_eq!(parse_command(b"hi"), Command::Hi);
}

#[test]
fn parses_pony_and_abbreviation() {
    assert_eq!(parse_command(b"pony"), Command::Pony);
    assert_eq!(parse_command(b"p"), Command::Pony);
}

#[test]
fn parses_led_toggles() {
    assert_eq!(parse_command(b"-3"), Command::LedOff(3));
    assert_eq!(parse_command(b"+3"), Command::LedOn(3));
    assert_eq!(parse_command(b"-4"), Command::LedOff(4));
    assert_eq!(parse_command(b"+4"), Command::LedOn(4));
    assert_eq!(parse_command(b"-5"), Command::LedOff(5));
    assert_eq!(parse_command(b"+5"), Command::LedOn(5));
    assert_eq!(parse_command(b"-6"), Command::LedOff(6));
    assert_eq!(parse_command(b"+6"), Command::LedOn(6));
}

#[test]
fn rejects_out_of_range_leds() {
    assert_eq!(parse_command(b"-2"), Command::Unknown);
    assert_eq!(parse_command(b"+7"), Command::Unknown);
}

#[test]
fn parses_led_fun() {
    assert_eq!(parse_command(b"led-fun"), Command::LedFun);
}

#[test]
fn parses_panic() {
    assert_eq!(parse_command(b"panic"), Command::Panic);
}

#[test]
fn parses_interpreter_with_program() {
    assert_eq!(
        parse_command(b"b +[>"),
        Command::Brainfuck(b"+[>".to_vec())
    );
    assert_eq!(parse_command(b"b "), Command::Brainfuck(Vec::new()));
}

#[test]
fn interpreter_needs_its_space() {
    assert_eq!(parse_command(b"b"), Command::Unknown);
    assert_eq!(parse_command(b"bx"), Command::Unknown);
}

#[test]
fn empty_line_is_a_noop() {
    assert_eq!(parse_command(b""), Command::Empty);
}

#[test]
fn unknown_commands_are_reported() {
    assert_eq!(parse_command(b"hello"), Command::Unknown);
    assert_eq!(parse_command(b"ponyx"), Command::Unknown);
    assert_eq!(parse_command(b"HELP"), Command::Unknown);
}
