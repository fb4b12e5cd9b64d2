use taskmaster::command::{CommandError, CommandUser};
use taskmaster::command_line::{read_command, LineError};
use taskmaster::text::{decimal_text, natural_text, push_decimal, push_natural, same_text};

#[test]
fn naturals_in_decimal() {
    assert_eq!(natural_text(0), "0");
    assert_eq!(natural_text(7), "7");
    assert_eq!(natural_text(10), "10");
    assert_eq!(natural_text(1234567890), "1234567890");
    assert_eq!(natural_text(u64::MAX), "18446744073709551615");
}

#[test]
fn integers_in_decimal() {
    assert_eq!(decimal_text(0), "0");
    assert_eq!(decimal_text(-1), "-1");
    assert_eq!(decimal_text(105), "105");
    assert_eq!(decimal_text(-9000), "-9000");
    assert_eq!(decimal_text(i64::MAX), "9223372036854775807");
    assert_eq!(decimal_text(i64::MIN), "-9223372036854775808");
}

#[test]
fn numbers_are_appended() {
    let mut s = "n=".to_string();
    push_natural(&mut s, 42);
    s.push(',');
    push_decimal(&mut s, -42);
    assert_eq!(s, "n=42,-42");
}

#[test]
fn texts_are_compared_by_their_characters() {
    assert!(same_text("", ""));
    assert!(same_text("kill", "kill"));
    assert!(!same_text("kill", "kilL"));
    assert!(!same_text("kill", "kil"));
    assert!(!same_text("kil", "kill"));
    assert!(same_text("é", "é"));
    assert!(!same_text("é", "e"));
}

#[test]
fn lines_without_a_command() {
    assert_eq!(read_command(""), Ok(None));
    assert_eq!(read_command("   "), Ok(None));
    assert_eq!(read_command("\n"), Ok(None));
    assert_eq!(read_command(" \t\r\n"), Ok(None));
    assert_eq!(read_command("\u{a0}\u{3000}"), Ok(None));
}

#[test]
fn lines_with_a_verb_alone() {
    assert_eq!(read_command("list\n"), Ok(Some(CommandUser::List)));
    assert_eq!(read_command("  exit  "), Ok(Some(CommandUser::Exit)));
    assert_eq!(read_command("help"), Ok(Some(CommandUser::Help)));
    assert_eq!(read_command("kill\n"), Err(LineError::Command(CommandError::MissingParams)));
    assert_eq!(read_command("frobnicate\n"), Err(LineError::Command(CommandError::UnknownCommand)));
}

#[test]
fn lines_with_a_verb_and_a_number() {
    assert_eq!(read_command("kill 0\n"), Ok(Some(CommandUser::Kill(0))));
    assert_eq!(read_command("status\t12"), Ok(Some(CommandUser::Status(12))));
    assert_eq!(read_command("  launch   007  "), Ok(Some(CommandUser::Launch(7))));
    assert_eq!(read_command("restart +3"), Ok(Some(CommandUser::Restart(3))));
    assert_eq!(read_command("status 4294967295"), Ok(Some(CommandUser::Status(u32::MAX))));
    assert_eq!(read_command("list 5"), Ok(Some(CommandUser::List)));
    assert_eq!(read_command("kill 1 2 3"), Ok(Some(CommandUser::Kill(1))));
    assert_eq!(read_command("kill 1 x"), Ok(Some(CommandUser::Kill(1))));
    assert_eq!(read_command("kill\u{2003}1"), Ok(Some(CommandUser::Kill(1))));
    assert_eq!(read_command("frobnicate 1"), Err(LineError::Command(CommandError::UnknownCommand)));
}

#[test]
fn lines_with_a_bad_number() {
    for line in [
        "kill x",
        "kill -1",
        "kill 1.5",
        "kill +",
        "kill ++1",
        "kill 4294967296",
        "kill 99999999999999999999999",
        "kill 1x",
        "kill 0x10",
        "list x",
        "frobnicate x",
        "kill ٣",
    ] {
        assert_eq!(read_command(line), Err(LineError::InvalidNumber), "{}", line);
    }
}

#[test]
fn lines_read_as_the_standard_library_reads_them() {
    for line in ["kill 12", " status  +0 ", "launch 4294967295", "launch 4294967296", "x y", "restart 08", ""] {
        let mut tokens = line.split_whitespace();
        let expected = match tokens.next() {
            None => Ok(None),
            Some(verb) => match tokens.next().map(|t| t.parse::<u32>()) {
                Some(Err(_)) => Err(LineError::InvalidNumber),
                Some(Ok(n)) => CommandUser::try_from((verb, Some(n))).map(Some).map_err(LineError::Command),
                None => CommandUser::try_from((verb, None)).map(Some).map_err(LineError::Command),
            },
        };
        assert_eq!(read_command(line), expected, "{:?}", line);
    }
}
