use jimmer::args::{get_theme_from_args, parse_arguments, parse_command, wants_help, ArgError, Command};
use jimmer::text::{is_integer, parse_unsigned_decimal, same_text, strip_prefix};

fn argv(items: &[&str]) -> Vec<String> {
    items.iter().map(|s| s.to_string()).collect()
}

#[test]
fn minutes_and_seconds_accumulate() {
    assert_eq!(parse_arguments(&argv(&["jimmer", "--minute=1", "--second=30"])), Ok(90000));
}

#[test]
fn repeated_flags_add_up() {
    assert_eq!(parse_arguments(&argv(&["jimmer", "--second=30", "--second=45", "--minute=2"])), Ok(195_000));
}

#[test]
fn no_duration_flags_give_zero() {
    assert_eq!(parse_arguments(&argv(&["jimmer"])), Ok(0));
    assert_eq!(parse_arguments(&argv(&[])), Ok(0));
    assert_eq!(parse_arguments(&argv(&["jimmer", "--theme=3", "extra"])), Ok(0));
}

#[test]
fn program_name_is_not_read_for_duration() {
    assert_eq!(parse_arguments(&argv(&["--minute=5"])), Ok(0));
}

#[test]
fn bad_duration_value_is_rejected() {
    assert_eq!(parse_arguments(&argv(&["jimmer", "--minute=abc"])), Err(ArgError::InvalidNumber));
    assert_eq!(parse_arguments(&argv(&["jimmer", "--second="])), Err(ArgError::InvalidNumber));
    assert_eq!(parse_arguments(&argv(&["jimmer", "--second=-3"])), Err(ArgError::InvalidNumber));
    assert_eq!(parse_arguments(&argv(&["jimmer", "--second=1", "--minute=1.5"])), Err(ArgError::InvalidNumber));
}

#[test]
fn duration_overflow_is_rejected() {
    assert_eq!(parse_arguments(&argv(&["jimmer", "--minute=18446744073709551615"])), Err(ArgError::Overflow));
    assert_eq!(
        parse_arguments(&argv(&["jimmer", "--second=18446744073709551", "--second=1"])),
        Err(ArgError::Overflow)
    );
    assert_eq!(parse_arguments(&argv(&["jimmer", "--second=18446744073709551616"])), Err(ArgError::InvalidNumber));
}

#[test]
fn plus_sign_is_accepted() {
    assert_eq!(parse_arguments(&argv(&["jimmer", "--second=+7"])), Ok(7000));
    assert_eq!(parse_arguments(&argv(&["jimmer", "--second=+"])), Err(ArgError::InvalidNumber));
}

#[test]
fn theme_one_is_index_zero() {
    assert_eq!(get_theme_from_args(&argv(&["jimmer", "--theme=1"])), Ok(0));
}

#[test]
fn theme_ten_is_index_nine() {
    assert_eq!(get_theme_from_args(&argv(&["jimmer", "--theme=10"])), Ok(9));
}

#[test]
fn theme_out_of_range_or_absent_is_zero() {
    assert_eq!(get_theme_from_args(&argv(&["jimmer", "--theme=11"])), Ok(0));
    assert_eq!(get_theme_from_args(&argv(&["jimmer", "--theme=0"])), Ok(0));
    assert_eq!(get_theme_from_args(&argv(&["jimmer", "--minute=1"])), Ok(0));
}

#[test]
fn theme_out_of_range_is_passed_over() {
    assert_eq!(get_theme_from_args(&argv(&["jimmer", "--theme=11", "--theme=4"])), Ok(3));
    assert_eq!(get_theme_from_args(&argv(&["jimmer", "--theme=2", "--theme=4"])), Ok(1));
}

#[test]
fn theme_not_a_number_is_rejected() {
    assert_eq!(get_theme_from_args(&argv(&["jimmer", "--theme=blue"])), Err(ArgError::InvalidNumber));
    assert_eq!(get_theme_from_args(&argv(&["jimmer", "--theme=0", "--theme=x"])), Err(ArgError::InvalidNumber));
}

#[test]
fn help_flags_are_found() {
    assert!(wants_help(&argv(&["jimmer", "-h"])));
    assert!(wants_help(&argv(&["jimmer", "--minute=1", "--help"])));
    assert!(!wants_help(&argv(&["jimmer", "--minute=1", "--helper", "-hh"])));
}

#[test]
fn command_help_wins() {
    assert_eq!(parse_command(&argv(&["jimmer", "--minute=x", "--help"])), Ok(Command::Help));
}

#[test]
fn command_run() {
    assert_eq!(
        parse_command(&argv(&["jimmer", "--minute=5", "--second=30", "--theme=3"])),
        Ok(Command::Run { total_time: 330_000, theme: 2 })
    );
}

#[test]
fn command_without_duration_is_refused() {
    assert_eq!(parse_command(&argv(&["jimmer"])), Err(ArgError::NoDuration));
    assert_eq!(parse_command(&argv(&["jimmer", "--minute=0", "--second=0"])), Err(ArgError::NoDuration));
}

#[test]
fn command_duration_error_comes_before_theme_error() {
    assert_eq!(parse_command(&argv(&["jimmer", "--theme=x", "--second=y"])), Err(ArgError::InvalidNumber));
    assert_eq!(parse_command(&argv(&["jimmer", "--second=3", "--theme=x"])), Err(ArgError::InvalidNumber));
}

#[test]
fn decimal_parsing_follows_bounds() {
    assert_eq!(parse_unsigned_decimal("0", 10), Some(0));
    assert_eq!(parse_unsigned_decimal("007", 10), Some(7));
    assert_eq!(parse_unsigned_decimal("10", 10), Some(10));
    assert_eq!(parse_unsigned_decimal("11", 10), None);
    assert_eq!(parse_unsigned_decimal("", 10), None);
    assert_eq!(parse_unsigned_decimal("1 ", 10), None);
    assert_eq!(parse_unsigned_decimal("18446744073709551615", u64::MAX), Some(u64::MAX));
}

#[test]
fn prefix_and_equality() {
    assert_eq!(strip_prefix("--theme=3", "--theme="), Some("3"));
    assert_eq!(strip_prefix("--them", "--theme="), None);
    assert_eq!(strip_prefix("é--x", "é-"), Some("-x"));
    assert!(same_text("abc", "abc"));
    assert!(!same_text("abc", "abd"));
    assert!(!same_text("abc", "ab"));
}

#[test]
fn theme_negative_is_out_of_range() {
    assert_eq!(get_theme_from_args(&argv(&["jimmer", "--theme=-1"])), Ok(0));
    assert_eq!(get_theme_from_args(&argv(&["jimmer", "--theme=-1", "--theme=5"])), Ok(4));
}

#[test]
fn theme_too_large_for_any_integer_type_is_out_of_range() {
    assert_eq!(get_theme_from_args(&argv(&["jimmer", "--theme=99999999999999999999999999"])), Ok(0));
    assert_eq!(get_theme_from_args(&argv(&["jimmer", "--theme=+3"])), Ok(2));
}

#[test]
fn theme_sign_without_digits_is_rejected() {
    assert_eq!(get_theme_from_args(&argv(&["jimmer", "--theme=-"])), Err(ArgError::InvalidNumber));
    assert_eq!(get_theme_from_args(&argv(&["jimmer", "--theme="])), Err(ArgError::InvalidNumber));
    assert_eq!(get_theme_from_args(&argv(&["jimmer", "--theme=1-"])), Err(ArgError::InvalidNumber));
}

#[test]
fn integer_text_is_recognised() {
    assert!(is_integer("-12"));
    assert!(is_integer("+0"));
    assert!(is_integer("123456789012345678901234567890"));
    assert!(!is_integer("-"));
    assert!(!is_integer(""));
    assert!(!is_integer("1.0"));
    assert!(!is_integer("--1"));
}
