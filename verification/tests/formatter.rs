use code_uploader::config::Config;
use code_uploader::failure::Failure;
use code_uploader::formatter::{check_status, formatter_args, formatter_path, lookup_command};

fn config(settings: Option<&str>, edition: Option<&str>) -> Config {
    Config::new(
        "/tmp/a.rs".to_string(),
        "fn main(){}".to_string(),
        settings.map(str::to_string),
        edition.map(str::to_string),
    )
}

#[test]
fn the_lookup_asks_rustup_for_rustfmt() {
    let command = lookup_command();
    assert_eq!(command.program, "rustup");
    assert_eq!(command.args, vec!["which", "rustfmt"]);
}

#[test]
fn without_settings_the_arguments_are_the_emit_order_and_the_path() {
    assert_eq!(formatter_args(&config(None, None), "/tmp/a.rs"), vec!["--emit", "files", "/tmp/a.rs"]);
}

#[test]
fn a_settings_file_follows_its_flag_before_the_path() {
    assert_eq!(
        formatter_args(&config(Some("/etc/rustfmt.toml"), None), "/tmp/a.rs"),
        vec!["--emit", "files", "--config-path", "/etc/rustfmt.toml", "/tmp/a.rs"]
    );
}

#[test]
fn an_edition_follows_its_flag_before_the_path() {
    assert_eq!(
        formatter_args(&config(None, Some("2021")), "/tmp/a.rs"),
        vec!["--emit", "files", "--edition", "2021", "/tmp/a.rs"]
    );
}

#[test]
fn both_settings_come_in_order_settings_file_first() {
    assert_eq!(
        formatter_args(&config(Some("fmt.toml"), Some("2018")), "/tmp/proj/main.rs"),
        vec!["--emit", "files", "--config-path", "fmt.toml", "--edition", "2018", "/tmp/proj/main.rs"]
    );
}

#[test]
fn the_last_argument_is_the_path_given_not_the_target() {
    let args = formatter_args(&config(None, None), "/tmp/proj/main.rs");
    assert_eq!(args.last().unwrap(), "/tmp/proj/main.rs");
}

#[test]
fn the_formatter_path_is_the_trimmed_output() {
    assert_eq!(
        formatter_path(b"/home/u/.cargo/bin/rustfmt\n".to_vec()),
        Ok("/home/u/.cargo/bin/rustfmt".to_string())
    );
    assert_eq!(formatter_path(b"  a b\r\n".to_vec()), Ok("a b".to_string()));
}

#[test]
fn empty_output_gives_an_empty_formatter_path() {
    assert_eq!(formatter_path(Vec::new()), Ok(String::new()));
    assert_eq!(formatter_path(b"\n".to_vec()), Ok(String::new()));
}

#[test]
fn output_of_several_byte_characters_is_decoded() {
    assert_eq!(
        formatter_path("/opt/d\u{e9}p\u{f4}t/rustfmt\n".as_bytes().to_vec()),
        Ok("/opt/d\u{e9}p\u{f4}t/rustfmt".to_string())
    );
}

#[test]
fn output_that_is_no_utf8_is_a_failure() {
    assert_eq!(formatter_path(vec![0xff, 0xfe]), Err(Failure::InvalidFormatterPath));
    assert_eq!(formatter_path(vec![b'a', 0xc3]), Err(Failure::InvalidFormatterPath));
    assert_eq!(formatter_path(vec![0xed, 0xa0, 0x80]), Err(Failure::InvalidFormatterPath));
    assert_eq!(formatter_path(vec![0xc0, 0x80]), Err(Failure::InvalidFormatterPath));
}

#[test]
fn a_zero_status_is_accepted() {
    assert_eq!(check_status(true, "ExitStatus(unix_wait_status(0))".to_string()), Ok(()));
}

#[test]
fn another_status_is_a_failure_that_reports_it() {
    assert_eq!(
        check_status(false, "ExitStatus(unix_wait_status(256))".to_string()),
        Err(Failure::FormatterFailed { status: "ExitStatus(unix_wait_status(256))".to_string() })
    );
}
