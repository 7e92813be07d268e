use rosbag_format_converter::backend::Backend;
use rosbag_format_converter::cli::parse_args;
use rosbag_format_converter::cli::CliError;

fn args(parts: &[&str]) -> Vec<String> {
    parts.iter().map(|s| s.to_string()).collect()
}

#[test]
fn parse_mcap_to_sqlite3() {
    let r = parse_args(&args(&["mcap-to-sqlite3", "input.mcap", "output.db3"])).unwrap();
    assert_eq!(r.input_bag, "input.mcap");
    assert_eq!(r.output_bag, "output.db3");
    assert_eq!(r.backend, Backend::Sqlite3);
}

#[test]
fn parse_sqlite3_to_mcap() {
    let r = parse_args(&args(&["sqlite3-to-mcap", "in.db3", "out.mcap"])).unwrap();
    assert_eq!(r.input_bag, "in.db3");
    assert_eq!(r.output_bag, "out.mcap");
    assert_eq!(r.backend, Backend::Mcap);
}

#[test]
fn parse_no_arguments() {
    assert_eq!(parse_args(&args(&[])), Err(CliError::MissingSubcommand));
}

#[test]
fn parse_unknown_subcommand() {
    assert_eq!(
        parse_args(&args(&["png-to-jpeg", "a", "b"])),
        Err(CliError::UnknownSubcommand)
    );
}

#[test]
fn parse_missing_paths() {
    assert_eq!(
        parse_args(&args(&["mcap-to-sqlite3"])),
        Err(CliError::MissingInputBag)
    );
    assert_eq!(
        parse_args(&args(&["sqlite3-to-mcap", "in.db3"])),
        Err(CliError::MissingOutputBag)
    );
}

#[test]
fn parse_extra_argument() {
    assert_eq!(
        parse_args(&args(&["mcap-to-sqlite3", "a", "b", "c"])),
        Err(CliError::UnexpectedArgument)
    );
}
