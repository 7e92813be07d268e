use rosbag_format_converter::backend::Backend;
use rosbag_format_converter::config::config_content;
use rosbag_format_converter::config::tool_args;
use rosbag_format_converter::config::tool_command;

#[test]
fn storage_identifiers() {
    assert_eq!(Backend::Sqlite3.storage_id(), "sqlite3");
    assert_eq!(Backend::Mcap.storage_id(), "mcap");
}

#[test]
fn config_text_sqlite3() {
    let c = config_content("output.db3", Backend::Sqlite3);
    assert_eq!(
        c,
        "output_bags:\n  - uri: output.db3\n    storage_id: sqlite3\n    all: true\n"
    );
}

#[test]
fn config_text_mcap() {
    let c = config_content("out.mcap", Backend::Mcap);
    assert_eq!(
        c,
        "output_bags:\n  - uri: out.mcap\n    storage_id: mcap\n    all: true\n"
    );
}

#[test]
fn config_text_empty_output_path() {
    let c = config_content("", Backend::Sqlite3);
    assert_eq!(
        c,
        "output_bags:\n  - uri: \n    storage_id: sqlite3\n    all: true\n"
    );
}

#[test]
fn tool_invocation_shape() {
    assert_eq!(tool_command(), "ros2");
    let args = tool_args("input.mcap", "/tmp/cfg.yaml");
    assert_eq!(
        args,
        vec!["bag", "convert", "-i", "input.mcap", "-o", "/tmp/cfg.yaml"]
    );
}
