use compiler_linker::error::LinkError;
use compiler_linker::link_type::LinkType;
use compiler_linker::report::{error_line, success_line};

#[test]
fn error_line_is_bright_red() {
    assert_eq!(
        error_line(&LinkError::ReparsePointSetFailed("A required privilege is not held".to_string())),
        "\u{1b}[91merror:\u{1b}[39m \u{1b}[91mFailed to set reparse point for junction: A required privilege is not held\u{1b}[39m"
    );
}

#[test]
fn error_line_carries_the_platform_text() {
    assert_eq!(
        error_line(&LinkError::HardLinkFailed("denied".to_string())),
        "\u{1b}[91merror:\u{1b}[39m \u{1b}[91mFailed to create hard link: denied\u{1b}[39m"
    );
}

#[test]
fn success_line_is_bright_green() {
    let line = success_line(LinkType::Junction, "\"C:\\\\tmp\\\\linkA\"", "\"C:\\\\tmp\\\\real\"");
    let expected = [
        "\u{1b}[92mJunction\u{1b}[39m",
        " ",
        "\u{1b}[92mcreated at source\u{1b}[39m",
        " ",
        "\u{1b}[92m→\u{1b}[39m",
        " ",
        "\u{1b}[92m\"C:\\\\tmp\\\\linkA\"\u{1b}[39m",
        ", ",
        "\u{1b}[92mpointing to\u{1b}[39m",
        " ",
        "\u{1b}[92m\"C:\\\\tmp\\\\real\"\u{1b}[39m",
    ]
    .concat();
    assert_eq!(line, expected);
}

#[test]
fn success_line_names_the_kind() {
    assert!(success_line(LinkType::Soft, "a", "b").starts_with("\u{1b}[92mSoft Link\u{1b}[39m "));
    assert!(success_line(LinkType::Hard, "a", "b").starts_with("\u{1b}[92mHard Link\u{1b}[39m "));
    assert!(success_line(LinkType::Symbolic, "a", "b")
        .starts_with("\u{1b}[92mSymbolic Link\u{1b}[39m "));
}

#[test]
fn painted_text_differs_from_plain_text() {
    let line = success_line(LinkType::Junction, "", "");
    assert_ne!(line, "Junction created at source → , pointing to ");
    assert_eq!(line.matches("\u{1b}[92m").count(), 6);
    assert_eq!(line.matches("\u{1b}[39m").count(), 6);
    let line = error_line(&LinkError::UnsupportedPlatform);
    assert_eq!(line.matches("\u{1b}[91m").count(), 2);
    assert_eq!(line.matches("\u{1b}[39m").count(), 2);
}
