use passkeeper::text::{is_confirmation, is_space, trimmed};

#[test]
fn is_space_agrees_with_the_standard_library() {
    let mut c = 0u32;
    while c <= 0x10FFFF {
        if let Some(ch) = char::from_u32(c) {
            assert_eq!(is_space(ch), ch.is_whitespace(), "U+{:04X}", c);
        }
        c += 1;
    }
}

#[test]
fn trimmed_agrees_with_the_standard_library() {
    for line in [
        "",
        " ",
        "\n",
        "name",
        "name\n",
        "  name  ",
        "\t name\r\n",
        "na me",
        "  na  me \n",
        "\u{00A0}name\u{3000}",
        "\u{2003}\u{2028}é\u{205F}",
        "   \u{1680}   ",
        "\u{200B}name",
    ] {
        assert_eq!(trimmed(line), line.trim(), "{:?}", line);
    }
}

#[test]
fn trimmed_gives_exact_values() {
    assert_eq!(trimmed("  github \n"), "github");
    assert_eq!(trimmed("git hub"), "git hub");
    assert_eq!(trimmed(" \t\n"), "");
}

#[test]
fn confirmation_is_the_name_after_trimming() {
    assert!(is_confirmation("github\n", "github"));
    assert!(is_confirmation("  github  ", "github"));
    assert!(is_confirmation("github", "github"));
    assert!(is_confirmation("\n", ""));
    assert!(!is_confirmation("githu", "github"));
    assert!(!is_confirmation("github.", "github"));
    assert!(!is_confirmation("Github", "github"));
    assert!(!is_confirmation("git hub", "github"));
    assert!(!is_confirmation("", "github"));
}

#[test]
fn confirmation_does_not_trim_the_name() {
    assert!(!is_confirmation("github", " github"));
    assert!(!is_confirmation(" github", " github"));
}
