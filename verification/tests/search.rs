use mamba_bootstrap::error::BootstrapError;
use mamba_bootstrap::locate::which;
use mamba_bootstrap::paths::{
    create_arguments, fallback_binary, list_arguments, mamba_root, tool_name,
};

#[test]
fn which_reads_the_printed_path() {
    assert_eq!(
        which(Some(0), b"/usr/bin/micromamba\n".to_vec()),
        Ok(Some("/usr/bin/micromamba".to_string()))
    );
}

#[test]
fn which_removes_white_space_on_both_sides() {
    assert_eq!(
        which(Some(0), " \t/opt/my tools/micromamba \r\n".as_bytes().to_vec()),
        Ok(Some("/opt/my tools/micromamba".to_string()))
    );
    assert_eq!(
        which(Some(0), "\u{85}\u{a0}\u{1680}\u{2000}\u{200a}\u{2028}\u{2029}\u{202f}\u{205f}\u{3000}x\u{b}\u{c}".as_bytes().to_vec()),
        Ok(Some("x".to_string()))
    );
    assert_eq!(
        which(Some(0), "\u{200b}x\u{feff}".as_bytes().to_vec()),
        Ok(Some("\u{200b}x\u{feff}".to_string()))
    );
}

#[test]
fn which_with_empty_output_reports_the_empty_path() {
    assert_eq!(which(Some(0), Vec::new()), Ok(Some(String::new())));
    assert_eq!(which(Some(0), b" \n".to_vec()), Ok(Some(String::new())));
}

#[test]
fn which_without_success_reports_nothing() {
    assert_eq!(which(Some(1), b"/usr/bin/micromamba\n".to_vec()), Ok(None));
    assert_eq!(which(Some(-1), Vec::new()), Ok(None));
    assert_eq!(which(None, b"/usr/bin/micromamba\n".to_vec()), Ok(None));
    assert_eq!(which(Some(2), vec![0xff, 0xfe]), Ok(None));
}

#[test]
fn which_rejects_output_that_is_not_text() {
    assert_eq!(which(Some(0), vec![0x2f, 0xff, 0x0a]), Err(BootstrapError::SearchOutput));
    assert_eq!(which(Some(0), vec![0xc3]), Err(BootstrapError::SearchOutput));
    assert_eq!(which(Some(0), vec![0xed, 0xa0, 0x80]), Err(BootstrapError::SearchOutput));
}

#[test]
fn which_decodes_utf8() {
    assert_eq!(
        which(Some(0), "/home/zo\u{eb}/bin/micromamba\n".as_bytes().to_vec()),
        Ok(Some("/home/zo\u{eb}/bin/micromamba".to_string()))
    );
}

#[test]
fn install_root_is_micromamba_under_home() {
    let root = mamba_root();
    assert!(root.ends_with("/micromamba"));
    assert_ne!(root, "~/micromamba");
    assert!(!root.starts_with('~'));
}

#[test]
fn binary_is_under_bin_of_the_root() {
    assert_eq!(fallback_binary("/home/u/micromamba"), "/home/u/micromamba/bin/micromamba");
    assert_eq!(fallback_binary(""), "/bin/micromamba");
}

#[test]
fn canonical_name() {
    assert_eq!(tool_name(), "micromamba");
}

#[test]
fn listing_arguments() {
    assert_eq!(list_arguments(), vec!["env", "list", "--json"]);
}

#[test]
fn creation_arguments() {
    assert_eq!(create_arguments(), vec!["create", "-n", "base"]);
}

#[test]
fn messages() {
    assert_eq!(BootstrapError::UnsupportedPlatform.message(), "failed to get mamba url");
    assert_eq!(BootstrapError::MalformedUrl.message(), "mamba url is not a valid url");
    assert_eq!(BootstrapError::Transfer.message(), "failed to download the archive");
    assert_eq!(BootstrapError::Archive.message(), "failed to read the archive");
    assert_eq!(BootstrapError::Filesystem.message(), "failed to access the file system");
    assert_eq!(BootstrapError::Launch.message(), "failed to start a process");
    assert_eq!(BootstrapError::SearchOutput.message(), "which printed a path that is not text");
    assert_eq!(
        BootstrapError::InconsistentEnvironment.message(),
        "which successful but path does not exist"
    );
    assert_eq!(BootstrapError::Protocol.message(), "failed to parse the environment list");
    assert_eq!(BootstrapError::CreateEnvironment.message(), "failed to create base env");
    assert_eq!(BootstrapError::UnexpectedEvent.message(), "unexpected event");
}
