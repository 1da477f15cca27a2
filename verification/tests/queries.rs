//! Tests of the three query components on concrete values.

use sysquery::command::command_outcome;
use sysquery::command::launch_failure_error;
use sysquery::disk_space::disk_call_error;
use sysquery::disk_space::disk_space_from_statvfs;
use sysquery::disk_space::disk_space_from_windows;
use sysquery::disk_space::encode_utf16_nul;
use sysquery::disk_space::resolve_target_path;
use sysquery::disk_space::resolve_target_path_with;
use sysquery::disk_space::validate_posix_path;
use sysquery::os_release::parse_pretty_name;
use sysquery::system_info::finish_system_info;
use sysquery::system_info::get_linux_version;
use sysquery::system_info::get_macos_version;
use sysquery::system_info::get_system_info;
use sysquery::system_info::get_windows_version;
use sysquery::text::find_char;
use sysquery::text::trim_str;
use sysquery::text::u64_to_decimal;

#[test]
fn statvfs_products() {
    let d = disk_space_from_statvfs(100, 4096, 250);
    assert_eq!(d.available, 409600);
    assert_eq!(d.total, 1024000);
    assert!(d.available <= d.total);
}

#[test]
fn statvfs_zero_available() {
    let d = disk_space_from_statvfs(0, 4096, 250);
    assert_eq!(d.available, 0);
    assert_eq!(d.total, 1024000);
}

#[test]
fn windows_counts_taken_as_reported() {
    let d = disk_space_from_windows(1234, 99999);
    assert_eq!(d.available, 1234);
    assert_eq!(d.total, 99999);
}

#[test]
fn nonempty_path_kept() {
    let r = resolve_target_path_with("/tmp".to_string(), None);
    assert_eq!(r, Ok("/tmp".to_string()));
}

#[test]
fn empty_path_without_home_fails() {
    let r = resolve_target_path_with(String::new(), None);
    assert_eq!(r, Err("Unable to determine home directory".to_string()));
}

#[test]
fn empty_path_takes_home() {
    let r = resolve_target_path_with(String::new(), Some("/home/someone".to_string()));
    assert_eq!(r, Ok("/home/someone".to_string()));
}

#[test]
fn empty_path_matches_explicit_home() {
    // An empty path succeeds exactly when a home directory resolves, and
    // then goes where an explicit query with that directory goes.
    match resolve_target_path(String::new()) {
        Ok(home) => {
            assert!(!home.is_empty());
            assert_eq!(resolve_target_path(home.clone()), Ok(home));
        }
        Err(e) => assert_eq!(e, "Unable to determine home directory"),
    }
}

#[test]
fn plain_path_encodes() {
    assert!(validate_posix_path("/tmp").is_ok());
    assert!(validate_posix_path("").is_ok());
}

#[test]
fn embedded_nul_is_encoding_error() {
    let r = validate_posix_path("a\0b");
    assert_eq!(
        r,
        Err("Invalid path: nul byte found in provided data at position: 1".to_string())
    );
    let r2 = validate_posix_path("\0");
    assert_eq!(
        r2,
        Err("Invalid path: nul byte found in provided data at position: 0".to_string())
    );
    assert_ne!(r.unwrap_err(), disk_call_error());
}

#[test]
fn disk_call_error_text() {
    assert_eq!(disk_call_error(), "Failed to get disk space");
}

#[test]
fn decimal_formatting() {
    assert_eq!(u64_to_decimal(0), "0");
    assert_eq!(u64_to_decimal(7), "7");
    assert_eq!(u64_to_decimal(10), "10");
    assert_eq!(u64_to_decimal(1234567890), "1234567890");
    assert_eq!(u64_to_decimal(u64::MAX), "18446744073709551615");
}

#[test]
fn find_first_occurrence() {
    assert_eq!(find_char("abc\nd", '\n'), 3);
    assert_eq!(find_char("abcd", '\n'), 4);
    assert_eq!(find_char("\nx", '\n'), 0);
}

#[test]
fn trim_whitespace() {
    assert_eq!(trim_str("  hello\n"), "hello");
    assert_eq!(trim_str("hello"), "hello");
    assert_eq!(trim_str(""), "");
    assert_eq!(trim_str(" \t\r\n"), "");
    assert_eq!(trim_str("\u{00A0}x\u{3000}"), "x");
    assert_eq!(trim_str("a b"), "a b");
}

#[test]
fn pretty_name_found() {
    let content = "NAME=\"Ubuntu\"\nVERSION=\"22.04\"\nPRETTY_NAME=\"Ubuntu 22.04.3 LTS\"\nID=ubuntu\n";
    assert_eq!(
        parse_pretty_name(content),
        Some("Ubuntu 22.04.3 LTS".to_string())
    );
}

#[test]
fn pretty_name_first_line_wins() {
    let content = "PRETTY_NAME=\"First\"\nPRETTY_NAME=\"Second\"\n";
    assert_eq!(parse_pretty_name(content), Some("First".to_string()));
}

#[test]
fn pretty_name_unquoted_and_crlf() {
    assert_eq!(
        parse_pretty_name("PRETTY_NAME=Plain Linux\r\nID=x\r\n"),
        Some("Plain Linux".to_string())
    );
}

#[test]
fn pretty_name_repeated_key_stripped() {
    assert_eq!(
        parse_pretty_name("PRETTY_NAME=PRETTY_NAME=\"X\""),
        Some("X".to_string())
    );
}

#[test]
fn pretty_name_missing() {
    assert_eq!(parse_pretty_name("NAME=Arch\nID=arch\n"), None);
    assert_eq!(parse_pretty_name(""), None);
    // the key must open the line
    assert_eq!(parse_pretty_name("X_PRETTY_NAME=\"no\"\n"), None);
}

#[test]
fn windows_version_label() {
    assert_eq!(get_windows_version(), "Windows");
}

#[test]
fn macos_version_trims_probe() {
    assert_eq!(get_macos_version(Some(b"14.2\n".to_vec())), "14.2");
    assert_eq!(get_macos_version(None), "macOS");
}

#[test]
fn linux_version_prefers_probe() {
    assert_eq!(
        get_linux_version(Some(b"Ubuntu 22.04.3 LTS\n".to_vec()), None),
        "Ubuntu 22.04.3 LTS"
    );
}

#[test]
fn linux_version_falls_back_to_os_release() {
    let content = "PRETTY_NAME=\"Debian GNU/Linux 12 (bookworm)\"\n".to_string();
    assert_eq!(
        get_linux_version(None, Some(content)),
        "Debian GNU/Linux 12 (bookworm)"
    );
    assert_eq!(get_linux_version(None, Some("ID=unknown\n".to_string())), "Linux");
    assert_eq!(get_linux_version(None, None), "Linux");
}

#[test]
fn successful_command_output_decoded() {
    let r = command_outcome(true, b"hello\n".to_vec(), &Vec::new());
    assert_eq!(r, Ok("hello\n".to_string()));
}

#[test]
fn invalid_output_fails_despite_success() {
    let r = command_outcome(true, vec![0xFF], &Vec::new());
    assert_eq!(
        r,
        Err("Invalid UTF-8 output: invalid utf-8 sequence of 1 bytes from index 0".to_string())
    );
}

#[test]
fn failed_command_reports_stderr() {
    let r = command_outcome(false, b"ignored".to_vec(), &b"oops".to_vec());
    assert_eq!(r, Err("oops".to_string()));
}

#[test]
fn failed_command_with_empty_stderr() {
    let r = command_outcome(false, Vec::new(), &Vec::new());
    assert_eq!(r, Err(String::new()));
}

#[test]
fn failed_command_stderr_decoded_lossily() {
    let r = command_outcome(false, Vec::new(), &vec![b'o', 0xFF, b'k']);
    assert_eq!(r, Err("o\u{FFFD}k".to_string()));
}

#[test]
fn launch_failure_message() {
    let msg = launch_failure_error("No such file or directory (os error 2)");
    assert_eq!(
        msg,
        "Failed to execute command: No such file or directory (os error 2)"
    );
    assert!(msg.contains("Failed to execute command"));
}

#[test]
fn system_info_fields_and_sentinel() {
    let info = finish_system_info(
        "linux".to_string(),
        "x86_64".to_string(),
        "Test OS 1.0".to_string(),
        Some("box".to_string()),
    );
    assert_eq!(info.platform, "linux");
    assert_eq!(info.arch, "x86_64");
    assert_eq!(info.os_version, "Test OS 1.0");
    assert_eq!(info.hostname, "box");

    let fallback = finish_system_info(
        "linux".to_string(),
        "x86_64".to_string(),
        "Test OS 1.0".to_string(),
        None,
    );
    assert_eq!(fallback.hostname, "unknown");
}

#[test]
fn system_info_never_fails_and_repeats() {
    let a = get_system_info("linux".to_string(), "x86_64".to_string(), "v".to_string())
        .expect("identity query must not fail");
    let b = get_system_info("linux".to_string(), "x86_64".to_string(), "v".to_string())
        .expect("identity query must not fail");
    assert_eq!(a.platform, b.platform);
    assert_eq!(a.arch, b.arch);
    assert_eq!(a.os_version, b.os_version);
    assert_eq!(a.hostname, b.hostname);
    assert!(!a.hostname.is_empty());
}

#[test]
fn utf16_encoding_with_terminator() {
    assert_eq!(encode_utf16_nul(""), vec![0]);
    assert_eq!(encode_utf16_nul("ab"), vec![97, 98, 0]);
    assert_eq!(encode_utf16_nul("\u{20AC}"), vec![0x20AC, 0]);
    assert_eq!(encode_utf16_nul("\u{1D11E}"), vec![0xD834, 0xDD1E, 0]);
    let reference: Vec<u16> = "C:\\Users\\\u{1F600}"
        .encode_utf16()
        .chain(std::iter::once(0))
        .collect();
    assert_eq!(encode_utf16_nul("C:\\Users\\\u{1F600}"), reference);
}
