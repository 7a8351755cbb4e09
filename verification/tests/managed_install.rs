use std::path::PathBuf;

use account_pool::managed_install::app_server_version_matches_cli;
use account_pool::managed_install::daemon_codex_bin;
use account_pool::managed_install::executable_identity_from_bytes;
use account_pool::managed_install::managed_codex_bin;
use account_pool::managed_install::managed_codex_file_name;
use account_pool::managed_install::managed_codex_version;
use account_pool::managed_install::parse_codex_version;
use account_pool::managed_install::VersionOutput;
use account_pool::managed_install::CLI_VERSION;

#[test]
fn parses_codex_cli_version_output() {
    assert_eq!(
        parse_codex_version("codex 1.2.3\n").expect("version"),
        "1.2.3"
    );
}

#[test]
fn rejects_malformed_codex_cli_version_output() {
    assert!(parse_codex_version("codex\n").is_err());
}

#[test]
fn malformed_version_output_says_so() {
    assert_eq!(
        parse_codex_version("codex\n"),
        Err("managed Codex version output was malformed".to_string())
    );
    assert!(parse_codex_version("").is_err());
    assert!(parse_codex_version(" \t\u{3000}\n").is_err());
    assert_eq!(
        parse_codex_version("\u{2003}codex\u{a0}0.9 extra"),
        Ok("0.9".to_string())
    );
}

#[test]
fn executable_identity_uses_binary_contents() {
    let old = executable_identity_from_bytes(b"old");
    let same = executable_identity_from_bytes(b"old");
    let new = executable_identity_from_bytes(b"new");

    assert_eq!(old, same);
    assert_ne!(old, new);
}

#[test]
fn executable_identity_is_the_sha256_digest() {
    let identity = executable_identity_from_bytes(b"abc");
    assert_eq!(
        identity.digest,
        [
            0xba, 0x78, 0x16, 0xbf, 0x8f, 0x01, 0xcf, 0xea, 0x41, 0x41, 0x40, 0xde, 0x5d, 0xae,
            0x22, 0x23, 0xb0, 0x03, 0x61, 0xa3, 0x96, 0x17, 0x7a, 0x9c, 0xb4, 0x10, 0xff, 0x61,
            0xf2, 0x00, 0x15, 0xad,
        ]
    );
}

#[test]
fn daemon_codex_bin_prefers_current_exe_over_standalone() {
    let codex_home = PathBuf::from("/tmp/codex-home-does-not-matter");
    let current_exe = PathBuf::from("/opt/codex/bin/codex");
    let resolved = daemon_codex_bin(codex_home.clone(), Some((current_exe.clone(), true)), false);
    assert_eq!(resolved.root, current_exe);
    assert!(resolved.below.is_empty());
    assert_ne!(resolved, managed_codex_bin(codex_home, false));
}

#[test]
fn daemon_falls_back_to_the_standalone_installation() {
    let standalone = managed_codex_bin("home", false);
    assert_eq!(standalone.root, "home");
    assert_eq!(
        standalone.below,
        vec!["packages", "standalone", "current", "codex"]
    );
    assert_eq!(daemon_codex_bin("home", None, false), standalone);
    assert_eq!(
        daemon_codex_bin("home", Some(("exe", false)), false),
        standalone
    );
    assert_eq!(
        daemon_codex_bin("home", None, true).below[3],
        managed_codex_file_name(true)
    );
    assert_eq!(managed_codex_file_name(true), "codex.exe");
    assert_eq!(managed_codex_file_name(false), "codex");
}

#[test]
fn app_server_version_matches_this_cli_package_version() {
    assert!(app_server_version_matches_cli(CLI_VERSION));
    assert!(!app_server_version_matches_cli("0.0.0-not-this-build"));
}

fn version_output(success: bool, stdout: &[u8]) -> VersionOutput {
    VersionOutput {
        success,
        status: "exit status: 3".to_string(),
        stdout: stdout.to_vec(),
    }
}

#[test]
fn version_of_a_binary_comes_from_its_output() {
    assert_eq!(
        managed_codex_version("/bin/codex", version_output(true, b"codex 0.5.0\n")),
        Ok("0.5.0".to_string())
    );
    assert_eq!(
        managed_codex_version(
            "/bin/codex",
            version_output(true, "codex caf\u{e9}\n".as_bytes())
        ),
        Ok("caf\u{e9}".to_string())
    );
    assert_eq!(
        managed_codex_version("/bin/codex", version_output(false, b"codex 0.5.0\n")),
        Err("managed Codex binary /bin/codex exited with status exit status: 3".to_string())
    );
    assert_eq!(
        managed_codex_version("/bin/codex", version_output(true, &[0x63, 0xff, 0x20])),
        Err("managed Codex version was not utf-8: /bin/codex".to_string())
    );
    assert_eq!(
        managed_codex_version("/bin/codex", version_output(true, b"codex")),
        Err("managed Codex version output was malformed".to_string())
    );
}
