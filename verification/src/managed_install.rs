//! The installed binary that the daemon runs: where it is, which version it is, and whether it is
//! still the same.
use sha2::Digest;

use vstd::prelude::*;
use vstd::utf8;

use crate::text;
use crate::text::nth_word;
use crate::text::same_text;

verus! {

/// Version of this package.
pub const CLI_VERSION: &'static str = "0.1.0";

/// A path: a root that the host knows, and the names to follow below it.
#[derive(Clone, Debug, PartialEq, Eq)]
pub struct InstallPath<R> {
    pub root: R,
    pub below: Vec<String>,
}

/// File name of the installed binary.
pub open spec fn file_name(windows: bool) -> Seq<char> {
    if windows {
        "codex.exe"@
    } else {
        "codex"@
    }
}

/// File name of the installed binary.
pub fn managed_codex_file_name(windows: bool) -> (name: &'static str)
    ensures
        name@ == file_name(windows),
{
    if windows {
        "codex.exe"
    } else {
        "codex"
    }
}

/// Whether a path is that of the standalone installation under a home directory.
pub open spec fn is_managed_path<R>(path: InstallPath<R>, codex_home: R, windows: bool) -> bool {
    &&& path.root == codex_home
    &&& path.below@.len() == 4
    &&& path.below@[0]@ == "packages"@
    &&& path.below@[1]@ == "standalone"@
    &&& path.below@[2]@ == "current"@
    &&& path.below@[3]@ == file_name(windows)
}

/// The binary of the standalone installation.
pub fn managed_codex_bin<R>(codex_home: R, windows: bool) -> (path: InstallPath<R>)
    ensures
        is_managed_path(path, codex_home, windows),
{
    let mut below: Vec<String> = Vec::new();
    below.push("packages".to_owned());
    below.push("standalone".to_owned());
    below.push("current".to_owned());
    below.push(managed_codex_file_name(windows).to_owned());
    InstallPath { root: codex_home, below }
}

/// Whether a path is that of the binary that the daemon starts.
pub open spec fn is_daemon_path<R>(
    path: InstallPath<R>,
    codex_home: R,
    current_exe: Option<(R, bool)>,
    windows: bool,
) -> bool {
    match current_exe {
        Some((current_exe, true)) => path.root == current_exe && path.below@.len() == 0,
        _ => is_managed_path(path, codex_home, windows),
    }
}

/// The binary that the daemon starts: the one that is running, so that an official installation
/// beside it is never started in its place. Only where the running binary is unknown, or is no file,
/// is the standalone installation used. `current_exe` is the running binary, with whether it is a
/// file.
pub fn daemon_codex_bin<R>(codex_home: R, current_exe: Option<(R, bool)>, windows: bool) -> (path:
    InstallPath<R>)
    ensures
        is_daemon_path(path, codex_home, current_exe, windows),
{
    match current_exe {
        Some((current_exe, is_file)) => if is_file {
            InstallPath { root: current_exe, below: Vec::new() }
        } else {
            managed_codex_bin(codex_home, windows)
        },
        None => managed_codex_bin(codex_home, windows),
    }
}

/// Whether the version of an app server is that of this package.
pub fn app_server_version_matches_cli(app_server_version: &str) -> (matching: bool)
    ensures
        matching == (app_server_version@ == CLI_VERSION@),
{
    same_text(app_server_version, CLI_VERSION)
}

/// The version in what a binary says of itself: the second word.
pub open spec fn version_in(output: Seq<char>) -> Option<Seq<char>> {
    if text::words(output).len() > 1 {
        Some(text::words(output)[1])
    } else {
        None
    }
}

/// The version in what a binary says of itself.
pub fn parse_codex_version(output: &str) -> (version: Result<String, String>)
    ensures
        match version {
            Ok(version) => version_in(output@) == Some(version@),
            Err(message) => version_in(output@) is None && message@
                == "managed Codex version output was malformed"@,
        },
{
    match nth_word(output, 1) {
        Some(version) => Ok(version),
        None => Err("managed Codex version output was malformed".to_owned()),
    }
}

/// `String::from_utf8`: the text that valid UTF-8 stands for, and none for other bytes.
#[verifier::external_body]
fn decoded(bytes: Vec<u8>) -> (text: Option<String>)
    ensures
        match text {
            Some(text) => utf8::valid_utf8(bytes@) && text@ == utf8::decode_utf8(bytes@),
            None => !utf8::valid_utf8(bytes@),
        },
{
    String::from_utf8(bytes).ok()
}

/// What came of asking a binary for its version.
#[derive(Clone, Debug, PartialEq, Eq)]
pub struct VersionOutput {
    pub success: bool,
    /// Exit status as the host words it.
    pub status: String,
    pub stdout: Vec<u8>,
}

/// Whether `version` is what came of asking a binary for its version.
pub open spec fn is_version_of(
    codex_bin: Seq<char>,
    output: VersionOutput,
    version: Result<String, String>,
) -> bool {
    if !output.success {
        version matches Err(message) && message@ == "managed Codex binary "@ + codex_bin
            + " exited with status "@ + output.status@
    } else if !utf8::valid_utf8(output.stdout@) {
        version matches Err(message) && message@ == "managed Codex version was not utf-8: "@
            + codex_bin
    } else {
        match version {
            Ok(version) => version_in(utf8::decode_utf8(output.stdout@)) == Some(version@),
            Err(message) => version_in(utf8::decode_utf8(output.stdout@)) is None && message@
                == "managed Codex version output was malformed"@,
        }
    }
}

/// The version of an installed binary, from what came of asking it. `codex_bin` is its path as the
/// host words it.
pub fn managed_codex_version(codex_bin: &str, output: VersionOutput) -> (version: Result<
    String,
    String,
>)
    ensures
        is_version_of(codex_bin@, output, version),
{
    if !output.success {
        let mut message = "managed Codex binary ".to_owned();
        message.append(codex_bin);
        message.append(" exited with status ");
        message.append(output.status.as_str());
        return Err(message);
    }
    match decoded(output.stdout) {
        Some(stdout) => parse_codex_version(stdout.as_str()),
        None => {
            let mut message = "managed Codex version was not utf-8: ".to_owned();
            message.append(codex_bin);
            Err(message)
        },
    }
}

/// What tells one executable from another: a digest of its contents.
#[derive(Clone, Debug, PartialEq, Eq)]
pub struct ExecutableIdentity {
    pub digest: [u8; 32],
}

/// The SHA-256 digest of some bytes.
pub uninterp spec fn sha256_of(bytes: Seq<u8>) -> Seq<u8>;

/// `sha2::Sha256::digest`: the digest depends on the bytes alone.
#[verifier::external_body]
fn sha256(bytes: &[u8]) -> (digest: [u8; 32])
    ensures
        digest@ == sha256_of(bytes@),
{
    sha2::Sha256::digest(bytes).into()
}

/// The identity of an executable with the given contents.
pub fn executable_identity_from_bytes(bytes: &[u8]) -> (identity: ExecutableIdentity)
    ensures
        identity.digest@ == sha256_of(bytes@),
{
    ExecutableIdentity { digest: sha256(bytes) }
}

/// Executables with the same contents have the same identity, and executables whose identities
/// differ have different contents.
pub proof fn law_identity_follows_contents(
    a: Seq<u8>,
    b: Seq<u8>,
    a_identity: ExecutableIdentity,
    b_identity: ExecutableIdentity,
)
    requires
        a_identity.digest@ == sha256_of(a),
        b_identity.digest@ == sha256_of(b),
    ensures
        a == b ==> a_identity.digest@ == b_identity.digest@,
        a_identity.digest@ != b_identity.digest@ ==> a != b,
{
}

/// A binary that says its name and its version has the version taken as it stands, whatever follows;
/// one that says a single word has told none.
pub proof fn law_version_follows_the_name(
    name: Seq<char>,
    version: Seq<char>,
    white: char,
    rest: Seq<char>,
)
    requires
        text::is_white(white),
        name.len() > 0,
        version.len() > 0,
        forall|i: int| 0 <= i < name.len() ==> !text::is_white(#[trigger] name[i]),
        forall|i: int| 0 <= i < version.len() ==> !text::is_white(#[trigger] version[i]),
    ensures
        version_in(name + seq![white] + version) == Some(version),
        version_in(name + seq![white] + (version + seq![white] + rest)) == Some(version),
        version_in(name) is None,
{
    text::law_white_space_parts_words(version, white, rest);
    text::law_white_space_parts_words(name, white, version);
    text::law_white_space_parts_words(name, white, version + seq![white] + rest);
}

/// The standalone binary lies under the home directory, in the package that is current, and has the
/// ending of an executable exactly on Windows.
pub proof fn law_managed_binary_lies_in_the_current_package<R>(
    path: InstallPath<R>,
    codex_home: R,
    windows: bool,
)
    requires
        is_managed_path(path, codex_home, windows),
    ensures
        path.root == codex_home,
        path.below@.len() == 4,
        path.below@[0]@ == "packages"@,
        path.below@[1]@ == "standalone"@,
        path.below@[2]@ == "current"@,
        windows ==> path.below@[3]@ == "codex.exe"@,
        !windows ==> path.below@[3]@ == "codex"@,
{
}

/// The daemon starts the binary that is running wherever that is a file, and the standalone one
/// otherwise.
pub proof fn law_running_binary_is_started<R>(
    path: InstallPath<R>,
    codex_home: R,
    current_exe: Option<(R, bool)>,
    windows: bool,
)
    requires
        is_daemon_path(path, codex_home, current_exe, windows),
    ensures
        current_exe matches Some((running, is_file)) ==> if is_file {
            path.root == running && path.below@.len() == 0
        } else {
            path.root == codex_home && path.below@.len() == 4
        },
        current_exe is None ==> path.root == codex_home && path.below@.len() == 4,
{
}

/// A version is told exactly where the binary ran through, spoke UTF-8 and said a second word.
pub proof fn law_version_is_told_where_the_binary_says_it(
    codex_bin: Seq<char>,
    output: VersionOutput,
    version: Result<String, String>,
)
    requires
        is_version_of(codex_bin, output, version),
    ensures
        version is Ok <==> output.success && utf8::valid_utf8(output.stdout@) && text::words(
            utf8::decode_utf8(output.stdout@),
        ).len() >= 2,
        version matches Ok(told) ==> told@ == text::words(utf8::decode_utf8(output.stdout@))[1],
        !output.success ==> (version matches Err(message) && output.status@.is_suffix_of(message@)),
{
}

} // verus!
