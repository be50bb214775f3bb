//! Fetching the installer: which file to fetch for the machine, whether the
//! file that arrived is the one that was published, and the code with which
//! the downloader exits.

use crate::text::chars_of;
use sha2::{Digest, Sha256};
use vstd::prelude::*;
use vstd::string::*;

verus! {

/// Exit code: the installer could not be downloaded.
pub const ERR_DOWNLOAD: i32 = 13370;

/// Exit code: the downloaded file is not the one that was published.
pub const ERR_VERIFY: i32 = 13371;

/// Exit code: the installer could not be started.
pub const ERR_INSTALL_SPAWN: i32 = 13372;

/// Exit code: the downloaded file could not be removed.
pub const ERR_CLEANUP: i32 = 13373;

/// Exit code for an installer that ended without one.
pub const ABNORMAL_TERMINATION: i32 = -99;

/// The machine type of a 64-bit ARM system.
pub const IMAGE_FILE_MACHINE_ARM64: u16 = 0xAA64;

/// The processor architecture of a 64-bit ARM system.
pub const PROCESSOR_ARCHITECTURE_ARM64: u16 = 12;

/// Where the installers are published.
pub const RELEASE_BASE: &'static str =
    "https://github.com/AutoDarkMode/Windows-Auto-Night-Mode/releases/download/11.0.0.54/";

/// What the name of an installer begins with.
pub const INSTALLER_PREFIX: &'static str = "AutoDarkMode_11.0.0.54_";

/// What the name of an installer ends with.
pub const INSTALLER_SUFFIX: &'static str = ".exe";

/// What is added to the address of a file for the address of its checksum.
pub const CHECKSUM_SUFFIX: &'static str = ".sha256";

/// The architecture for which an installer is built.
#[derive(Clone, Copy, PartialEq, Eq, Debug, Structural)]
pub enum Architecture {
    Arm64,
    X86,
}

impl Architecture {
    /// How the architecture is written in the name of an installer.
    pub open spec fn label(self) -> Seq<char> {
        match self {
            Architecture::Arm64 => "ARM64"@,
            Architecture::X86 => "x86"@,
        }
    }

    /// How the architecture is written in the name of an installer.
    pub fn as_str(self) -> (s: &'static str)
        ensures
            s@ == self.label(),
    {
        match self {
            Architecture::Arm64 => "ARM64",
            Architecture::X86 => "x86",
        }
    }
}

/// The architecture of the machine. `native_machine` is the machine type
/// that the system reports for itself, where the system can say; if it
/// cannot, `processor_architecture` from the system information decides.
pub fn detect_native_arch(native_machine: Option<u16>, processor_architecture: u16) -> (arch:
    Architecture)
    ensures
        arch == Architecture::Arm64 <==> match native_machine {
            Some(machine) => machine == IMAGE_FILE_MACHINE_ARM64,
            None => processor_architecture == PROCESSOR_ARCHITECTURE_ARM64,
        },
{
    let arm = match native_machine {
        Some(machine) => machine == IMAGE_FILE_MACHINE_ARM64,
        None => processor_architecture == PROCESSOR_ARCHITECTURE_ARM64,
    };
    if arm {
        Architecture::Arm64
    } else {
        Architecture::X86
    }
}

/// The file name of the installer for `arch`.
pub fn installer_name(arch: Architecture) -> (name: String)
    ensures
        name@ == INSTALLER_PREFIX@ + arch.label() + INSTALLER_SUFFIX@,
{
    let mut name = String::from_str(INSTALLER_PREFIX);
    name.append(arch.as_str());
    name.append(INSTALLER_SUFFIX);
    name
}

/// The address of the installer for `arch`.
pub fn installer_url(arch: Architecture) -> (url: String)
    ensures
        url@ == RELEASE_BASE@ + (INSTALLER_PREFIX@ + arch.label() + INSTALLER_SUFFIX@),
{
    let mut url = String::from_str(RELEASE_BASE);
    let name = installer_name(arch);
    url.append(name.as_str());
    url
}

/// The address of the checksum of the file at `url`.
pub fn checksum_url(url: &str) -> (address: String)
    ensures
        address@ == url@ + CHECKSUM_SUFFIX@,
{
    let mut address = String::from_str(url);
    address.append(CHECKSUM_SUFFIX);
    address
}

/// White space, as `char::is_whitespace` has it.
pub open spec fn is_whitespace(c: char) -> bool {
    ||| '\u{9}' <= c <= '\u{d}'
    ||| c == ' '
    ||| c == '\u{85}'
    ||| c == '\u{a0}'
    ||| c == '\u{1680}'
    ||| '\u{2000}' <= c <= '\u{200a}'
    ||| c == '\u{2028}'
    ||| c == '\u{2029}'
    ||| c == '\u{202f}'
    ||| c == '\u{205f}'
    ||| c == '\u{3000}'
}

fn is_space(c: char) -> (b: bool)
    ensures
        b == is_whitespace(c),
{
    ('\u{9}' <= c && c <= '\u{d}') || c == ' ' || c == '\u{85}' || c == '\u{a0}' || c
        == '\u{1680}' || ('\u{2000}' <= c && c <= '\u{200a}') || c == '\u{2028}' || c
        == '\u{2029}' || c == '\u{202f}' || c == '\u{205f}' || c == '\u{3000}'
}

/// `[start, end)` is the first run of characters of `text` that are not
/// white space: white space before it, none in it, and white space or the end
/// of the text after it.
pub open spec fn is_first_token(text: Seq<char>, start: int, end: int) -> bool {
    &&& 0 <= start < end <= text.len()
    &&& forall|i: int| 0 <= i < start ==> is_whitespace(#[trigger] text[i])
    &&& forall|i: int| start <= i < end ==> !is_whitespace(#[trigger] text[i])
    &&& end < text.len() ==> is_whitespace(text[end])
}

/// The text is white space throughout.
pub open spec fn is_blank(text: Seq<char>) -> bool {
    forall|i: int| 0 <= i < text.len() ==> is_whitespace(#[trigger] text[i])
}

/// The first run of characters of `text` that are not white space, as the
/// first item of `str::split_whitespace`; `None` for a blank text.
pub fn first_token(text: &str) -> (token: Option<(usize, usize)>)
    ensures
        token is None <==> is_blank(text@),
        token matches Some((start, end)) ==> is_first_token(text@, start as int, end as int),
{
    let t = chars_of(text);
    let mut start: usize = 0;
    while start < t.len() && is_space(t[start])
        invariant
            start <= t.len(),
            forall|i: int| 0 <= i < start ==> is_whitespace(#[trigger] t@[i]),
        decreases t.len() - start,
    {
        start += 1;
    }
    if start == t.len() {
        return None;
    }
    let mut end: usize = start + 1;
    while end < t.len() && !is_space(t[end])
        invariant
            start < end <= t.len(),
            forall|i: int| start <= i < end ==> !is_whitespace(#[trigger] t@[i]),
        decreases t.len() - end,
    {
        end += 1;
    }
    Some((start, end))
}

/// Why a text is no checksum, or a file not the one it belongs to.
#[derive(Clone, Copy, PartialEq, Eq, Debug, Structural)]
pub enum DigestError {
    /// The text holds nothing but white space.
    Empty,
    /// The checksum has an odd number of digits.
    OddLength,
    /// The checksum holds `c`, at byte `index`, which is no hexadecimal
    /// digit.
    InvalidHexCharacter { c: char, index: usize },
    /// The checksum does not have the length that was asked for.
    InvalidStringLength,
    /// The file has another checksum.
    Mismatch,
}

/// The value of a hexadecimal digit, in either case.
pub open spec fn hex_value(b: u8) -> Option<int> {
    if 0x30 <= b <= 0x39 {
        Some(b - 0x30)
    } else if 0x41 <= b <= 0x46 {
        Some(b - 0x41 + 10)
    } else if 0x61 <= b <= 0x66 {
        Some(b - 0x61 + 10)
    } else {
        None
    }
}

/// Every byte is a hexadecimal digit.
pub open spec fn all_hex(digits: Seq<u8>) -> bool {
    forall|i: int| 0 <= i < digits.len() ==> hex_value(#[trigger] digits[i]) is Some
}

/// The bytes that an even number of hexadecimal digits denote, two digits to
/// the byte, the high one first.
pub open spec fn hex_bytes(digits: Seq<u8>) -> Seq<u8> {
    Seq::new(
        digits.len() / 2,
        |i: int| (hex_value(digits[2 * i])->0 * 16 + hex_value(digits[2 * i + 1])->0) as u8,
    )
}

/// What decoding hexadecimal digits gives: the bytes, or the reason why
/// there are none. An odd number of digits is reported before any digit is
/// looked at; of the bytes that are no digits the first is reported.
pub open spec fn hex_decoded(digits: Seq<u8>, r: Result<Vec<u8>, DigestError>) -> bool {
    if digits.len() % 2 != 0 {
        r == Err::<Vec<u8>, DigestError>(DigestError::OddLength)
    } else if all_hex(digits) {
        r matches Ok(bytes) && bytes@ == hex_bytes(digits)
    } else {
        &&& r matches Err(DigestError::InvalidHexCharacter { c, index })
        &&& index < digits.len()
        &&& c == digits[index as int] as char
        &&& hex_value(digits[index as int]) is None
        &&& all_hex(digits.take(index as int))
    }
}

/// `hex::decode`: decodes hexadecimal digits as [`hex_decoded`] says.
#[verifier::external_body]
fn hex_decode(digits: &[u8]) -> (r: Result<Vec<u8>, DigestError>)
    ensures
        hex_decoded(digits@, r),
{
    match hex::decode(digits) {
        Ok(bytes) => Ok(bytes),
        Err(hex::FromHexError::OddLength) => Err(DigestError::OddLength),
        Err(hex::FromHexError::InvalidHexCharacter { c, index }) => Err(
            DigestError::InvalidHexCharacter { c, index },
        ),
        Err(hex::FromHexError::InvalidStringLength) => Err(DigestError::InvalidStringLength),
    }
}

/// The SHA-256 digest of a sequence of bytes.
pub uninterp spec fn sha256_of(data: Seq<u8>) -> Seq<u8>;

/// `Sha256::digest`: the SHA-256 digest of the data.
#[verifier::external_body]
fn sha256(data: &[u8]) -> (digest: Vec<u8>)
    ensures
        digest@ == sha256_of(data@),
{
    Sha256::digest(data).to_vec()
}

/// The SHA-256 digest of the content of a file.
pub fn compute_file_sha256(content: &[u8]) -> (digest: Vec<u8>)
    ensures
        digest@ == sha256_of(content@),
{
    sha256(content)
}

/// The checksum that the text of a checksum file gives: the first run of
/// characters that are not white space, read as hexadecimal digits. What
/// follows it, such as a file name, is ignored.
pub fn fetch_expected_sha256(text: &str) -> (r: Result<Vec<u8>, DigestError>)
    ensures
        is_blank(text@) ==> r == Err::<Vec<u8>, DigestError>(DigestError::Empty),
        !is_blank(text@) ==> exists|start: int, end: int|
            is_first_token(text@, start, end) && hex_decoded(
                vstd::utf8::encode_utf8(text@.subrange(start, end)),
                r,
            ),
{
    match first_token(text) {
        None => Err(DigestError::Empty),
        Some((start, end)) => {
            let token = text.substring_char(start, end);
            let digits = token.as_bytes();
            let r = hex_decode(digits);
            r
        },
    }
}

/// Is `expected` the SHA-256 digest of `content`?
pub fn verify_sha256(expected: &Vec<u8>, content: &[u8]) -> (r: Result<(), DigestError>)
    ensures
        r is Ok <==> expected@ == sha256_of(content@),
        r is Err ==> r == Err::<(), DigestError>(DigestError::Mismatch),
{
    let actual = compute_file_sha256(content);
    if same_bytes(expected, &actual) {
        Ok(())
    } else {
        Err(DigestError::Mismatch)
    }
}

fn same_bytes(a: &Vec<u8>, b: &Vec<u8>) -> (same: bool)
    ensures
        same == (a@ == b@),
{
    if a.len() != b.len() {
        return false;
    }
    let mut i: usize = 0;
    while i < a.len()
        invariant
            i <= a.len(),
            a.len() == b.len(),
            forall|j: int| 0 <= j < i ==> a@[j] == b@[j],
        decreases a.len() - i,
    {
        if a[i] != b[i] {
            return false;
        }
        i += 1;
    }
    assert(a@ =~= b@);
    true
}

/// The exit code of an installer that ended with `status`: its own, or
/// [`ABNORMAL_TERMINATION`] where it ended without one.
pub fn installer_exit_code(status: Option<i32>) -> (code: i32)
    ensures
        code == match status {
            Some(code) => code,
            None => ABNORMAL_TERMINATION,
        },
{
    match status {
        Some(code) => code,
        None => ABNORMAL_TERMINATION,
    }
}

/// How far the download came.
#[derive(Clone, Copy, PartialEq, Eq, Debug, Structural)]
pub enum InstallFlow {
    /// The installer could not be downloaded.
    DownloadFailed,
    /// The downloaded file is not the one that was published.
    VerifyFailed,
    /// The installer could not be started.
    SpawnFailed,
    /// The installer ran and ended with the given status.
    Installed { status: Option<i32> },
}

/// The exit code of the downloader, given how far the download came and
/// whether the downloaded file could not be removed.
pub open spec fn exit_code_of(flow: InstallFlow, cleanup_failed: bool) -> i32 {
    match flow {
        InstallFlow::Installed { status: Some(code) } => code,
        InstallFlow::Installed { status: None } => ABNORMAL_TERMINATION,
        _ => if cleanup_failed {
            ERR_CLEANUP
        } else {
            match flow {
                InstallFlow::DownloadFailed => ERR_DOWNLOAD,
                InstallFlow::VerifyFailed => ERR_VERIFY,
                _ => ERR_INSTALL_SPAWN,
            }
        },
    }
}

/// The code with which the downloader exits. The installer's own code comes
/// first, where it ran; else a failure to remove the downloaded file; else
/// the step at which the download failed.
pub fn run_install_flow(flow: InstallFlow, cleanup_failed: bool) -> (code: i32)
    ensures
        code == exit_code_of(flow, cleanup_failed),
{
    match flow {
        InstallFlow::Installed { status } => installer_exit_code(status),
        InstallFlow::DownloadFailed => if cleanup_failed {
            ERR_CLEANUP
        } else {
            ERR_DOWNLOAD
        },
        InstallFlow::VerifyFailed => if cleanup_failed {
            ERR_CLEANUP
        } else {
            ERR_VERIFY
        },
        InstallFlow::SpawnFailed => if cleanup_failed {
            ERR_CLEANUP
        } else {
            ERR_INSTALL_SPAWN
        },
    }
}

} // verus!
