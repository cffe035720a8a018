//! Where the daemon listens.
//!
//! The endpoint is derived from the daemon's data directory in the way the
//! daemon derives it: a socket file in the directory, or, on Windows, a named
//! pipe whose name carries a hash of the directory's path.

use crate::json::{get_str, json_of, member_text};
use crate::text::{chars_of, string_of};
use vstd::prelude::*;
use vstd::string::{StringExecFns, StringSliceAdditionalSpecFns};

verus! {

/// The data directory that a configuration names: its text member
/// `dataDir`, or `./swarmfs-data` where it has none.
pub fn data_dir_setting(cfg: &serde_json::Value) -> (r: String)
    ensures
        r@ == match member_text(json_of(*cfg), "dataDir"@) {
            Some(dir) => dir,
            None => "./swarmfs-data"@,
        },
{
    match get_str(cfg, "dataDir") {
        Some(dir) => dir.to_owned(),
        None => "./swarmfs-data".to_owned(),
    }
}

/// The SHA-256 digest of a sequence of bytes.
pub uninterp spec fn sha256(data: Seq<u8>) -> Seq<u8>;

/// The hexadecimal digit of a number below sixteen, in lower case.
pub open spec fn hex_digit(d: int) -> char {
    if d < 10 {
        (('0' as u8) + d) as char
    } else {
        (('a' as u8) + d - 10) as char
    }
}

/// The bytes written in hexadecimal, two lower-case digits each.
pub open spec fn hex_text(bytes: Seq<u8>) -> Seq<char> {
    Seq::new(
        2 * bytes.len(),
        |i: int| if i % 2 == 0 {
            hex_digit(bytes[i / 2] as int / 16)
        } else {
            hex_digit(bytes[i / 2] as int % 16)
        },
    )
}

/// `sha2::Sha256::digest`: the SHA-256 digest, which has 32 bytes.
#[verifier::external_body]
pub(crate) fn sha256_digest(data: &[u8]) -> (r: Vec<u8>)
    ensures
        r@ == sha256(data@),
        r@.len() == 32,
{
    <sha2::Sha256 as sha2::Digest>::digest(data).to_vec()
}

/// `hex::encode`: each byte as two hexadecimal digits in lower case.
#[verifier::external_body]
pub(crate) fn hex_encode(bytes: &Vec<u8>) -> (r: String)
    ensures
        r@ == hex_text(bytes@),
{
    hex::encode(bytes)
}

/// The first sixteen hexadecimal digits of a digest of at least eight bytes.
pub fn hex_head16(digest: &Vec<u8>) -> (r: String)
    requires
        digest@.len() >= 8,
    ensures
        r@ == hex_text(digest@).take(16),
{
    let digits = chars_of(hex_encode(digest).as_str());
    let mut head: Vec<char> = Vec::new();
    let mut i: usize = 0;
    while i < 16
        invariant
            i <= 16,
            digits@.len() >= 16,
            head@ == digits@.take(i as int),
        decreases 16 - i,
    {
        head.push(digits[i]);
        assert(head@ =~= digits@.take(i + 1));
        i += 1;
    }
    string_of(&head)
}

/// The first sixteen hexadecimal digits of the SHA-256 digest of `s`.
pub fn stable_hash16(s: &str) -> (r: String)
    ensures
        r@ == hex_text(sha256(s.spec_bytes())).take(16),
{
    let digest = sha256_digest(s.as_bytes());
    hex_head16(&digest)
}

/// `path` without the verbatim prefix `\\?\` that Windows puts in front of
/// a canonical path.
pub open spec fn without_verbatim_prefix(path: Seq<char>) -> Seq<char> {
    if "\\\\?\\"@.is_prefix_of(path) {
        path.skip(4)
    } else {
        path
    }
}

/// Strips the verbatim prefix from a canonical Windows path, so that the
/// path hashes as the daemon hashes it.
pub fn windows_hash_path_string(canonical: &str) -> (r: String)
    ensures
        r@ == without_verbatim_prefix(canonical@),
{
    proof {
        reveal_strlit("\\\\?\\");
    }
    if crate::text::has_prefix(canonical, "\\\\?\\") {
        let chars = chars_of(canonical);
        let mut rest: Vec<char> = Vec::new();
        let mut i: usize = 4;
        while i < chars.len()
            invariant
                4 <= i <= chars.len(),
                rest@ == chars@.subrange(4, i as int),
            decreases chars.len() - i,
        {
            rest.push(chars[i]);
            assert(rest@ =~= chars@.subrange(4, i + 1));
            i += 1;
        }
        assert(chars@.subrange(4, chars.len() as int) =~= chars@.skip(4));
        string_of(&rest)
    } else {
        canonical.to_owned()
    }
}

/// The path of the socket file in `data_dir`: the directory and the file
/// name with one `/` between them, or the file name alone for the empty
/// directory.
pub open spec fn socket_path(data_dir: Seq<char>) -> Seq<char> {
    if data_dir.len() == 0 {
        "swarmfs.sock"@
    } else if data_dir.last() == '/' {
        data_dir + "swarmfs.sock"@
    } else {
        data_dir + "/"@ + "swarmfs.sock"@
    }
}

/// The endpoint of the daemon whose data directory is `data_dir`.
///
/// On Windows it is the named pipe `\\.\pipe\swarmfs-` followed by
/// `stable_hash16` of the directory's path; `data_dir` is then that path as
/// `windows_hash_path_string` gives it. Elsewhere it is the socket file
/// `swarmfs.sock` in the directory.
pub fn ipc_endpoint(data_dir: &str, windows: bool) -> (r: String)
    ensures
        r@ == if windows {
            "\\\\.\\pipe\\swarmfs-"@ + hex_text(sha256(data_dir.spec_bytes())).take(16)
        } else {
            socket_path(data_dir@)
        },
{
    if windows {
        let hash = stable_hash16(data_dir);
        "\\\\.\\pipe\\swarmfs-".to_owned().concat(hash.as_str())
    } else {
        let chars = chars_of(data_dir);
        if chars.len() == 0 {
            "swarmfs.sock".to_owned()
        } else if chars[chars.len() - 1] == '/' {
            data_dir.to_owned().concat("swarmfs.sock")
        } else {
            data_dir.to_owned().concat("/").concat("swarmfs.sock")
        }
    }
}

} // verus!
