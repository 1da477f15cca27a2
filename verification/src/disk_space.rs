//! Filesystem capacity: path resolution, path encoding checks, and the
//! arithmetic that turns raw block counts into byte counts.
//!
//! The operating-system statistics calls themselves are made by the host;
//! the functions here decide which path is queried, whether it can be
//! encoded for the call, and what the raw counts mean.

use crate::text::decimal_rep;
use crate::text::find_char;
use crate::text::option_text_view;
use crate::text::find_char_at;
use crate::text::lemma_find_char_at;
use crate::text::u64_to_decimal;
use vstd::prelude::*;
use vstd::string::StrSliceExecFns;
use vstd::string::StringExecFns;

verus! {

/// Free and total capacity of a filesystem, in bytes.
#[derive(Clone, Copy, Debug, PartialEq, Eq, Structural)]
pub struct DiskSpace {
    /// Bytes available to the calling user.
    pub available: u64,
    /// Total bytes of the filesystem.
    pub total: u64,
}

/// The error text when no home directory can be determined.
pub open spec fn home_error_text() -> Seq<char> {
    "Unable to determine home directory"@
}

/// The error text when the statistics call itself reports failure.
pub open spec fn disk_call_error_text() -> Seq<char> {
    "Failed to get disk space"@
}

/// The error text for a path that cannot be encoded for the statistics
/// call because a nul byte sits at position `pos`.
pub open spec fn invalid_path_error_text(pos: int) -> Seq<char> {
    "Invalid path: nul byte found in provided data at position: "@ + decimal_rep(pos)
}

/// The path a capacity query goes to: the given path when one is given,
/// otherwise the home directory, otherwise an error.
pub open spec fn resolved_path(path: Seq<char>, home: Option<Seq<char>>) -> Result<
    Seq<char>,
    Seq<char>,
> {
    if path.len() > 0 {
        Ok(path)
    } else {
        match home {
            Some(h) => Ok(h),
            None => Err(home_error_text()),
        }
    }
}

/// Relies on `dirs::home_dir`: the caller's home directory, when the
/// platform can determine one, converted lossily to text.
#[verifier::external_body]
fn home_dir_string() -> (r: Option<String>) {
    dirs::home_dir().map(|p| p.to_string_lossy().to_string())
}

/// Substitutes `home` for an empty `path`; an empty path with no home
/// directory to fall back on is an error.
pub fn resolve_target_path_with(path: String, home: Option<String>) -> (r: Result<String, String>)
    ensures
        r is Ok <==> resolved_path(path@, option_text_view(home)) is Ok,
        r is Ok ==> r->Ok_0@ == resolved_path(path@, option_text_view(home))->Ok_0,
        r is Err ==> r->Err_0@ == resolved_path(path@, option_text_view(home))->Err_0,
{
    if path.as_str().is_empty() {
        match home {
            Some(h) => Ok(h),
            None => Err("Unable to determine home directory".to_owned()),
        }
    } else {
        Ok(path)
    }
}

/// The path a capacity query for `path` goes to, with the home directory
/// resolved by the platform substituted for an empty path.
pub fn resolve_target_path(path: String) -> (r: Result<String, String>)
    ensures
        path@.len() > 0 ==> r is Ok && r->Ok_0@ == path@,
        path@.len() == 0 && r is Err ==> r->Err_0@ == home_error_text(),
{
    let home: Option<String> = home_dir_string();
    resolve_target_path_with(path, home)
}

/// Checks that `path` can become a C string for the POSIX statistics call:
/// a nul character anywhere inside is an encoding error, reported with the
/// position of its first occurrence.
pub fn validate_posix_path(path: &str) -> (r: Result<(), String>)
    ensures
        r is Ok <==> !path@.contains('\0'),
        r is Err ==> r->Err_0@ == invalid_path_error_text(find_char_at(path@, '\0')),
{
    let n: usize = path.unicode_len();
    let pos: usize = find_char(path, '\0');
    proof {
        lemma_find_char_at(path@, '\0');
        if path@.contains('\0') {
            let w = choose|j: int| 0 <= j < path@.len() && path@[j] == '\0';
            assert(find_char_at(path@, '\0') <= w);
        }
    }
    if pos == n {
        Ok(())
    } else {
        let msg: String = "Invalid path: nul byte found in provided data at position: ".to_owned();
        let num: String = u64_to_decimal(pos as u64);
        Err(msg.concat(num.as_str()))
    }
}

/// Combines the block counts and fragment size reported by a POSIX
/// filesystem-statistics call into byte counts. Real filesystems stay far
/// below the 64-bit range, so the products are required not to overflow.
pub fn disk_space_from_statvfs(f_bavail: u64, f_frsize: u64, f_blocks: u64) -> (r: DiskSpace)
    requires
        f_bavail * f_frsize <= u64::MAX,
        f_blocks * f_frsize <= u64::MAX,
    ensures
        r.available == f_bavail * f_frsize,
        r.total == f_blocks * f_frsize,
        f_bavail <= f_blocks ==> r.available <= r.total,
{
    proof {
        if f_bavail <= f_blocks {
            vstd::arithmetic::mul::lemma_mul_inequality(
                f_bavail as int,
                f_blocks as int,
                f_frsize as int,
            );
        }
    }
    DiskSpace { available: f_bavail * f_frsize, total: f_blocks * f_frsize }
}

/// The UTF-16 code units of a character: the code point itself below
/// 0x10000, a surrogate pair from there up.
pub open spec fn utf16_units(c: char) -> Seq<u16> {
    let u = c as int;
    if u < 0x10000 {
        seq![u as u16]
    } else {
        seq![(0xD800 + (u - 0x10000) / 0x400) as u16, (0xDC00 + (u - 0x10000) % 0x400) as u16]
    }
}

/// The UTF-16 encoding of a character sequence.
pub open spec fn utf16_encode(s: Seq<char>) -> Seq<u16>
    decreases s.len(),
{
    if s.len() == 0 {
        Seq::empty()
    } else {
        utf16_encode(s.drop_last()) + utf16_units(s.last())
    }
}

/// Encodes `path` as the null-terminated UTF-16 buffer the Windows
/// free-space query takes.
pub fn encode_utf16_nul(path: &str) -> (r: Vec<u16>)
    ensures
        r@ == utf16_encode(path@).push(0u16),
{
    let n: usize = path.unicode_len();
    let mut v: Vec<u16> = Vec::new();
    let mut i: usize = 0;
    proof {
        assert(path@.take(0) =~= Seq::<char>::empty());
    }
    while i < n
        invariant
            n == path@.len(),
            i <= n,
            v@ == utf16_encode(path@.take(i as int)),
        decreases n - i,
    {
        let c: char = path.get_char(i);
        let u: u32 = c as u32;
        if u < 0x10000 {
            v.push(u as u16);
        } else {
            v.push((0xD800 + (u - 0x10000) / 0x400) as u16);
            v.push((0xDC00 + (u - 0x10000) % 0x400) as u16);
        }
        proof {
            assert(path@.take(i as int + 1).drop_last() =~= path@.take(i as int));
            assert(path@.take(i as int + 1).last() == path@[i as int]);
            assert(v@ =~= utf16_encode(path@.take(i as int + 1)));
        }
        i = i + 1;
    }
    proof {
        assert(path@.take(n as int) =~= path@);
    }
    v.push(0u16);
    v
}

/// The byte counts reported by the Windows free-space query, taken as they
/// come: free bytes available to the caller, and total bytes.
pub fn disk_space_from_windows(free_bytes_available: u64, total_bytes: u64) -> (r: DiskSpace)
    ensures
        r.available == free_bytes_available,
        r.total == total_bytes,
        free_bytes_available <= total_bytes ==> r.available <= r.total,
{
    DiskSpace { available: free_bytes_available, total: total_bytes }
}

/// The error returned when the platform statistics call reports failure.
pub fn disk_call_error() -> (r: String)
    ensures
        r@ == disk_call_error_text(),
{
    "Failed to get disk space".to_owned()
}

/// An unencodable path is reported as an encoding failure, never as a
/// platform-call failure: the two messages differ, whatever the position
/// of the offending character.
pub proof fn lemma_encoding_error_distinct(pos: int)
    ensures
        invalid_path_error_text(pos) != disk_call_error_text(),
{
    reveal_strlit("Invalid path: nul byte found in provided data at position: ");
    reveal_strlit("Failed to get disk space");
    assert(decimal_rep(pos).len() >= 1);
    assert(invalid_path_error_text(pos).len() != disk_call_error_text().len());
}

/// A query with an empty path goes exactly where a query with the resolved
/// home directory path goes: substituting the home directory changes the
/// target of the statistics call, never its meaning.
pub proof fn lemma_empty_path_uses_home(h: Seq<char>, other_home: Option<Seq<char>>)
    requires
        h.len() > 0,
    ensures
        resolved_path(Seq::<char>::empty(), Some(h)) == resolved_path(h, other_home),
        resolved_path(Seq::<char>::empty(), Some(h)) == Ok::<Seq<char>, Seq<char>>(h),
{
}

/// A query with an empty path succeeds in resolving its target if and only
/// if a home directory is available.
pub proof fn lemma_empty_path_needs_home(home: Option<Seq<char>>)
    ensures
        resolved_path(Seq::<char>::empty(), home) is Ok <==> home is Some,
        home is None ==> resolved_path(Seq::<char>::empty(), home) == Err::<Seq<char>, Seq<char>>(
            home_error_text(),
        ),
{
}

} // verus!
