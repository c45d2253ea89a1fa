//! Picking the media binaries out of a toolbox archive.  Unpacking the
//! archive is plain file I/O outside this library; these predicates decide,
//! for each entry name, whether it is one of the two binaries wanted, in
//! the form each platform's archive uses.

use vstd::prelude::*;
use crate::fingerprint::{lower_chars, lower_seq};
use crate::text::{
    chars_contain, chars_slice, find_char, first_char_from, match_at, seq_contains, str_eq,
    str_to_chars,
};

verus! {

/// Which of the two wanted binaries an archive entry is.
#[derive(Clone, Copy, Debug, PartialEq, Eq, Structural)]
pub enum BinaryKind {
    Ffmpeg,
    Ffprobe,
}

/// `h` ends with `n`.
pub open spec fn seq_ends_with(h: Seq<char>, n: Seq<char>) -> bool {
    match_at(h, n, h.len() - n.len())
}

/// Whether the haystack ends with the needle.
pub fn chars_end_with(h: &Vec<char>, n: &Vec<char>) -> (r: bool)
    ensures
        r == seq_ends_with(h@, n@),
{
    if n.len() > h.len() {
        return false;
    }
    crate::text::chars_match_at(h, n, h.len() - n.len())
}

/// The wanted binary a Windows archive entry holds: decided by the entry
/// name's `.exe` suffix.
pub fn wanted_windows_entry(name: &str) -> (r: Option<BinaryKind>)
    ensures
        r == (if seq_ends_with(name@, "ffmpeg.exe"@) {
            Some(BinaryKind::Ffmpeg)
        } else if seq_ends_with(name@, "ffprobe.exe"@) {
            Some(BinaryKind::Ffprobe)
        } else {
            None::<BinaryKind>
        }),
{
    let chars = str_to_chars(name);
    let ffmpeg = str_to_chars("ffmpeg.exe");
    if chars_end_with(&chars, &ffmpeg) {
        return Some(BinaryKind::Ffmpeg);
    }
    let ffprobe = str_to_chars("ffprobe.exe");
    if chars_end_with(&chars, &ffprobe) {
        return Some(BinaryKind::Ffprobe);
    }
    None
}

/// The part of a path after its last separator.
pub open spec fn spec_file_name(s: Seq<char>) -> Seq<char>
    decreases s.len(),
{
    let c = first_char_from(s, '/', 0);
    if 0 <= c < s.len() {
        spec_file_name(s.subrange(c + 1, s.len() as int))
    } else {
        s
    }
}

/// Takes the file name out of a path.
pub fn file_name_chars(path: &str) -> (r: Vec<char>)
    ensures
        r@ == spec_file_name(path@),
{
    let all = str_to_chars(path);
    let mut rest = all;
    loop
        invariant
            spec_file_name(rest@) == spec_file_name(path@),
        ensures
            rest@ == spec_file_name(path@),
        decreases rest@.len(),
    {
        let n = rest.len();
        match find_char(&rest, '/') {
            Some(c) => {
                let next = chars_slice(&rest, c + 1, n);
                rest = next;
            },
            None => {
                return rest;
            },
        }
    }
}

/// The wanted binary a Unix archive entry holds: its file name must be
/// exactly the binary's.
pub fn wanted_unix_entry(path: &str) -> (r: Option<BinaryKind>)
    ensures
        r == (if spec_file_name(path@) == "ffmpeg"@ {
            Some(BinaryKind::Ffmpeg)
        } else if spec_file_name(path@) == "ffprobe"@ {
            Some(BinaryKind::Ffprobe)
        } else {
            None::<BinaryKind>
        }),
{
    let name = file_name_chars(path);
    let name_s = crate::text::chars_to_string(&name);
    if str_eq(name_s.as_str(), "ffmpeg") {
        return Some(BinaryKind::Ffmpeg);
    }
    if str_eq(name_s.as_str(), "ffprobe") {
        return Some(BinaryKind::Ffprobe);
    }
    None
}

/// The wanted binary an unpacked entry holds on the platform whose archive
/// carries arbitrary names: the name, folded to lowercase, that mentions
/// the probe is the probe; one that mentions only the encoder is the
/// encoder.
pub fn wanted_macos_entry(file_name: &str) -> (r: Option<BinaryKind>)
    ensures
        ({
            let low = lower_seq(file_name@);
            r == (if seq_contains(low, "ffmpeg"@) && !seq_contains(low, "ffprobe"@) {
                Some(BinaryKind::Ffmpeg)
            } else if seq_contains(low, "ffprobe"@) {
                Some(BinaryKind::Ffprobe)
            } else {
                None::<BinaryKind>
            })
        }),
{
    let chars = str_to_chars(file_name);
    let low = lower_chars(&chars);
    let ffmpeg = str_to_chars("ffmpeg");
    let ffprobe = str_to_chars("ffprobe");
    let has_ffmpeg = chars_contain(&low, &ffmpeg);
    let has_ffprobe = chars_contain(&low, &ffprobe);
    if has_ffmpeg && !has_ffprobe {
        Some(BinaryKind::Ffmpeg)
    } else if has_ffprobe {
        Some(BinaryKind::Ffprobe)
    } else {
        None
    }
}

} // verus!
