//! The identifier extractor: pulls a four-character vendor id and product id
//! out of an OS device-path string, when present.

use vstd::prelude::*;

use crate::text::find_first;
use crate::text::lemma_find_from_some;
use crate::text::lower_of;
use crate::text::lowercase;
use crate::text::find_token;

verus! {

/// The four characters that follow the first occurrence of `token` in
/// `source`, or nothing if the token is absent or fewer than four
/// characters follow it.
pub open spec fn segment_after(source: Seq<char>, token: Seq<char>) -> Option<Seq<char>> {
    match find_first(source, token) {
        Some(i) => {
            let start = i + token.len();
            if start + 4 <= source.len() {
                Some(source.subrange(start, start + 4))
            } else {
                None
            }
        },
        None => None,
    }
}

/// The view of an optional string.
pub open spec fn seq_of_opt(o: Option<String>) -> Option<Seq<char>> {
    match o {
        Some(s) => Some(s@),
        None => None,
    }
}

/// The `(vendor_id, product_id)` pair that an optional device path yields:
/// each id is the four-character segment after `vid_` / `pid_` in the
/// case-folded path, independently of the other.
pub open spec fn parsed_ids(path: Option<Seq<char>>) -> (Option<Seq<char>>, Option<Seq<char>>) {
    match path {
        Some(p) => (segment_after(lower_of(p), "vid_"@), segment_after(lower_of(p), "pid_"@)),
        None => (None, None),
    }
}

/// Takes the four characters that follow the first occurrence of `token`;
/// fewer than four remaining characters count as not found.
pub fn extract_segment(source: &str, token: &str) -> (r: Option<String>)
    requires
        token@.len() >= 1,
    ensures
        seq_of_opt(r) == segment_after(source@, token@),
{
    let slen: usize = source.unicode_len();
    let tlen: usize = token.unicode_len();
    match find_token(source, token) {
        Some(i) => {
            proof {
                lemma_find_from_some(source@, token@, 0, i as int);
            }
            let start: usize = i + tlen;
            if slen - start >= 4 {
                let seg = source.substring_char(start, start + 4).to_owned();
                Some(seg)
            } else {
                None
            }
        },
        None => None,
    }
}

/// Derives the optional vendor-id/product-id pair from an optional device
/// path, as the extractor contract states: fold case, then take the four
/// characters after `vid_` and after `pid_`, each independently.
pub fn parse_vid_pid(device_path: Option<&str>) -> (r: (Option<String>, Option<String>))
    ensures
        device_path is Some ==> (
            seq_of_opt(r.0),
            seq_of_opt(r.1),
        ) == parsed_ids(Some(device_path->0@)),
        device_path is None ==> r.0 is None && r.1 is None,
{
    match device_path {
        Some(path) => {
            proof {
                reveal_strlit("vid_");
                reveal_strlit("pid_");
            }
            let lowered = lowercase(path);
            let vid = extract_segment(lowered.as_str(), "vid_");
            let pid = extract_segment(lowered.as_str(), "pid_");
            (vid, pid)
        },
        None => (None, None),
    }
}

} // verus!
