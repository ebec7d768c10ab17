//! Classification of decoder lines.
//!
//! The gesture decoder prints one loosely structured text line per event.
//! Everything the state machine needs from a line is captured by
//! [`GestureEvent`]: which gesture notification it is, its trailing finger
//! count, and whether a hold end was cancelled.

use vstd::prelude::*;
use vstd::string::StrSliceExecFns;

verus! {

/// A decoder line, reduced to the variants the state machine reacts to.
#[derive(Clone, Copy, Debug, PartialEq, Eq)]
pub enum GestureEvent {
    /// A hold gesture began; `fingers` is the line's trailing digit, if any.
    HoldBegin { fingers: Option<u32> },
    /// A hold gesture ended; `cancelled` marks the ambiguous variant.
    HoldEnd { fingers: Option<u32>, cancelled: bool },
    /// A pointer-scroll-with-fingers sample.
    ScrollFinger,
    /// Any other line the decoder prints, benign chatter included.
    Other,
}

/// The characters that trimming a line removes (the Unicode white-space set).
pub open spec fn is_trim_whitespace(c: char) -> bool {
    (0x09 <= c as u32 && c as u32 <= 0x0D) || c as u32 == 0x20 || c as u32 == 0x85
        || c as u32 == 0xA0 || c as u32 == 0x1680
        || (0x2000 <= c as u32 && c as u32 <= 0x200A)
        || c as u32 == 0x2028 || c as u32 == 0x2029 || c as u32 == 0x202F
        || c as u32 == 0x205F || c as u32 == 0x3000
}

pub(crate) fn char_is_trim_whitespace(c: char) -> (r: bool)
    ensures
        r == is_trim_whitespace(c),
{
    let v = c as u32;
    (0x09 <= v && v <= 0x0D) || v == 0x20 || v == 0x85 || v == 0xA0 || v == 0x1680
        || (0x2000 <= v && v <= 0x200A) || v == 0x2028 || v == 0x2029 || v == 0x202F
        || v == 0x205F || v == 0x3000
}

/// The value of a decimal digit character, `None` for any other character.
pub open spec fn digit_value(c: char) -> Option<u32> {
    if 0x30 <= c as u32 && c as u32 <= 0x39 {
        Some((c as u32 - 0x30) as u32)
    } else {
        None
    }
}

fn char_digit_value(c: char) -> (r: Option<u32>)
    ensures
        r == digit_value(c),
{
    let v = c as u32;
    if 0x30 <= v && v <= 0x39 {
        Some(v - 0x30)
    } else {
        None
    }
}

/// The last character of `s` once trailing white space is dropped, i.e. the
/// last character of the trimmed line.
pub open spec fn last_content_char(s: Seq<char>) -> Option<char>
    decreases s.len(),
{
    if s.len() == 0 {
        None
    } else if is_trim_whitespace(s.last()) {
        last_content_char(s.drop_last())
    } else {
        Some(s.last())
    }
}

/// The finger count carried by a decoder line: the trailing decimal digit of
/// the trimmed line, or `None` when the line ends in no digit.
pub open spec fn finger_count_of(s: Seq<char>) -> Option<u32> {
    match last_content_char(s) {
        Some(c) => digit_value(c),
        None => None,
    }
}

/// Extract the finger count of a decoder line (see [`finger_count_of`]).
pub fn extract_finger_count(line: &str) -> (r: Option<u32>)
    ensures
        r == finger_count_of(line@),
{
    let n: usize = line.unicode_len();
    proof {
        assert(line@.subrange(0, n as int) =~= line@);
    }
    let mut i: usize = n;
    while i > 0
        invariant
            i <= n,
            n == line@.len(),
            last_content_char(line@) == last_content_char(line@.subrange(0, i as int)),
        decreases i,
    {
        let c = line.get_char(i - 1);
        if !char_is_trim_whitespace(c) {
            proof {
                assert(line@.subrange(0, i as int).last() == c);
            }
            return char_digit_value(c);
        }
        proof {
            assert(line@.subrange(0, i as int).last() == c);
            assert(line@.subrange(0, i as int).drop_last() =~= line@.subrange(0, i as int - 1));
        }
        i = i - 1;
    }
    proof {
        assert(line@.subrange(0, 0).len() == 0);
    }
    None
}

/// `needle` occurs in `hay` starting at position `i`.
pub open spec fn match_at(hay: Seq<char>, needle: Seq<char>, i: int) -> bool {
    0 <= i && i + needle.len() <= hay.len() && (forall|k: int|
        0 <= k < needle.len() ==> hay[i + k] == #[trigger] needle[k])
}

/// `needle` occurs somewhere in `hay` (substring containment).
pub open spec fn contains_seq(hay: Seq<char>, needle: Seq<char>) -> bool {
    exists|i: int| match_at(hay, needle, i)
}

/// Substring search: does `needle` occur anywhere in `hay`?
pub fn str_contains(hay: &str, needle: &str) -> (r: bool)
    ensures
        r == contains_seq(hay@, needle@),
{
    let h: usize = hay.unicode_len();
    let n: usize = needle.unicode_len();
    if n > h {
        proof {
            assert forall|p: int| !match_at(hay@, needle@, p) by {}
        }
        return false;
    }
    let mut i: usize = 0;
    while i <= h - n
        invariant
            n <= h,
            h == hay@.len(),
            n == needle@.len(),
            i <= h - n + 1,
            forall|p: int| 0 <= p < i ==> !match_at(hay@, needle@, p),
        decreases h - n + 1 - i,
    {
        let mut j: usize = 0;
        let mut matched: bool = true;
        while matched && j < n
            invariant
                n <= h,
                h == hay@.len(),
                n == needle@.len(),
                i + n <= h,
                j <= n,
                matched ==> forall|k: int| 0 <= k < j ==> hay@[i + k] == #[trigger] needle@[k],
                !matched ==> !match_at(hay@, needle@, i as int),
            decreases n - j + (if matched { 1int } else { 0int }),
        {
            let hc = hay.get_char(i + j);
            let nc = needle.get_char(j);
            if hc != nc {
                proof {
                    assert(!match_at(hay@, needle@, i as int)) by {
                        if match_at(hay@, needle@, i as int) {
                            assert(hay@[i as int + j as int] == needle@[j as int]);
                        }
                    }
                }
                matched = false;
            } else {
                j = j + 1;
            }
        }
        if matched {
            proof {
                assert(match_at(hay@, needle@, i as int));
            }
            return true;
        }
        i = i + 1;
    }
    proof {
        assert forall|p: int| !match_at(hay@, needle@, p) by {
            if 0 <= p < i as int {
                assert(!match_at(hay@, needle@, p));
            }
        }
    }
    false
}

/// How a raw decoder line classifies, in the priority order the line's
/// vocabulary is checked: hold begin, hold end, scroll sample, anything else.
pub open spec fn classify(s: Seq<char>) -> GestureEvent {
    if contains_seq(s, "GESTURE_HOLD_BEGIN"@) {
        GestureEvent::HoldBegin { fingers: finger_count_of(s) }
    } else if contains_seq(s, "GESTURE_HOLD_END"@) {
        GestureEvent::HoldEnd {
            fingers: finger_count_of(s),
            cancelled: contains_seq(s, "cancelled"@),
        }
    } else if contains_seq(s, "POINTER_SCROLL_FINGER"@) {
        GestureEvent::ScrollFinger
    } else {
        GestureEvent::Other
    }
}

/// Classify one decoder line (see [`classify`]).
pub fn classify_line(line: &str) -> (ev: GestureEvent)
    ensures
        ev == classify(line@),
{
    if str_contains(line, "GESTURE_HOLD_BEGIN") {
        GestureEvent::HoldBegin { fingers: extract_finger_count(line) }
    } else if str_contains(line, "GESTURE_HOLD_END") {
        let cancelled = str_contains(line, "cancelled");
        GestureEvent::HoldEnd { fingers: extract_finger_count(line), cancelled }
    } else if str_contains(line, "POINTER_SCROLL_FINGER") {
        GestureEvent::ScrollFinger
    } else {
        GestureEvent::Other
    }
}

} // verus!
