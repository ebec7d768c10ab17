//! Parsing of the device listing that locates the touchpad.
//!
//! The device lister prints one block per input device; a block's header
//! line contains `Device:` and, for the device of interest, `Touchpad`, and
//! the line after the header names the kernel event node behind a
//! `Kernel:` prefix. Running the lister and capturing its output is the
//! surrounding program's job; this module finds the kernel path in the
//! captured lines.

use vstd::prelude::*;
use vstd::string::StrSliceExecFns;
use crate::events::{char_is_trim_whitespace, contains_seq, is_trim_whitespace, str_contains};

verus! {

/// `s` with leading white space dropped.
pub open spec fn trim_start(s: Seq<char>) -> Seq<char>
    decreases s.len(),
{
    if s.len() == 0 {
        s
    } else if is_trim_whitespace(s[0]) {
        trim_start(s.skip(1))
    } else {
        s
    }
}

/// `s` with trailing white space dropped.
pub open spec fn trim_end(s: Seq<char>) -> Seq<char>
    decreases s.len(),
{
    if s.len() == 0 {
        s
    } else if is_trim_whitespace(s.last()) {
        trim_end(s.drop_last())
    } else {
        s
    }
}

/// `s` with white space dropped from both ends.
pub open spec fn trimmed(s: Seq<char>) -> Seq<char> {
    trim_end(trim_start(s))
}

/// `prefix` is a prefix of `s`.
pub open spec fn starts_with(s: Seq<char>, prefix: Seq<char>) -> bool {
    prefix.len() <= s.len() && (forall|k: int|
        0 <= k < prefix.len() ==> s[k] == #[trigger] prefix[k])
}

/// Trim both ends of a line (see [`trimmed`]).
pub fn str_trim<'a>(s: &'a str) -> (r: &'a str)
    ensures
        r@ == trimmed(s@),
{
    let n: usize = s.unicode_len();
    let mut a: usize = 0;
    proof {
        assert(s@.skip(0) =~= s@);
    }
    while a < n && char_is_trim_whitespace(s.get_char(a))
        invariant
            a <= n,
            n == s@.len(),
            trim_start(s@) == trim_start(s@.skip(a as int)),
        decreases n - a,
    {
        proof {
            assert(s@.skip(a as int)[0] == s@[a as int]);
            assert(s@.skip(a as int).skip(1) =~= s@.skip(a as int + 1));
        }
        a = a + 1;
    }
    proof {
        if a < n {
            assert(s@.skip(a as int)[0] == s@[a as int]);
        }
        assert(trim_start(s@) =~= s@.subrange(a as int, n as int));
    }
    let mut b: usize = n;
    while b > a && char_is_trim_whitespace(s.get_char(b - 1))
        invariant
            a <= b <= n,
            n == s@.len(),
            trim_start(s@) == s@.subrange(a as int, n as int),
            trimmed(s@) == trim_end(s@.subrange(a as int, b as int)),
        decreases b,
    {
        proof {
            assert(s@.subrange(a as int, b as int).last() == s@[b as int - 1]);
            assert(s@.subrange(a as int, b as int).drop_last() =~= s@.subrange(
                a as int,
                b as int - 1,
            ));
        }
        b = b - 1;
    }
    proof {
        if b > a {
            assert(s@.subrange(a as int, b as int).last() == s@[b as int - 1]);
        }
        assert(trimmed(s@) == s@.subrange(a as int, b as int));
    }
    s.substring_char(a, b)
}

/// Does `s` begin with `prefix`?
pub fn str_starts_with(s: &str, prefix: &str) -> (r: bool)
    ensures
        r == starts_with(s@, prefix@),
{
    let m: usize = s.unicode_len();
    let n: usize = prefix.unicode_len();
    if n > m {
        return false;
    }
    let mut k: usize = 0;
    while k < n
        invariant
            n <= m,
            m == s@.len(),
            n == prefix@.len(),
            k <= n,
            forall|q: int| 0 <= q < k ==> s@[q] == #[trigger] prefix@[q],
        decreases n - k,
    {
        if s.get_char(k) != prefix.get_char(k) {
            proof {
                assert(!starts_with(s@, prefix@)) by {
                    if starts_with(s@, prefix@) {
                        assert(s@[k as int] == prefix@[k as int]);
                    }
                }
            }
            return false;
        }
        k = k + 1;
    }
    true
}

/// A block-header line of the listing that names a touchpad.
pub open spec fn is_device_line(s: Seq<char>) -> bool {
    contains_seq(s, "Device:"@) && contains_seq(s, "Touchpad"@)
}

/// The kernel path a line carries: its trimmed text must begin with
/// `Kernel:`, and the path is what follows, trimmed again.
pub open spec fn kernel_path_of(next: Seq<char>) -> Option<Seq<char>> {
    let t = trimmed(next);
    if starts_with(t, "Kernel:"@) {
        Some(trimmed(t.skip("Kernel:"@.len() as int)))
    } else {
        None
    }
}

/// The first index at or after `j` whose line equals `v`, or `lines.len()`.
pub open spec fn first_eq_from(lines: Seq<Seq<char>>, v: Seq<char>, j: int) -> int
    decreases lines.len() - j,
{
    if j >= lines.len() {
        j
    } else if lines[j] == v {
        j
    } else {
        first_eq_from(lines, v, j + 1)
    }
}

/// The line examined for the header at index `i`: the one after the first
/// line equal to it (the listing is walked from the top for each header).
pub open spec fn candidate_path(lines: Seq<Seq<char>>, i: int) -> Option<Seq<char>> {
    let j = first_eq_from(lines, lines[i], 0);
    if j + 1 < lines.len() {
        kernel_path_of(lines[j + 1])
    } else {
        None
    }
}

/// The kernel path the listing yields, scanning headers from index `i` on.
pub open spec fn find_from(lines: Seq<Seq<char>>, i: int) -> Option<Seq<char>>
    decreases lines.len() - i,
{
    if i >= lines.len() {
        None
    } else if is_device_line(lines[i]) && candidate_path(lines, i) is Some {
        candidate_path(lines, i)
    } else {
        find_from(lines, i + 1)
    }
}

/// The views of a sequence of owned lines.
pub open spec fn line_views(lines: Seq<String>) -> Seq<Seq<char>> {
    lines.map_values(|l: String| l@)
}

/// The kernel path the whole listing yields.
pub open spec fn kernel_path_in(lines: Seq<String>) -> Option<Seq<char>> {
    find_from(line_views(lines), 0)
}

proof fn lemma_first_eq_from_step(lines: Seq<Seq<char>>, v: Seq<char>, p: int, j: int)
    requires
        0 <= p <= j < lines.len(),
        lines[j] == v,
        forall|q: int| p <= q < j ==> lines[q] != v,
    ensures
        first_eq_from(lines, v, p) == j,
    decreases j - p,
{
    if p < j {
        lemma_first_eq_from_step(lines, v, p + 1, j);
    }
}

/// Find the touchpad's kernel event node in the captured listing lines:
/// the line after a `Device:`/`Touchpad` header, once it is trimmed and
/// stripped of its `Kernel:` prefix.
pub fn find_kernel_path(lines: &Vec<String>) -> (r: Option<String>)
    ensures
        match r {
            Some(path) => kernel_path_in(lines@) == Some(path@),
            None => kernel_path_in(lines@) is None,
        },
{
    let ghost views = line_views(lines@);
    let n: usize = lines.len();
    let mut i: usize = 0;
    while i < n
        invariant
            n == lines@.len(),
            i <= n,
            views == line_views(lines@),
            views.len() == n,
            find_from(views, 0) == find_from(views, i as int),
        decreases n - i,
    {
        let li: &String = &lines[i];
        proof {
            assert(views[i as int] == li@);
        }
        if str_contains(li.as_str(), "Device:") && str_contains(li.as_str(), "Touchpad") {
            let mut j: usize = 0;
            while j < i && !(lines[j] == *li)
                invariant
                    j <= i < n,
                    n == lines@.len(),
                    views == line_views(lines@),
                    views.len() == n,
                    li@ == views[i as int],
                    forall|q: int| 0 <= q < j ==> views[q] != li@,
                decreases i - j,
            {
                proof {
                    assert(views[j as int] == lines@[j as int]@);
                }
                j = j + 1;
            }
            proof {
                assert(views[j as int] == lines@[j as int]@);
                assert(views[j as int] == li@);
                lemma_first_eq_from_step(views, li@, 0, j as int);
            }
            if j + 1 < n {
                let next: &String = &lines[j + 1];
                proof {
                    assert(views[j as int + 1] == next@);
                }
                let t = str_trim(next.as_str());
                if str_starts_with(t, "Kernel:") {
                    proof {
                        reveal_strlit("Kernel:");
                    }
                    let rest = t.substring_char(7, t.unicode_len());
                    let path = str_trim(rest);
                    proof {
                        assert(rest@ =~= trimmed(next@).skip("Kernel:"@.len() as int));
                        assert(kernel_path_of(views[j as int + 1]) == Some(path@));
                        assert(candidate_path(views, i as int) == Some(path@));
                        assert(find_from(views, i as int) == Some(path@));
                    }
                    return Some(path.to_owned());
                }
            }
            proof {
                assert(candidate_path(views, i as int) is None);
                assert(find_from(views, i as int) == find_from(views, i as int + 1));
            }
        } else {
            proof {
                assert(!is_device_line(views[i as int]));
                assert(find_from(views, i as int) == find_from(views, i as int + 1));
            }
        }
        i = i + 1;
    }
    None
}

} // verus!
