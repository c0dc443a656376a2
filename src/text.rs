//! Searching text.
use vstd::prelude::*;

verus! {

/// `needle` occurs in `hay` starting at `i`.
pub open spec fn occurs_at(hay: Seq<char>, needle: Seq<char>, i: int) -> bool {
    0 <= i && i + needle.len() <= hay.len() && hay.subrange(i, i + needle.len()) == needle
}

/// `needle` occurs somewhere in `hay`.
pub open spec fn has_substring(hay: Seq<char>, needle: Seq<char>) -> bool {
    exists|i: int| occurs_at(hay, needle, i)
}

fn occurs_here(hay: &str, needle: &str, i: usize) -> (r: bool)
    requires
        i + needle@.len() <= hay@.len(),
    ensures
        r == occurs_at(hay@, needle@, i as int),
{
    let n = needle.unicode_len();
    let h = hay.unicode_len();
    let mut k: usize = 0;
    while k < n
        invariant
            n == needle@.len(),
            h == hay@.len(),
            i + n <= hay@.len(),
            k <= n,
            forall|j: int| 0 <= j < k ==> hay@[i + j] == needle@[j],
        decreases n - k,
    {
        if hay.get_char(i + k) != needle.get_char(k) {
            proof {
                assert(hay@.subrange(i as int, i + n)[k as int] != needle@[k as int]);
            }
            return false;
        }
        k = k + 1;
    }
    proof {
        assert(hay@.subrange(i as int, i + n) =~= needle@);
    }
    true
}

/// Whether `needle` occurs in `hay`.
pub fn contains_text(hay: &str, needle: &str) -> (r: bool)
    ensures
        r == has_substring(hay@, needle@),
{
    let h = hay.unicode_len();
    let n = needle.unicode_len();
    if n > h {
        proof {
            assert forall|i: int| !occurs_at(hay@, needle@, i) by {}
        }
        return false;
    }
    let last = h - n;
    let mut i: usize = 0;
    while i < last
        invariant
            h == hay@.len(),
            n == needle@.len(),
            last == h - n,
            i <= last,
            forall|j: int| 0 <= j < i ==> !occurs_at(hay@, needle@, j),
        decreases last - i,
    {
        if occurs_here(hay, needle, i) {
            return true;
        }
        i = i + 1;
    }
    if occurs_here(hay, needle, last) {
        return true;
    }
    proof {
        assert forall|j: int| !occurs_at(hay@, needle@, j) by {
            if 0 <= j < i {
            }
        }
    }
    false
}

/// What `str::lines` yields for a text: its lines, without their `\n` or
/// `\r\n` endings.
pub uninterp spec fn lines_of(s: Seq<char>) -> Seq<Seq<char>>;

/// What `str::trim` gives for a text: the text without leading and trailing
/// whitespace.
pub uninterp spec fn trim_of(s: Seq<char>) -> Seq<char>;

pub open spec fn string_view(s: String) -> Seq<char> {
    s@
}

/// Relies on `str::lines`; each line is copied into a `String`.
#[verifier::external_body]
pub(crate) fn text_lines(s: &str) -> (r: Vec<String>)
    ensures
        r@.map_values(|l: String| string_view(l)) == lines_of(s@),
{
    s.lines().map(|l| l.to_string()).collect()
}

/// Relies on `str::trim`.
#[verifier::external_body]
pub(crate) fn trim_text(s: &str) -> (r: String)
    ensures
        r@ == trim_of(s@),
{
    s.trim().to_string()
}

/// The lines, trimmed, that are not blank, in order.
pub open spec fn trimmed_nonblank(lines: Seq<Seq<char>>) -> Seq<Seq<char>>
    decreases lines.len(),
{
    if lines.len() == 0 {
        Seq::empty()
    } else {
        let rest = trimmed_nonblank(lines.drop_last());
        let t = trim_of(lines.last());
        if t.len() > 0 { rest.push(t) } else { rest }
    }
}

/// Appends to `target` each line of `text`, trimmed, that is not blank.
pub fn push_trimmed_lines(target: &mut Vec<String>, text: &str)
    ensures
        final(target)@.map_values(|l: String| string_view(l)) == old(target)@.map_values(
            |l: String| string_view(l),
        ) + trimmed_nonblank(lines_of(text@)),
{
    let lines = text_lines(text);
    let ghost start = target@.map_values(|l: String| string_view(l));
    let ghost all = lines@.map_values(|l: String| string_view(l));
    let mut i: usize = 0;
    while i < lines.len()
        invariant
            i <= lines@.len(),
            all == lines@.map_values(|l: String| string_view(l)),
            all.len() == lines@.len(),
            target@.map_values(|l: String| string_view(l)) == start + trimmed_nonblank(all.subrange(0, i as int)),
        decreases lines.len() - i,
    {
        proof {
            assert(all.subrange(0, i + 1).drop_last() =~= all.subrange(0, i as int));
            assert(all.subrange(0, i + 1).last() == lines@[i as int]@);
        }
        let t = trim_text(lines[i].as_str());
        if t.unicode_len() > 0 {
            let ghost before = target@;
            target.push(t);
            proof {
                assert(target@.map_values(|l: String| string_view(l)) =~= before.map_values(
                    |l: String| string_view(l),
                ).push(t@));
            }
        }
        i = i + 1;
    }
    proof {
        assert(all.subrange(0, all.len() as int) =~= all);
    }
}

/// A line that pins a requirement: a non-empty line with `==`, or any line with `>=`.
pub open spec fn is_requirement_line(l: Seq<char>) -> bool {
    (l.len() > 0 && has_substring(l, "=="@)) || has_substring(l, ">="@)
}

/// The requirement lines among `lines`, in order.
pub open spec fn requirement_lines(lines: Seq<Seq<char>>) -> Seq<Seq<char>>
    decreases lines.len(),
{
    if lines.len() == 0 {
        Seq::empty()
    } else {
        let rest = requirement_lines(lines.drop_last());
        if is_requirement_line(lines.last()) { rest.push(lines.last()) } else { rest }
    }
}

/// The lines of a suggestion that pin a requirement (`pkg==1.0`, `pkg>=1.0`).
pub fn pinned_requirements(text: &str) -> (r: Vec<String>)
    ensures
        r@.map_values(|l: String| string_view(l)) == requirement_lines(lines_of(text@)),
{
    let lines = text_lines(text);
    let ghost all = lines@.map_values(|l: String| string_view(l));
    let mut r: Vec<String> = Vec::new();
    let mut i: usize = 0;
    while i < lines.len()
        invariant
            i <= lines@.len(),
            all == lines@.map_values(|l: String| string_view(l)),
            all.len() == lines@.len(),
            r@.map_values(|l: String| string_view(l)) == requirement_lines(all.subrange(0, i as int)),
        decreases lines.len() - i,
    {
        proof {
            assert(all.subrange(0, i + 1).drop_last() =~= all.subrange(0, i as int));
            assert(all.subrange(0, i + 1).last() == lines@[i as int]@);
        }
        let line = lines[i].as_str();
        if (line.unicode_len() > 0 && contains_text(line, "==")) || contains_text(line, ">=") {
            let ghost before = r@;
            r.push(lines[i].clone());
            proof {
                assert(r@.map_values(|l: String| string_view(l)) =~= before.map_values(
                    |l: String| string_view(l),
                ).push(lines@[i as int]@));
            }
        }
        i = i + 1;
    }
    proof {
        assert(all.subrange(0, all.len() as int) =~= all);
    }
    r
}

} // verus!
