//! Parsing of the bundled lists (disposable email domains, reserved
//! usernames) that are loaded into the database at boot.
use vstd::prelude::*;
use crate::text::{lines, trim, lowercase, chars_of, lines_chars, trim_chars, string_of, to_lowercase};

verus! {

/// Whether a trimmed line holds an entry: not blank, not a `#` comment.
pub open spec fn is_entry(t: Seq<char>) -> bool {
    t.len() > 0 && t[0] != '#'
}

/// The entries of a list file: each line trimmed, blank lines and comments
/// skipped, and what is left lowercased.
pub open spec fn list_entries(ls: Seq<Seq<char>>) -> Seq<Seq<char>>
    decreases ls.len(),
{
    if ls.len() == 0 {
        Seq::empty()
    } else {
        let prev = list_entries(ls.drop_last());
        let t = trim(ls.last());
        if is_entry(t) {
            prev.push(lowercase(t))
        } else {
            prev
        }
    }
}

/// What a list file holds, one entry per meaningful line.
pub open spec fn parse_list_spec(raw: Seq<char>) -> Seq<Seq<char>> {
    list_entries(lines(raw))
}

fn parse_list(raw: &str) -> (out: Vec<String>)
    ensures
        out@.len() == parse_list_spec(raw@).len(),
        forall|k: int| 0 <= k < out@.len() ==> #[trigger] out@[k]@ == parse_list_spec(raw@)[k],
{
    let chars = chars_of(raw);
    let ls = lines_chars(&chars);
    let ghost lsv = lines(raw@);
    let mut out: Vec<String> = Vec::new();
    let mut i: usize = 0;
    while i < ls.len()
        invariant
            i <= ls@.len(),
            lsv == lines(raw@),
            ls@.len() == lsv.len(),
            forall|k: int| 0 <= k < ls@.len() ==> #[trigger] ls@[k]@ == lsv[k],
            out@.len() == list_entries(lsv.take(i as int)).len(),
            forall|k: int| 0 <= k < out@.len() ==> #[trigger] out@[k]@ == list_entries(lsv.take(i as int))[k],
        decreases ls@.len() - i,
    {
        let t = trim_chars(&ls[i]);
        assert(lsv.take(i + 1).drop_last() =~= lsv.take(i as int));
        assert(lsv.take(i + 1).last() == lsv[i as int]);
        if t.len() > 0 && t[0] != '#' {
            let s = string_of(&t);
            let low = to_lowercase(s.as_str());
            out.push(low);
        }
        i = i + 1;
    }
    assert(lsv.take(ls@.len() as int) =~= lsv);
    out
}

/// Extracts domains from the raw disposable-domain list file.
pub fn parse_domains(raw: &str) -> (out: Vec<String>)
    ensures
        out@.len() == parse_list_spec(raw@).len(),
        forall|k: int| 0 <= k < out@.len() ==> #[trigger] out@[k]@ == parse_list_spec(raw@)[k],
{
    parse_list(raw)
}

/// Extracts usernames from the raw reserved-username list file.
pub fn parse_usernames(raw: &str) -> (out: Vec<String>)
    ensures
        out@.len() == parse_list_spec(raw@).len(),
        forall|k: int| 0 <= k < out@.len() ==> #[trigger] out@[k]@ == parse_list_spec(raw@)[k],
{
    parse_list(raw)
}

/// Entries per INSERT when the lists are loaded: a single statement for a
/// whole list would be several hundred kilobytes long.
pub const CHUNK_SIZE: usize = 1000;

/// Whether `r` cuts `0..n` into consecutive nonempty ranges of `size`
/// items, the last one possibly shorter.
pub open spec fn chunks_of(r: Seq<(usize, usize)>, n: nat, size: nat) -> bool {
    &&& n == 0 ==> r.len() == 0
    &&& n > 0 ==> r.len() > 0 && r[0].0 == 0 && r.last().1 == n
    &&& forall|k: int| 0 <= k < r.len() ==> #[trigger] r[k].0 < r[k].1 && r[k].1 - r[k].0 <= size
    &&& forall|k: int| 0 <= k < r.len() - 1 ==> #[trigger] r[k].1 == r[k + 1].0 && r[k].1 - r[k].0 == size
}

/// The ranges of the INSERT statements loading `n` entries, `size` at a time.
pub fn chunk_ranges(n: usize, size: usize) -> (r: Vec<(usize, usize)>)
    requires
        size > 0,
    ensures
        chunks_of(r@, n as nat, size as nat),
{
    let mut r: Vec<(usize, usize)> = Vec::new();
    let mut start: usize = 0;
    while start < n
        invariant
            size > 0,
            start <= n,
            start == 0 ==> r@.len() == 0,
            start > 0 ==> r@.len() > 0 && r@[0].0 == 0 && r@.last().1 == start,
            forall|k: int| 0 <= k < r@.len() ==> #[trigger] r@[k].0 < r@[k].1 && r@[k].1 - r@[k].0 <= size,
            forall|k: int| 0 <= k < r@.len() - 1 ==> #[trigger] r@[k].1 == r@[k + 1].0 && r@[k].1 - r@[k].0 == size,
            r@.len() > 0 ==> r@.last().1 - r@.last().0 == size || r@.last().1 == n,
        decreases n - start,
    {
        let end = if n - start > size { start + size } else { n };
        let ghost before = r@;
        r.push((start, end));
        assert forall|k: int| 0 <= k < r@.len() - 1 implies #[trigger] r@[k].1 == r@[k + 1].0 && r@[k].1 - r@[k].0 == size by {
            if k < before.len() - 1 {
                assert(r@[k] == before[k] && r@[k + 1] == before[k + 1]);
            } else {
                assert(r@[k] == before.last());
            }
        }
        start = end;
    }
    r
}

} // verus!
