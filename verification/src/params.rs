//! A verified connection-string parser.
//!
//! A connection string is a `;`-separated list of parts; every part that
//! contains a `=` contributes one key/value pair, split at the first `=`,
//! with surrounding whitespace trimmed from both the key and the value.
//! Parts without a `=` are skipped.  Pairs are returned in order of
//! appearance; when the result is loaded into a mapping, later pairs for
//! the same key take precedence, as insertion order dictates.

use vstd::prelude::*;
use vstd::string::StrSliceExecFns;

verus! {

/// Whether `c` is a whitespace character (the Unicode `White_Space` set).
pub open spec fn is_space_char(c: char) -> bool {
    c == '\u{0009}' || c == '\u{000A}' || c == '\u{000B}' || c == '\u{000C}' || c == '\u{000D}'
        || c == '\u{0020}' || c == '\u{0085}' || c == '\u{00A0}' || c == '\u{1680}'
        || c == '\u{2000}' || c == '\u{2001}' || c == '\u{2002}' || c == '\u{2003}'
        || c == '\u{2004}' || c == '\u{2005}' || c == '\u{2006}' || c == '\u{2007}'
        || c == '\u{2008}' || c == '\u{2009}' || c == '\u{200A}' || c == '\u{2028}'
        || c == '\u{2029}' || c == '\u{202F}' || c == '\u{205F}' || c == '\u{3000}'
}

/// The index of the first occurrence of `sep` in `s`, or `s.len()` if `sep`
/// does not occur.
pub open spec fn sep_at(s: Seq<char>, sep: char) -> int
    decreases s.len(),
{
    if s.len() == 0 {
        0
    } else if s[0] == sep {
        0
    } else {
        1 + sep_at(s.skip(1), sep)
    }
}

proof fn lemma_sep_at_bounds(s: Seq<char>, sep: char)
    ensures
        0 <= sep_at(s, sep) <= s.len(),
    decreases s.len(),
{
    if s.len() > 0 && s[0] != sep {
        lemma_sep_at_bounds(s.skip(1), sep);
    }
}

proof fn lemma_sep_at_unique(s: Seq<char>, sep: char, m: int)
    requires
        0 <= m <= s.len(),
        forall|k: int| 0 <= k < m ==> s[k] != sep,
        m < s.len() ==> s[m] == sep,
    ensures
        sep_at(s, sep) == m,
    decreases s.len(),
{
    if m == 0 {
    } else {
        assert(s[0] != sep);
        let s2 = s.skip(1);
        assert forall|k: int| 0 <= k < m - 1 implies s2[k] != sep by {
            assert(s2[k] == s[k + 1]);
        }
        if m - 1 < s2.len() {
            assert(s2[m - 1] == s[m]);
        }
        lemma_sep_at_unique(s2, sep, m - 1);
    }
}

/// `s` split at every occurrence of `sep`: the parts between separators, in
/// order, separators not included.  An empty `s` yields one empty part.
pub open spec fn split_sep(s: Seq<char>, sep: char) -> Seq<Seq<char>>
    decreases s.len(),
    via split_sep_decreases
{
    let i = sep_at(s, sep);
    if i >= s.len() {
        seq![s]
    } else {
        seq![s.take(i)] + split_sep(s.skip(i + 1), sep)
    }
}

#[via_fn]
proof fn split_sep_decreases(s: Seq<char>, sep: char) {
    lemma_sep_at_bounds(s, sep);
}

/// `s` with leading whitespace removed.
pub open spec fn drop_leading(s: Seq<char>) -> Seq<char>
    decreases s.len(),
{
    if s.len() > 0 && is_space_char(s[0]) {
        drop_leading(s.skip(1))
    } else {
        s
    }
}

/// `s` with trailing whitespace removed.
pub open spec fn drop_trailing(s: Seq<char>) -> Seq<char>
    decreases s.len(),
{
    if s.len() > 0 && is_space_char(s[s.len() - 1]) {
        drop_trailing(s.take(s.len() - 1))
    } else {
        s
    }
}

/// `s` with both leading and trailing whitespace removed.
pub open spec fn trim_spec(s: Seq<char>) -> Seq<char> {
    drop_trailing(drop_leading(s))
}

/// The pair a single part contributes: split at the first `=`, both sides
/// trimmed; `None` when the part has no `=`.
pub open spec fn parse_part(p: Seq<char>) -> Option<(Seq<char>, Seq<char>)> {
    let i = sep_at(p, '=');
    if i >= p.len() {
        None
    } else {
        Some((trim_spec(p.take(i)), trim_spec(p.skip(i + 1))))
    }
}

/// The pairs a sequence of parts contributes, in order.
pub open spec fn pairs_of(parts: Seq<Seq<char>>) -> Seq<(Seq<char>, Seq<char>)>
    decreases parts.len(),
{
    if parts.len() == 0 {
        Seq::empty()
    } else {
        match parse_part(parts[0]) {
            Some(kv) => seq![kv] + pairs_of(parts.skip(1)),
            None => pairs_of(parts.skip(1)),
        }
    }
}

/// The pairs a whole connection string parses to.
pub open spec fn parse_params_spec(s: Seq<char>) -> Seq<(Seq<char>, Seq<char>)> {
    pairs_of(split_sep(s, ';'))
}

/// The character sequences a vector of string pairs holds.
pub open spec fn pair_views(ps: Seq<(String, String)>) -> Seq<(Seq<char>, Seq<char>)> {
    ps.map_values(|kv: (String, String)| (kv.0@, kv.1@))
}

fn is_space(c: char) -> (r: bool)
    ensures
        r == is_space_char(c),
{
    c == '\u{0009}' || c == '\u{000A}' || c == '\u{000B}' || c == '\u{000C}' || c == '\u{000D}'
        || c == '\u{0020}' || c == '\u{0085}' || c == '\u{00A0}' || c == '\u{1680}'
        || c == '\u{2000}' || c == '\u{2001}' || c == '\u{2002}' || c == '\u{2003}'
        || c == '\u{2004}' || c == '\u{2005}' || c == '\u{2006}' || c == '\u{2007}'
        || c == '\u{2008}' || c == '\u{2009}' || c == '\u{200A}' || c == '\u{2028}'
        || c == '\u{2029}' || c == '\u{202F}' || c == '\u{205F}' || c == '\u{3000}'
}

fn trim_range(s: &str, start: usize, end: usize) -> (r: (usize, usize))
    requires
        start <= end <= s@.len(),
    ensures
        start <= r.0 <= r.1 <= end,
        s@.subrange(r.0 as int, r.1 as int) == trim_spec(s@.subrange(start as int, end as int)),
{
    let mut lo = start;
    while lo < end && is_space(s.get_char(lo))
        invariant
            start <= lo <= end,
            end <= s@.len(),
            drop_leading(s@.subrange(start as int, end as int)) == drop_leading(
                s@.subrange(lo as int, end as int),
            ),
        decreases end - lo,
    {
        proof {
            let cur = s@.subrange(lo as int, end as int);
            assert(cur[0] == s@[lo as int]);
            assert(cur.skip(1) =~= s@.subrange(lo as int + 1, end as int));
        }
        lo = lo + 1;
    }
    proof {
        let cur = s@.subrange(lo as int, end as int);
        if lo < end {
            assert(cur[0] == s@[lo as int]);
        }
        assert(drop_leading(cur) == cur);
    }
    let mut hi = end;
    while lo < hi && is_space(s.get_char(hi - 1))
        invariant
            start <= lo <= hi <= end,
            end <= s@.len(),
            drop_leading(s@.subrange(start as int, end as int)) == s@.subrange(
                lo as int,
                end as int,
            ),
            drop_trailing(s@.subrange(lo as int, end as int)) == drop_trailing(
                s@.subrange(lo as int, hi as int),
            ),
        decreases hi,
    {
        proof {
            let cur = s@.subrange(lo as int, hi as int);
            assert(cur[cur.len() - 1] == s@[hi - 1]);
            assert(cur.take(cur.len() - 1) =~= s@.subrange(lo as int, hi as int - 1));
        }
        hi = hi - 1;
    }
    proof {
        let fin = s@.subrange(lo as int, hi as int);
        if lo < hi {
            assert(fin[fin.len() - 1] == s@[hi - 1]);
        }
        assert(drop_trailing(fin) == fin);
    }
    (lo, hi)
}

fn parse_part_exec(s: &str, start: usize, end: usize) -> (r: Option<(String, String)>)
    requires
        start <= end <= s@.len(),
    ensures
        ({
            let p = parse_part(s@.subrange(start as int, end as int));
            &&& (r is Some <==> p is Some)
            &&& (r matches Some(kv) ==> p matches Some(q) && kv.0@ == q.0 && kv.1@ == q.1)
        }),
{
    let ghost part = s@.subrange(start as int, end as int);
    let mut j = start;
    while j < end && !(s.get_char(j) == '=')
        invariant
            start <= j <= end,
            end <= s@.len(),
            part == s@.subrange(start as int, end as int),
            forall|k: int| start <= k < j ==> s@[k] != '=',
        decreases end - j,
    {
        j = j + 1;
    }
    proof {
        assert forall|k: int| 0 <= k < j as int - start as int implies part[k] != '=' by {
            assert(part[k] == s@[start as int + k]);
        }
        if j < end {
            assert(part[j as int - start as int] == s@[j as int]);
        }
        lemma_sep_at_unique(part, '=', j as int - start as int);
    }
    if j == end {
        None
    } else {
        let (klo, khi) = trim_range(s, start, j);
        let (vlo, vhi) = trim_range(s, j + 1, end);
        let key = s.substring_char(klo, khi).to_owned();
        let value = s.substring_char(vlo, vhi).to_owned();
        proof {
            let i = j as int - start as int;
            assert(part.take(i) =~= s@.subrange(start as int, j as int));
            assert(part.skip(i + 1) =~= s@.subrange(j as int + 1, end as int));
        }
        Some((key, value))
    }
}

/// Parse a connection string into its key/value pairs, in order of
/// appearance; exactly [`parse_params_spec`].
pub fn parse_connection_params(connection_string: &str) -> (r: Vec<(String, String)>)
    ensures
        pair_views(r@) == parse_params_spec(connection_string@),
{
    let ghost s = connection_string@;
    let n = connection_string.unicode_len();
    let mut out: Vec<(String, String)> = Vec::new();
    let mut pos: usize = 0;
    let mut more = true;
    proof {
        assert(s.skip(0) =~= s);
        assert(pair_views(out@) + pairs_of(split_sep(s, ';')) =~= pairs_of(split_sep(s, ';')));
    }
    while more
        invariant
            n == s.len(),
            s == connection_string@,
            pos <= n,
            more ==> parse_params_spec(s) == pair_views(out@) + pairs_of(
                split_sep(s.skip(pos as int), ';'),
            ),
            !more ==> parse_params_spec(s) == pair_views(out@),
        decreases n - pos + (if more {
            1int
        } else {
            0int
        }),
    {
        let mut j = pos;
        while j < n && !(connection_string.get_char(j) == ';')
            invariant
                n == s.len(),
                s == connection_string@,
                pos <= j <= n,
                forall|k: int| pos <= k < j ==> s[k] != ';',
            decreases n - j,
        {
            j = j + 1;
        }
        proof {
            let t = s.skip(pos as int);
            assert forall|k: int| 0 <= k < j as int - pos as int implies t[k] != ';' by {
                assert(t[k] == s[pos as int + k]);
            }
            if j < n {
                assert(t[j as int - pos as int] == s[j as int]);
            }
            lemma_sep_at_unique(t, ';', j as int - pos as int);
        }
        let kv_opt = parse_part_exec(connection_string, pos, j);
        let ghost part = s.subrange(pos as int, j as int);
        let ghost rest = split_sep(s.skip(pos as int), ';');
        let ghost tail = if j < n {
            split_sep(s.skip(j as int + 1), ';')
        } else {
            Seq::<Seq<char>>::empty()
        };
        proof {
            let t = s.skip(pos as int);
            assert(t.take(j as int - pos as int) =~= part);
            if j == n {
                assert(t =~= part);
                assert(rest == seq![part]);
                assert(rest.skip(1) =~= tail);
            } else {
                assert(t.skip(j as int - pos as int + 1) =~= s.skip(j as int + 1));
                assert(rest == seq![part] + tail);
                assert(rest.skip(1) =~= tail);
            }
            assert(rest[0] == part);
        }
        match kv_opt {
            Some(kv) => {
                proof {
                    assert(parse_part(part) == Some((kv.0@, kv.1@)));
                    assert(pairs_of(rest) == seq![(kv.0@, kv.1@)] + pairs_of(tail));
                    assert(pair_views(out@.push(kv)) =~= pair_views(out@) + seq![
                        (kv.0@, kv.1@),
                    ]);
                    assert(pair_views(out@) + (seq![(kv.0@, kv.1@)] + pairs_of(tail)) =~= (
                    pair_views(out@) + seq![(kv.0@, kv.1@)]) + pairs_of(tail));
                }
                out.push(kv);
            },
            None => {
                proof {
                    assert(parse_part(part) is None);
                    assert(pairs_of(rest) == pairs_of(tail));
                }
            },
        }
        if j == n {
            proof {
                assert(pairs_of(tail) =~= Seq::<(Seq<char>, Seq<char>)>::empty());
                assert(pair_views(out@) + pairs_of(tail) =~= pair_views(out@));
            }
            more = false;
        } else {
            pos = j + 1;
        }
    }
    out
}

} // verus!
