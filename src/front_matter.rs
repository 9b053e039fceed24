use vstd::prelude::*;
use vstd::string::StrSliceExecFns;

verus! {

/// Length of the opening delimiter line (`+++` and its line terminator) at the
/// start of `t`, or 0 where `t` does not open with one.
pub open spec fn opening_len(t: Seq<char>) -> int {
    if t.len() >= 4 && t[0] == '+' && t[1] == '+' && t[2] == '+' && t[3] == '\n' {
        4
    } else if t.len() >= 5 && t[0] == '+' && t[1] == '+' && t[2] == '+' && t[3] == '\r'
        && t[4] == '\n' {
        5
    } else {
        0
    }
}

/// Position `i` starts a line of `t`, the block itself starting at `o`.
pub open spec fn line_start(t: Seq<char>, o: int, i: int) -> bool {
    i == o || (o < i && t[i - 1] == '\n')
}

/// The text has `+++` at position `i`.
pub open spec fn plus_run_at(t: Seq<char>, i: int) -> bool {
    0 <= i && i + 3 <= t.len() && t[i] == '+' && t[i + 1] == '+' && t[i + 2] == '+'
}

/// The line at position `i` is exactly `+++`, ended by a line terminator or
/// by the end of the text.
pub open spec fn delimiter_line_at(t: Seq<char>, i: int) -> bool {
    &&& 0 <= i
    &&& i + 3 <= t.len()
    &&& t[i] == '+' && t[i + 1] == '+' && t[i + 2] == '+'
    &&& (i + 3 == t.len() || t[i + 3] == '\n' || (i + 4 < t.len() && t[i + 3] == '\r' && t[
        i + 4] == '\n'))
}

/// A closing delimiter of a block that starts at `o` stands at `i`.
pub open spec fn closes_at(t: Seq<char>, o: int, i: int) -> bool {
    o <= i && line_start(t, o, i) && delimiter_line_at(t, i)
}

/// Where the body starts after a closing delimiter at `i`.
pub open spec fn body_start(t: Seq<char>, i: int) -> int {
    if i + 3 == t.len() {
        t.len() as int
    } else if t[i + 3] == '\n' {
        i + 4
    } else {
        i + 5
    }
}

/// `i` is the first closing delimiter of the block that starts at `o`.
pub open spec fn first_close(t: Seq<char>, o: int, i: int) -> bool {
    closes_at(t, o, i) && forall|j: int| o <= j < i ==> !closes_at(t, o, j)
}

/// The text has front matter: an opening delimiter line and a closing one.
pub open spec fn has_front_matter(t: Seq<char>) -> bool {
    opening_len(t) > 0 && exists|i: int| closes_at(t, opening_len(t), i)
}

/// The metadata block and the body of `t`: the text between the opening
/// delimiter line and the first line that is exactly `+++`, and the text
/// after that line. Without front matter, an empty block and the whole text.
pub open spec fn split_spec(t: Seq<char>) -> (Seq<char>, Seq<char>) {
    if has_front_matter(t) {
        let o = opening_len(t);
        let i = choose|i: int| first_close(t, o, i);
        (t.subrange(o, i), t.subrange(body_start(t, i), t.len() as int))
    } else {
        (Seq::<char>::empty(), t)
    }
}

proof fn lemma_first_close_unique(t: Seq<char>, o: int, i: int, k: int)
    requires
        first_close(t, o, i),
        first_close(t, o, k),
    ensures
        i == k,
{
}

/// Where the text has front matter, some closing delimiter comes first.
proof fn lemma_first_close_exists(t: Seq<char>, o: int, i: int)
    requires
        closes_at(t, o, i),
    ensures
        exists|k: int| first_close(t, o, k),
    decreases i - o,
{
    if exists|j: int| o <= j < i && closes_at(t, o, j) {
        let j = choose|j: int| o <= j < i && closes_at(t, o, j);
        lemma_first_close_exists(t, o, j);
    } else {
        assert(first_close(t, o, i));
    }
}

/// A text in which no line starts with `+++` has no front matter: its
/// metadata block is empty and its body is the whole text.
pub proof fn lemma_plain_text_is_body(t: Seq<char>)
    requires
        forall|i: int| line_start(t, 0, i) ==> !#[trigger] plus_run_at(t, i),
    ensures
        split_spec(t) == (Seq::<char>::empty(), t),
{
    assert(!plus_run_at(t, 0));
}

/// A metadata block that is empty or ends a line, with no line that is
/// exactly `+++`, framed by delimiter lines before a body, is split back into
/// that block and that body.
pub proof fn lemma_framed_split(meta: Seq<char>, body: Seq<char>)
    requires
        meta.len() == 0 || meta.last() == '\n',
        forall|i: int| 0 <= i < meta.len() && line_start(meta, 0, i) ==> !delimiter_line_at(meta, i),
    ensures
        split_spec(seq!['+', '+', '+', '\n'] + meta + seq!['+', '+', '+', '\n'] + body) == (
        meta,
        body,
    ),
{
    let t = seq!['+', '+', '+', '\n'] + meta + seq!['+', '+', '+', '\n'] + body;
    let m = meta.len() as int;
    assert(opening_len(t) == 4);
    assert forall|k: int| 0 <= k < m implies t[4 + k] == meta[k] by {}
    assert(closes_at(t, 4, 4 + m));
    assert forall|j: int| 4 <= j < 4 + m implies !closes_at(t, 4, j) by {
        let i = j - 4;
        if closes_at(t, 4, j) {
            assert(line_start(meta, 0, i));
            if i + 3 <= m {
                if i + 3 < m {
                    assert(t[j + 3] == meta[i + 3]);
                    if t[j + 3] == '\r' {
                        assert(j + 4 < t.len());
                        assert(t[j + 4] == meta[i + 4]);
                    }
                }
                assert(delimiter_line_at(meta, i));
            }
        }
    }
    assert(first_close(t, 4, 4 + m));
    let k = choose|k: int| first_close(t, 4, k);
    lemma_first_close_unique(t, 4, 4 + m, k);
    assert(t.subrange(4, 4 + m) =~= meta);
    assert(t.subrange(8 + m, t.len() as int) =~= body);
}

/// Copies the characters of `s` into a vector.
fn chars_of(s: &str) -> (r: Vec<char>)
    ensures
        r@ == s@,
{
    let mut r: Vec<char> = Vec::new();
    for c in it: s.chars()
        invariant
            it.seq() == s@,
            r@ == it.seq().subrange(0, it.index() as int),
    {
        r.push(c);
    }
    r
}

/// Splits raw file text into its metadata block and its body. A text that
/// opens a block and never closes it has no front matter: the block is empty
/// and the body is the whole text, opening line included.
pub fn extract_post<'a>(raw: &'a str) -> (r: (&'a str, &'a str))
    ensures
        (r.0@, r.1@) == split_spec(raw@),
{
    let t = chars_of(raw);
    let n = t.len();
    let o: usize = if n >= 4 && t[0] == '+' && t[1] == '+' && t[2] == '+' && t[3] == '\n' {
        4
    } else if n >= 5 && t[0] == '+' && t[1] == '+' && t[2] == '+' && t[3] == '\r' && t[4]
        == '\n' {
        5
    } else {
        0
    };
    if o == 0 {
        proof {
            reveal_strlit("");
        }
        return ("", raw);
    }
    let mut i: usize = o;
    while n - i >= 3
        invariant
            t@ == raw@,
            n == t.len(),
            o == opening_len(raw@),
            o > 0,
            o <= i <= n,
            forall|j: int| o <= j < i ==> !closes_at(raw@, o as int, j),
        decreases n - i,
    {
        let at_line_start = i == o || t[i - 1] == '\n';
        if at_line_start && t[i] == '+' && t[i + 1] == '+' && t[i + 2] == '+' {
            let start: usize = if i + 3 == n {
                n
            } else if t[i + 3] == '\n' {
                i + 4
            } else if i + 4 < n && t[i + 3] == '\r' && t[i + 4] == '\n' {
                i + 5
            } else {
                0
            };
            if start > 0 {
                proof {
                    let ghost tt = raw@;
                    assert(closes_at(tt, o as int, i as int));
                    assert(has_front_matter(tt));
                    assert(first_close(tt, o as int, i as int));
                    assert(body_start(tt, i as int) == start);
                    let k = choose|k: int| first_close(tt, o as int, k);
                    lemma_first_close_unique(tt, o as int, i as int, k);
                }
                return (raw.substring_char(o, i), raw.substring_char(start, n));
            }
        }
        i = i + 1;
    }
    proof {
        assert forall|j: int| !closes_at(raw@, o as int, j) by {
            if o <= j < i {
            } else if j >= i {
                assert(!delimiter_line_at(raw@, j));
            }
        }
        assert(!has_front_matter(raw@));
        reveal_strlit("");
    }
    ("", raw)
}

} // verus!
