//! Line-oriented text handling: splitting output into lines, trimming
//! whitespace, and cleaning line lists for display.

use vstd::prelude::*;

verus! {

/// The whitespace characters this library trims from line ends.
pub open spec fn is_space(c: char) -> bool {
    c == ' ' || c == '\t' || c == '\r' || c == '\n' || c == '\u{000B}' || c == '\u{000C}'
}

/// The segments of `s` between newline characters, in order. A text with no
/// newline is one segment; every newline ends a segment, so a trailing
/// newline yields a final empty segment.
pub open spec fn split_lines(s: Seq<char>) -> Seq<Seq<char>>
    decreases s.len(),
{
    if s.len() == 0 {
        seq![Seq::<char>::empty()]
    } else if s.last() == '\n' {
        split_lines(s.drop_last()).push(Seq::<char>::empty())
    } else {
        let prev = split_lines(s.drop_last());
        prev.update(prev.len() - 1, prev.last().push(s.last()))
    }
}

/// `s` with leading whitespace removed.
pub open spec fn trim_start(s: Seq<char>) -> Seq<char>
    decreases s.len(),
{
    if s.len() > 0 && is_space(s.first()) {
        trim_start(s.drop_first())
    } else {
        s
    }
}

/// `s` with trailing whitespace removed.
pub open spec fn trim_end(s: Seq<char>) -> Seq<char>
    decreases s.len(),
{
    if s.len() > 0 && is_space(s.last()) {
        trim_end(s.drop_last())
    } else {
        s
    }
}

/// `s` with whitespace removed from both ends.
pub open spec fn trim(s: Seq<char>) -> Seq<char> {
    trim_end(trim_start(s))
}

proof fn lemma_trim_start_skip(s: Seq<char>, a: int)
    requires
        0 <= a <= s.len(),
        forall|j: int| 0 <= j < a ==> is_space(s[j]),
    ensures
        trim_start(s) == trim_start(s.skip(a)),
    decreases a,
{
    if a > 0 {
        assert(is_space(s.first()));
        assert(s.drop_first().skip(a - 1) =~= s.skip(a));
        lemma_trim_start_skip(s.drop_first(), a - 1);
    } else {
        assert(s.skip(0) =~= s);
    }
}

proof fn lemma_trim_end_take(s: Seq<char>, b: int)
    requires
        0 <= b <= s.len(),
        forall|j: int| b <= j < s.len() ==> is_space(s[j]),
    ensures
        trim_end(s) == trim_end(s.take(b)),
    decreases s.len() - b,
{
    if b < s.len() {
        assert(is_space(s.last()));
        assert(s.drop_last().take(b) =~= s.take(b));
        lemma_trim_end_take(s.drop_last(), b);
    } else {
        assert(s.take(b) =~= s);
    }
}

/// Removes this library's whitespace characters from both ends of `s`.
pub fn trim_str(s: &str) -> (r: String)
    ensures
        r@ == trim(s@),
{
    let n = s.unicode_len();
    let mut a: usize = 0;
    while a < n && is_space_char(s.get_char(a))
        invariant
            0 <= a <= n,
            n == s@.len(),
            forall|j: int| 0 <= j < a ==> is_space(s@[j]),
        decreases n - a,
    {
        a += 1;
    }
    proof {
        lemma_trim_start_skip(s@, a as int);
        assert(trim_start(s@.skip(a as int)) == s@.skip(a as int));
    }
    let mut b: usize = n;
    while b > a && is_space_char(s.get_char(b - 1))
        invariant
            a <= b <= n,
            n == s@.len(),
            forall|j: int| b <= j < n ==> is_space(s@[j]),
        decreases b,
    {
        b -= 1;
    }
    proof {
        let t = s@.skip(a as int);
        assert(forall|j: int|
            b - a <= j < t.len() ==> is_space(#[trigger] t[j]) && t[j] == s@[j + a]);
        lemma_trim_end_take(t, b - a);
        assert(t.take(b - a) =~= s@.subrange(a as int, b as int));
        assert(trim_end(t.take(b - a)) == t.take(b - a));
    }
    s.substring_char(a, b).to_owned()
}

fn is_space_char(c: char) -> (r: bool)
    ensures
        r == is_space(c),
{
    c == ' ' || c == '\t' || c == '\r' || c == '\n' || c == '\u{000B}' || c == '\u{000C}'
}

/// Splits `text` into its newline-separated segments.
pub fn split_text_lines(text: &str) -> (r: Vec<String>)
    ensures
        r.deep_view() == split_lines(text@),
{
    let n = text.unicode_len();
    let mut r: Vec<String> = Vec::new();
    let mut start: usize = 0;
    let mut i: usize = 0;
    proof {
        assert(text@.take(0) =~= Seq::<char>::empty());
        assert(text@.subrange(0, 0) =~= Seq::<char>::empty());
        assert(r.deep_view().push(text@.subrange(0, 0)) =~= seq![Seq::<char>::empty()]);
    }
    while i < n
        invariant
            0 <= start <= i <= n,
            n == text@.len(),
            split_lines(text@.take(i as int)) == r.deep_view().push(
                text@.subrange(start as int, i as int),
            ),
        decreases n - i,
    {
        let ghost prev_dv = r.deep_view();
        let ghost seg = text@.subrange(start as int, i as int);
        let c = text.get_char(i);
        proof {
            assert(text@.take(i + 1).drop_last() =~= text@.take(i as int));
            assert(text@.take(i + 1).last() == text@[i as int]);
        }
        if c == '\n' {
            let line = text.substring_char(start, i).to_owned();
            r.push(line);
            start = i + 1;
            proof {
                assert(r.deep_view() =~= prev_dv.push(seg));
                assert(split_lines(text@.take(i + 1)) == split_lines(text@.take(i as int)).push(
                    Seq::<char>::empty(),
                ));
                assert(text@.subrange(i + 1, i + 1) =~= Seq::<char>::empty());
                assert(prev_dv.push(seg).push(Seq::<char>::empty()) =~= r.deep_view().push(
                    text@.subrange(i + 1, i + 1),
                ));
            }
        } else {
            proof {
                let p = split_lines(text@.take(i as int));
                assert(p == prev_dv.push(seg));
                assert(p.len() == prev_dv.len() + 1);
                assert(p.last() == seg);
                assert(split_lines(text@.take(i + 1)) == p.update(
                    p.len() - 1,
                    seg.push(text@[i as int]),
                ));
                assert(seg.push(text@[i as int]) =~= text@.subrange(start as int, i + 1));
                assert(p.update(p.len() - 1, text@.subrange(start as int, i + 1)) =~= prev_dv.push(
                    text@.subrange(start as int, i + 1),
                ));
            }
        }
        i += 1;
    }
    let line = text.substring_char(start, n).to_owned();
    let ghost prev_dv = r.deep_view();
    r.push(line);
    proof {
        assert(text@.take(n as int) =~= text@);
        assert(r.deep_view() =~= prev_dv.push(text@.subrange(start as int, n as int)));
    }
    r
}

/// True for a line worth keeping in a cleaned listing: non-empty and not a
/// section banner (a line opening with the `==>` marker).
pub open spec fn keep_line(l: Seq<char>) -> bool {
    l.len() > 0 && !is_banner(l)
}

/// A human-readable section header embedded in listing output.
pub open spec fn is_banner(l: Seq<char>) -> bool {
    l.len() >= 3 && l[0] == '=' && l[1] == '=' && l[2] == '>'
}

/// The trimmed lines of `lines`, dropping empty lines and section banners.
pub open spec fn clean_lines(lines: Seq<Seq<char>>) -> Seq<Seq<char>>
    decreases lines.len(),
{
    if lines.len() == 0 {
        Seq::<Seq<char>>::empty()
    } else {
        let t = trim(lines.first());
        let rest = clean_lines(lines.drop_first());
        if keep_line(t) {
            seq![t] + rest
        } else {
            rest
        }
    }
}

/// The cleaned line list of a raw text: split on newlines, each line trimmed,
/// empty lines and section banners dropped.
pub open spec fn spec_line_list(s: Seq<char>) -> Seq<Seq<char>> {
    clean_lines(split_lines(s))
}

/// Empty output decodes to an empty line list: a search with no matches hands
/// back no entries rather than an error.
pub proof fn lemma_empty_output_lists_nothing()
    ensures
        spec_line_list(Seq::<char>::empty()) == Seq::<Seq<char>>::empty(),
{
    let lines = split_lines(Seq::<char>::empty());
    assert(lines == seq![Seq::<char>::empty()]);
    assert(trim_start(Seq::<char>::empty()) == Seq::<char>::empty());
    assert(trim_end(Seq::<char>::empty()) == Seq::<char>::empty());
    assert(lines.drop_first() =~= Seq::<Seq<char>>::empty());
    assert(clean_lines(lines.drop_first()) == Seq::<Seq<char>>::empty());
}

/// Decodes line-oriented output: splits on newlines, trims whitespace, drops
/// empty lines, and drops section-banner lines opening with `==>`.
pub fn parse_line_list(text: &str) -> (r: Vec<String>)
    ensures
        r.deep_view() == spec_line_list(text@),
{
    let lines = split_text_lines(text);
    let ghost full = lines.deep_view();
    let mut r: Vec<String> = Vec::new();
    let mut i: usize = 0;
    proof {
        assert(full.skip(0) =~= full);
        assert(r.deep_view() + clean_lines(full) =~= clean_lines(full));
    }
    while i < lines.len()
        invariant
            0 <= i <= lines.len(),
            full == lines.deep_view(),
            clean_lines(full) == r.deep_view() + clean_lines(full.skip(i as int)),
        decreases lines.len() - i,
    {
        let ghost prev_dv = r.deep_view();
        let t = trim_str(lines[i].as_str());
        proof {
            assert(full.skip(i as int).first() == full[i as int]);
            assert(full.skip(i as int).drop_first() =~= full.skip(i + 1));
            assert(full[i as int] == lines@[i as int]@);
        }
        if keep_line_exec(&t) {
            r.push(t);
            proof {
                assert(r.deep_view() =~= prev_dv.push(trim(full[i as int])));
                assert(prev_dv + clean_lines(full.skip(i as int)) =~= prev_dv.push(
                    trim(full[i as int]),
                ) + clean_lines(full.skip(i + 1)));
            }
        }
        i += 1;
    }
    proof {
        assert(full.skip(lines.len() as int) =~= Seq::<Seq<char>>::empty());
        assert(r.deep_view() + clean_lines(full.skip(lines.len() as int)) =~= r.deep_view());
    }
    r
}

fn keep_line_exec(l: &String) -> (r: bool)
    ensures
        r == keep_line(l@),
{
    let s = l.as_str();
    let n = s.unicode_len();
    if n == 0 {
        false
    } else if n >= 3 && s.get_char(0) == '=' && s.get_char(1) == '=' && s.get_char(2) == '>' {
        false
    } else {
        true
    }
}

/// The number of non-empty segments among the newline-separated segments.
pub open spec fn nonempty_count(lines: Seq<Seq<char>>) -> nat
    decreases lines.len(),
{
    if lines.len() == 0 {
        0
    } else {
        (if lines.first().len() > 0 {
            1nat
        } else {
            0nat
        }) + nonempty_count(lines.drop_first())
    }
}

/// Counts the non-empty lines of a raw text, as the status overview does.
pub fn count_nonempty_lines(text: &str) -> (r: usize)
    ensures
        r == nonempty_count(split_lines(text@)),
{
    let lines = split_text_lines(text);
    let ghost full = lines.deep_view();
    let mut r: usize = 0;
    let mut i: usize = 0;
    proof {
        assert(full.skip(0) =~= full);
    }
    while i < lines.len()
        invariant
            0 <= i <= lines.len(),
            full == lines.deep_view(),
            r <= i,
            nonempty_count(full) == r + nonempty_count(full.skip(i as int)),
        decreases lines.len() - i,
    {
        proof {
            assert(full.skip(i as int).first() == full[i as int]);
            assert(full.skip(i as int).drop_first() =~= full.skip(i + 1));
            assert(full[i as int] == lines@[i as int]@);
        }
        if lines[i].as_str().unicode_len() > 0 {
            r += 1;
        }
        i += 1;
    }
    proof {
        assert(full.skip(lines.len() as int) =~= Seq::<Seq<char>>::empty());
    }
    r
}

} // verus!
