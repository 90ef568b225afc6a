//! Pure text pipeline of the render step: concatenating item renderings,
//! splitting the result into lines, clamping the page index, and joining
//! the visible lines back into one block of text.

use vstd::prelude::*;
use vstd::string::StrSliceExecFns;
use vstd::string::StringExecFns;

verus! {

/// The views of a sequence of owned strings.
pub open spec fn line_views(lines: Seq<String>) -> Seq<Seq<char>> {
    lines.map_values(|x: String| x@)
}

/// The full rendering of a registry: each item's text in insertion order,
/// each followed by a line terminator.
pub open spec fn render_spec(items: Seq<Seq<char>>) -> Seq<char>
    decreases items.len(),
{
    if items.len() == 0 {
        Seq::empty()
    } else {
        render_spec(items.drop_last()) + items.last() + seq!['\n']
    }
}

/// Index of the first line terminator in `s`, or `s.len()` if there is none.
pub open spec fn first_newline(s: Seq<char>) -> int
    decreases s.len(),
{
    if s.len() == 0 {
        0
    } else if s[0] == '\n' {
        0
    } else {
        1 + first_newline(s.subrange(1, s.len() as int))
    }
}

/// The lines of `s`, split at `'\n'`. A trailing terminator does not yield
/// a final empty line, and an empty text has no lines at all.
pub open spec fn split_lines_spec(s: Seq<char>) -> Seq<Seq<char>>
    decreases s.len(),
{
    if s.len() == 0 {
        Seq::empty()
    } else {
        let k = first_newline(s);
        if 0 <= k < s.len() {
            seq![s.subrange(0, k)] + split_lines_spec(s.subrange(k + 1, s.len() as int))
        } else {
            seq![s]
        }
    }
}

/// The visible block: the given lines joined with single line terminators.
pub open spec fn join_lines_spec(lines: Seq<Seq<char>>) -> Seq<char>
    decreases lines.len(),
{
    if lines.len() == 0 {
        Seq::empty()
    } else if lines.len() == 1 {
        lines[0]
    } else {
        join_lines_spec(lines.drop_last()) + seq!['\n'] + lines.last()
    }
}

/// The page index actually used by the render step: clamped into
/// `[0, line_count - 1]`, with a floor of zero when there are no lines.
pub open spec fn clamp_spec(page: nat, line_count: nat) -> nat {
    if line_count == 0 {
        0
    } else if page >= line_count {
        (line_count - 1) as nat
    } else {
        page
    }
}

/// The lines of the full rendering of a registry.
pub open spec fn lines_of(items: Seq<Seq<char>>) -> Seq<Seq<char>> {
    split_lines_spec(render_spec(items))
}

/// What the render step displays: the rendered lines from the clamped page
/// to the end, joined back into one text block.
pub open spec fn visible_spec(items: Seq<Seq<char>>, page: nat) -> Seq<char> {
    let lines = lines_of(items);
    join_lines_spec(lines.subrange(clamp_spec(page, lines.len()) as int, lines.len() as int))
}

/// `first_newline` lies within `[0, s.len()]`, everything before it is not a
/// terminator, and if it lies strictly inside `s` it points at one.
pub proof fn lemma_first_newline_bounds(s: Seq<char>)
    ensures
        0 <= first_newline(s) <= s.len(),
        forall|j: int| 0 <= j < first_newline(s) ==> s[j] != '\n',
        first_newline(s) < s.len() ==> s[first_newline(s)] == '\n',
    decreases s.len(),
{
    if s.len() == 0 {
    } else if s[0] == '\n' {
    } else {
        let s1 = s.subrange(1, s.len() as int);
        lemma_first_newline_bounds(s1);
        assert forall|j: int| 0 <= j < first_newline(s) implies s[j] != '\n' by {
            if j > 0 {
                assert(s[j] == s1[j - 1]);
            }
        }
        if first_newline(s) < s.len() {
            assert(s[first_newline(s)] == s1[first_newline(s1)]);
        }
    }
}

/// `first_newline` is the unique position with no terminator before it and
/// a terminator at it.
pub proof fn lemma_first_newline_is(s: Seq<char>, k: int)
    requires
        0 <= k < s.len(),
        s[k] == '\n',
        forall|j: int| 0 <= j < k ==> s[j] != '\n',
    ensures
        first_newline(s) == k,
    decreases k,
{
    if k == 0 {
    } else {
        let s1 = s.subrange(1, s.len() as int);
        assert(s1[k - 1] == s[k]);
        assert forall|j: int| 0 <= j < k - 1 implies s1[j] != '\n' by {
            assert(s1[j] == s[j + 1]);
        }
        lemma_first_newline_is(s1, k - 1);
    }
}

/// When `s` holds no terminator at all, `first_newline` is `s.len()`.
pub proof fn lemma_first_newline_none(s: Seq<char>)
    requires
        forall|j: int| 0 <= j < s.len() ==> s[j] != '\n',
    ensures
        first_newline(s) == s.len(),
{
    lemma_first_newline_bounds(s);
    if first_newline(s) < s.len() {
        assert(s[first_newline(s)] == '\n');
        assert(false);
    }
}

/// Splitting a terminator-free line followed by a terminator and a rest
/// yields that line and then the lines of the rest.
pub proof fn lemma_split_step(t: Seq<char>, u: Seq<char>)
    requires
        forall|j: int| 0 <= j < t.len() ==> t[j] != '\n',
    ensures
        split_lines_spec(t + seq!['\n'] + u) == seq![t] + split_lines_spec(u),
{
    let s = t + seq!['\n'] + u;
    assert(s[t.len() as int] == '\n');
    assert forall|j: int| 0 <= j < t.len() implies s[j] != '\n' by {
        assert(s[j] == t[j]);
    }
    lemma_first_newline_is(s, t.len() as int);
    assert(s.subrange(0, t.len() as int) =~= t);
    assert(s.subrange(t.len() as int + 1, s.len() as int) =~= u);
}

/// A non-empty terminator-free text is a single line.
pub proof fn lemma_split_no_newline(t: Seq<char>)
    requires
        t.len() > 0,
        forall|j: int| 0 <= j < t.len() ==> t[j] != '\n',
    ensures
        split_lines_spec(t) == seq![t],
{
    lemma_first_newline_none(t);
}

/// Splits a text into its lines, exactly as `split_lines_spec` describes.
pub fn split_lines(s: &str) -> (r: Vec<String>)
    ensures
        line_views(r@) == split_lines_spec(s@),
{
    let n: usize = s.unicode_len();
    let mut r: Vec<String> = Vec::new();
    let mut start: usize = 0;
    let mut i: usize = 0;
    proof {
        assert(line_views(r@) =~= Seq::<Seq<char>>::empty());
        assert(s@.subrange(0, n as int) =~= s@);
    }
    while i < n
        invariant
            n == s@.len(),
            start <= i <= n,
            forall|j: int| start <= j < i ==> s@[j] != '\n',
            split_lines_spec(s@) == line_views(r@) + split_lines_spec(
                s@.subrange(start as int, n as int),
            ),
        decreases n - i,
    {
        let c = s.get_char(i);
        if c == '\n' {
            let line = s.substring_char(start, i);
            let ghost t = s@.subrange(start as int, i as int);
            let ghost u = s@.subrange(i as int + 1, n as int);
            let ghost r_old = r@;
            r.push(String::from_str(line));
            proof {
                assert(s@.subrange(start as int, n as int) =~= t + seq!['\n'] + u);
                lemma_split_step(t, u);
                assert(line_views(r@) =~= line_views(r_old).push(t));
                assert(line_views(r_old).push(t) =~= line_views(r_old) + seq![t]);
                assert(line_views(r@) + split_lines_spec(u) =~= line_views(r_old) + (seq![t]
                    + split_lines_spec(u)));
            }
            start = i + 1;
        }
        i += 1;
    }
    let ghost tail = s@.subrange(start as int, n as int);
    if start < n {
        let line = s.substring_char(start, n);
        let ghost r_old = r@;
        r.push(String::from_str(line));
        proof {
            lemma_split_no_newline(tail);
            assert(line_views(r@) =~= line_views(r_old).push(tail));
            assert(line_views(r_old).push(tail) =~= line_views(r_old) + seq![tail]);
        }
    } else {
        proof {
            assert(tail.len() == 0);
            assert(line_views(r@) + split_lines_spec(tail) =~= line_views(r@));
        }
    }
    r
}

/// Joins the lines from index `from` to the end into one text block with
/// single line terminators between lines.
pub fn join_lines(lines: &Vec<String>, from: usize) -> (r: String)
    requires
        from <= lines@.len(),
    ensures
        r@ == join_lines_spec(line_views(lines@).subrange(from as int, lines@.len() as int)),
{
    let mut r = String::new();
    let mut i: usize = from;
    proof {
        assert(line_views(lines@).subrange(from as int, from as int) =~= Seq::<Seq<char>>::empty());
    }
    while i < lines.len()
        invariant
            from <= i <= lines@.len(),
            r@ == join_lines_spec(line_views(lines@).subrange(from as int, i as int)),
        decreases lines@.len() - i,
    {
        if i > from {
            r.append("\n");
        }
        r.append(lines[i].as_str());
        proof {
            reveal_strlit("\n");
            let lv = line_views(lines@);
            assert("\n"@ =~= seq!['\n']);
            assert(lv.subrange(from as int, i as int + 1).drop_last() =~= lv.subrange(
                from as int,
                i as int,
            ));
            assert(lv.subrange(from as int, i as int + 1).last() == lv[i as int]);
            assert(r@ =~= join_lines_spec(lv.subrange(from as int, i as int + 1)));
        }
        i += 1;
    }
    r
}

} // verus!
