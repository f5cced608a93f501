//! Character-level string operations with exact specifications.
//!
//! These are the text transformations the generator relies on: substring
//! replacement, splitting into lines, recognising comment lines and joining
//! lines back together. Each executable function is proved against a short
//! recursive definition over `Seq<char>`.
use vstd::prelude::*;
use vstd::string::*;

verus! {

/// Appends one character to a `String` (std `String::push`).
/// Trusted: the new view is the old view followed by `c`.
#[verifier::external_body]
pub(crate) fn push_char(s: &mut String, c: char)
    ensures
        final(s)@ == old(s)@.push(c),
{
    s.push(c);
}

/// The characters of `s`, in order.
pub fn chars_of(s: &str) -> (r: Vec<char>)
    ensures
        r@ == s@,
{
    let mut r: Vec<char> = Vec::new();
    for c in it: s.chars()
        invariant
            r@ == it.seq().take(it.index() as int),
            it.seq() == s@,
    {
        r.push(c);
    }
    r
}

/// The string made of `cs[lo..hi]`.
pub fn string_of(cs: &Vec<char>, lo: usize, hi: usize) -> (r: String)
    requires
        lo <= hi <= cs@.len(),
    ensures
        r@ == cs@.subrange(lo as int, hi as int),
{
    let mut r = String::new();
    let mut i = lo;
    while i < hi
        invariant
            lo <= i <= hi <= cs@.len(),
            r@ == cs@.subrange(lo as int, i as int),
        decreases hi - i,
    {
        push_char(&mut r, cs[i]);
        assert(cs@.subrange(lo as int, i + 1) =~= cs@.subrange(lo as int, i as int).push(cs@[i as int]));
        i = i + 1;
    }
    r
}

/// Whether two strings hold the same characters.
pub fn str_eq(a: &str, b: &str) -> (r: bool)
    ensures
        r == (a@ == b@),
{
    let x = chars_of(a);
    let y = chars_of(b);
    if x.len() != y.len() {
        return false;
    }
    let mut i: usize = 0;
    while i < x.len()
        invariant
            x@ == a@,
            y@ == b@,
            x@.len() == y@.len(),
            0 <= i <= x@.len(),
            forall|k: int| 0 <= k < i ==> x@[k] == y@[k],
        decreases x@.len() - i,
    {
        if x[i] != y[i] {
            return false;
        }
        i = i + 1;
    }
    assert(x@ =~= y@);
    true
}

/// Whether `pat` occurs in `s` starting at position `i`.
pub open spec fn occurs_at(s: Seq<char>, pat: Seq<char>, i: int) -> bool {
    0 <= i && i + pat.len() <= s.len() && s.subrange(i, i + pat.len()) == pat
}

/// `s` with every occurrence of the non-empty pattern `pat` replaced by
/// `rep`, scanning left to right and never rescanning replaced text
/// (the behaviour of std `str::replace` for a non-empty pattern).
pub open spec fn replaced(s: Seq<char>, pat: Seq<char>, rep: Seq<char>) -> Seq<char>
    decreases s.len(),
{
    if s.len() == 0 {
        seq![]
    } else if pat.len() > 0 && occurs_at(s, pat, 0) {
        rep + replaced(s.skip(pat.len() as int), pat, rep)
    } else {
        seq![s[0]] + replaced(s.skip(1), pat, rep)
    }
}

/// Replacing a pattern that does not occur leaves the text unchanged.
pub proof fn lemma_replaced_absent(s: Seq<char>, pat: Seq<char>, rep: Seq<char>)
    requires
        pat.len() > 0,
        forall|i: int| 0 <= i < s.len() ==> !occurs_at(s, pat, i),
    ensures
        replaced(s, pat, rep) == s,
    decreases s.len(),
{
    if s.len() > 0 {
        assert(!occurs_at(s, pat, 0));
        let t = s.skip(1);
        assert forall|i: int| 0 <= i < t.len() implies !occurs_at(t, pat, i) by {
            assert(!occurs_at(s, pat, i + 1));
            if i + pat.len() <= t.len() {
                assert(t.subrange(i, i + pat.len()) =~= s.subrange(i + 1, i + 1 + pat.len()));
            }
        }
        lemma_replaced_absent(t, pat, rep);
        assert(seq![s[0]] + t =~= s);
    }
}

/// Whether `pat` occurs in `cs` at position `i`.
fn matches_at(cs: &Vec<char>, i: usize, pat: &Vec<char>) -> (r: bool)
    requires
        i <= cs@.len(),
    ensures
        r == occurs_at(cs@, pat@, i as int),
{
    if pat.len() > cs.len() - i {
        return false;
    }
    let mut k: usize = 0;
    while k < pat.len()
        invariant
            i + pat@.len() <= cs@.len(),
            cs@.len() == cs.len(),
            0 <= k <= pat@.len(),
            forall|j: int| 0 <= j < k ==> cs@[i + j] == pat@[j],
        decreases pat@.len() - k,
    {
        if cs[i + k] != pat[k] {
            assert(cs@.subrange(i as int, i + pat@.len())[k as int] != pat@[k as int]);
            return false;
        }
        k = k + 1;
    }
    assert(cs@.subrange(i as int, i + pat@.len()) =~= pat@);
    true
}

/// std `str::replace` for a non-empty pattern, proved against `replaced`.
pub fn replace_all(s: &str, pat: &str, rep: &str) -> (r: String)
    requires
        pat@.len() > 0,
    ensures
        r@ == replaced(s@, pat@, rep@),
{
    let cs = chars_of(s);
    let ps = chars_of(pat);
    let mut r = String::new();
    let mut i: usize = 0;
    assert(cs@.skip(0) =~= cs@);
    while i < cs.len()
        invariant
            cs@ == s@,
            ps@ == pat@,
            ps@.len() > 0,
            0 <= i <= cs@.len(),
            r@ + replaced(cs@.skip(i as int), ps@, rep@) == replaced(cs@, ps@, rep@),
        decreases cs@.len() - i,
    {
        let ghost rest = cs@.skip(i as int);
        let ghost before = r@;
        if matches_at(&cs, i, &ps) {
            assert(occurs_at(rest, ps@, 0)) by {
                assert(rest.subrange(0, ps@.len() as int) =~= cs@.subrange(
                    i as int,
                    i + ps@.len(),
                ));
            }
            assert(rest.skip(ps@.len() as int) =~= cs@.skip(i + ps@.len()));
            r.append(rep);
            assert(before + (rep@ + replaced(cs@.skip(i + ps@.len()), ps@, rep@)) =~= r@
                + replaced(cs@.skip(i + ps@.len()), ps@, rep@));
            i = i + ps.len();
        } else {
            assert(!occurs_at(rest, ps@, 0)) by {
                if occurs_at(rest, ps@, 0) {
                    assert(rest.subrange(0, ps@.len() as int) =~= cs@.subrange(
                        i as int,
                        i + ps@.len(),
                    ));
                }
            }
            assert(rest.skip(1) =~= cs@.skip(i + 1));
            push_char(&mut r, cs[i]);
            assert(before + (seq![cs@[i as int]] + replaced(cs@.skip(i + 1), ps@, rep@)) =~= r@
                + replaced(cs@.skip(i + 1), ps@, rep@));
            i = i + 1;
        }
    }
    assert(r@ + replaced(cs@.skip(i as int), ps@, rep@) =~= r@);
    r
}

/// Number of characters before the first line feed of `s` (all of `s` if it has none).
pub open spec fn line_end(s: Seq<char>) -> nat
    decreases s.len(),
{
    if s.len() == 0 {
        0
    } else if s[0] == '\n' {
        0
    } else {
        1 + line_end(s.skip(1))
    }
}

/// A line with one trailing carriage return removed.
pub open spec fn strip_cr(l: Seq<char>) -> Seq<char> {
    if l.len() > 0 && l.last() == '\r' {
        l.drop_last()
    } else {
        l
    }
}

/// The lines of `s` as std `str::lines` yields them: split at each line feed,
/// one `\r` before a line feed is dropped, and a final line feed does not
/// start an extra empty line.
pub open spec fn split_lines(s: Seq<char>) -> Seq<Seq<char>>
    decreases s.len(),
{
    if s.len() == 0 {
        seq![]
    } else if line_end(s) >= s.len() {
        seq![s]
    } else {
        seq![strip_cr(s.take(line_end(s) as int))] + split_lines(s.skip(line_end(s) + 1 as int))
    }
}

proof fn lemma_line_end(s: Seq<char>, k: int)
    requires
        0 <= k <= s.len(),
        forall|j: int| 0 <= j < k ==> s[j] != '\n',
        k == s.len() || s[k] == '\n',
    ensures
        line_end(s) == k,
    decreases k,
{
    if k > 0 {
        lemma_line_end(s.skip(1), k - 1);
    }
}

/// std `str::lines`, proved against `split_lines`.
pub fn lines_of(s: &str) -> (r: Vec<String>)
    ensures
        r.deep_view() == split_lines(s@),
{
    let cs = chars_of(s);
    let mut r: Vec<String> = Vec::new();
    let mut start: usize = 0;
    let mut i: usize = 0;
    assert(cs@.skip(0) =~= cs@);
    while i < cs.len()
        invariant
            cs@ == s@,
            0 <= start <= i <= cs@.len(),
            forall|j: int| start <= j < i ==> cs@[j] != '\n',
            r.deep_view() + split_lines(cs@.skip(start as int)) == split_lines(cs@),
        decreases cs@.len() - i,
    {
        if cs[i] == '\n' {
            let ghost rest = cs@.skip(start as int);
            proof {
                lemma_line_end(rest, i - start);
            }
            let hi: usize = if i > start && cs[i - 1] == '\r' {
                i - 1
            } else {
                i
            };
            let line = string_of(&cs, start, hi);
            assert(line@ == strip_cr(rest.take(i - start))) by {
                assert(rest.take(i - start) =~= cs@.subrange(start as int, i as int));
                if i > start && cs@[i - 1] == '\r' {
                    assert(cs@.subrange(start as int, i as int).drop_last() =~= cs@.subrange(
                        start as int,
                        i - 1,
                    ));
                }
            }
            assert(rest.skip(i - start + 1) =~= cs@.skip(i + 1));
            let ghost old_r = r.deep_view();
            r.push(line);
            assert(r.deep_view() =~= old_r.push(line@));
            assert(old_r + split_lines(rest) =~= r.deep_view() + split_lines(cs@.skip(i + 1)));
            start = i + 1;
        }
        i = i + 1;
    }
    let ghost rest = cs@.skip(start as int);
    if start < cs.len() {
        proof {
            lemma_line_end(rest, cs@.len() - start);
        }
        let line = string_of(&cs, start, cs.len());
        assert(line@ =~= rest);
        let ghost old_r = r.deep_view();
        r.push(line);
        assert(r.deep_view() =~= old_r.push(line@));
        assert(old_r + split_lines(rest) =~= r.deep_view());
    } else {
        assert(r.deep_view() + split_lines(rest) =~= r.deep_view());
    }
    r
}

/// Whether `c` is white space in the sense of std `char::is_whitespace`
/// (the Unicode `White_Space` property).
pub open spec fn is_white_space(c: char) -> bool {
    let u = c as u32;
    ||| 0x9 <= u <= 0xd
    ||| u == 0x20
    ||| u == 0x85
    ||| u == 0xa0
    ||| u == 0x1680
    ||| 0x2000 <= u <= 0x200a
    ||| u == 0x2028
    ||| u == 0x2029
    ||| u == 0x202f
    ||| u == 0x205f
    ||| u == 0x3000
}

/// std `char::is_whitespace`.
pub fn white_space(c: char) -> (r: bool)
    ensures
        r == is_white_space(c),
{
    let u: u32 = c as u32;
    (0x9 <= u && u <= 0xd) || u == 0x20 || u == 0x85 || u == 0xa0 || u == 0x1680 || (0x2000 <= u
        && u <= 0x200a) || u == 0x2028 || u == 0x2029 || u == 0x202f || u == 0x205f || u == 0x3000
}

/// `l` without its leading white space (std `str::trim_start`).
pub open spec fn trim_start(l: Seq<char>) -> Seq<char>
    decreases l.len(),
{
    if l.len() > 0 && is_white_space(l[0]) {
        trim_start(l.skip(1))
    } else {
        l
    }
}

/// A comment line: after its leading white space it starts with `//`.
pub open spec fn is_comment_line(l: Seq<char>) -> bool {
    let t = trim_start(l);
    t.len() >= 2 && t[0] == '/' && t[1] == '/'
}

proof fn lemma_trim_start(l: Seq<char>, k: int)
    requires
        0 <= k <= l.len(),
        forall|j: int| 0 <= j < k ==> is_white_space(l[j]),
        k == l.len() || !is_white_space(l[k]),
    ensures
        trim_start(l) == l.skip(k),
    decreases k,
{
    if k == 0 {
        assert(l.skip(0) =~= l);
    } else {
        lemma_trim_start(l.skip(1), k - 1);
        assert(l.skip(1).skip(k - 1) =~= l.skip(k));
    }
}

/// Whether `line` is a comment line.
pub fn comment_line(line: &str) -> (r: bool)
    ensures
        r == is_comment_line(line@),
{
    let cs = chars_of(line);
    let mut k: usize = 0;
    while k < cs.len() && white_space(cs[k])
        invariant
            cs@ == line@,
            0 <= k <= cs@.len(),
            forall|j: int| 0 <= j < k ==> is_white_space(cs@[j]),
        decreases cs@.len() - k,
    {
        k = k + 1;
    }
    proof {
        lemma_trim_start(cs@, k as int);
    }
    cs.len() - k >= 2 && cs[k] == '/' && cs[k + 1] == '/'
}

/// The lines that are not comment lines, in their order.
pub open spec fn non_comment_lines(ls: Seq<Seq<char>>) -> Seq<Seq<char>>
    decreases ls.len(),
{
    if ls.len() == 0 {
        seq![]
    } else if is_comment_line(ls.last()) {
        non_comment_lines(ls.drop_last())
    } else {
        non_comment_lines(ls.drop_last()).push(ls.last())
    }
}

/// The lines joined with `sep` between neighbours (std `join`).
pub open spec fn joined(ls: Seq<Seq<char>>, sep: Seq<char>) -> Seq<char>
    decreases ls.len(),
{
    if ls.len() == 0 {
        seq![]
    } else if ls.len() == 1 {
        ls[0]
    } else {
        joined(ls.drop_last(), sep) + sep + ls.last()
    }
}

/// std `join` on a list of strings, proved against `joined`.
pub fn join(ls: &Vec<String>, sep: &str) -> (r: String)
    ensures
        r@ == joined(ls.deep_view(), sep@),
{
    let mut r = String::new();
    let mut i: usize = 0;
    while i < ls.len()
        invariant
            0 <= i <= ls@.len(),
            r@ == joined(ls.deep_view().take(i as int), sep@),
        decreases ls@.len() - i,
    {
        assert(ls.deep_view().take(i + 1).drop_last() =~= ls.deep_view().take(i as int));
        if i != 0 {
            r.append(sep);
        }
        r.append(ls[i].as_str());
        i = i + 1;
    }
    assert(ls.deep_view().take(i as int) =~= ls.deep_view());
    r
}

/// Text without its comment lines: split into lines, drop every comment
/// line, and join the rest with line feeds.
pub open spec fn without_comment_lines(s: Seq<char>) -> Seq<char> {
    joined(non_comment_lines(split_lines(s)), seq!['\n'])
}

/// Removes the comment lines of `s`, as the template parser does before
/// reading JSON with comments.
pub fn strip_comment_lines(s: &str) -> (r: String)
    ensures
        r@ == without_comment_lines(s@),
{
    let ls = lines_of(s);
    let mut kept: Vec<String> = Vec::new();
    let mut i: usize = 0;
    while i < ls.len()
        invariant
            0 <= i <= ls@.len(),
            kept.deep_view() == non_comment_lines(ls.deep_view().take(i as int)),
        decreases ls@.len() - i,
    {
        assert(ls.deep_view().take(i + 1).drop_last() =~= ls.deep_view().take(i as int));
        assert(ls.deep_view().take(i + 1).last() == ls[i as int]@);
        if !comment_line(ls[i].as_str()) {
            let ghost old_kept = kept.deep_view();
            kept.push(ls[i].clone());
            assert(kept.deep_view() =~= old_kept.push(ls[i as int]@));
        }
        i = i + 1;
    }
    assert(ls.deep_view().take(i as int) =~= ls.deep_view());
    let nl = "\n";
    proof {
        reveal_strlit("\n");
    }
    assert(nl@ =~= seq!['\n']);
    join(&kept, nl)
}

} // verus!
