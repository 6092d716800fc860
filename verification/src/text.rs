//! Character-level helpers shared by the hosts-file and duration code:
//! conversions between `str` and character vectors, Unicode white space,
//! trimming, and the line structure of a text.

use vstd::prelude::*;

verus! {

/// The characters of `s`, in order.
pub fn chars_of(s: &str) -> (out: Vec<char>)
    ensures
        out@ == s@,
{
    let mut out: Vec<char> = Vec::new();
    for c in it: s.chars()
        invariant
            out@ == it.history(),
    {
        out.push(c);
    }
    out
}

/// Appends the characters of `s` to `out`.
pub fn push_str(out: &mut Vec<char>, s: &str)
    ensures
        final(out)@ == old(out)@ + s@,
{
    let ghost start = out@;
    for c in it: s.chars()
        invariant
            out@ == start + it.history(),
    {
        out.push(c);
    }
}

/// Appends the characters of `s` to `out`.
pub fn push_chars(out: &mut Vec<char>, s: &Vec<char>)
    ensures
        final(out)@ == old(out)@ + s@,
{
    let ghost start = out@;
    let mut i: usize = 0;
    while i < s.len()
        invariant
            i <= s.len(),
            out@ == start + s@.take(i as int),
        decreases s.len() - i,
    {
        out.push(s[i]);
        i += 1;
        assert(s@.take(i as int) == s@.take(i - 1) + seq![s@[i - 1]]);
    }
    assert(s@.take(s.len() as int) == s@);
}

/// The string made of the characters of `v`, through `String::from_iter`.
///
/// Claims that the string holds exactly those characters, in order.
#[verifier::external_body]
pub(crate) fn string_from_chars(v: &Vec<char>) -> (s: String)
    ensures
        s@ == v@,
{
    String::from_iter(v.iter())
}

/// The text of `a` followed by `b`.
pub fn concat(a: &str, b: &str) -> (s: String)
    ensures
        s@ == a@ + b@,
{
    let mut out: Vec<char> = Vec::new();
    push_str(&mut out, a);
    push_str(&mut out, b);
    assert(Seq::<char>::empty() + a@ + b@ =~= a@ + b@);
    string_from_chars(&out)
}

/// Unicode `White_Space`: the characters that `char::is_whitespace` accepts.
pub open spec fn is_white_space(c: char) -> bool {
    ||| ('\t' <= c && c <= '\r')
    ||| c == ' '
    ||| c == '\u{85}'
    ||| c == '\u{A0}'
    ||| c == '\u{1680}'
    ||| ('\u{2000}' <= c && c <= '\u{200A}')
    ||| c == '\u{2028}'
    ||| c == '\u{2029}'
    ||| c == '\u{202F}'
    ||| c == '\u{205F}'
    ||| c == '\u{3000}'
}

/// Whether `c` is Unicode white space.
pub fn char_is_white_space(c: char) -> (b: bool)
    ensures
        b == is_white_space(c),
{
    ('\t' <= c && c <= '\r') || c == ' ' || c == '\u{85}' || c == '\u{A0}' || c == '\u{1680}'
        || ('\u{2000}' <= c && c <= '\u{200A}') || c == '\u{2028}' || c == '\u{2029}'
        || c == '\u{202F}' || c == '\u{205F}' || c == '\u{3000}'
}

/// `s` without its leading white space.
pub open spec fn trim_start(s: Seq<char>) -> Seq<char>
    decreases s.len(),
{
    if s.len() > 0 && is_white_space(s[0]) {
        trim_start(s.drop_first())
    } else {
        s
    }
}

/// `s` without its trailing white space.
pub open spec fn trim_end(s: Seq<char>) -> Seq<char>
    decreases s.len(),
{
    if s.len() > 0 && is_white_space(s.last()) {
        trim_end(s.drop_last())
    } else {
        s
    }
}

/// `s` without leading and trailing white space, as `str::trim` gives it.
pub open spec fn trim(s: Seq<char>) -> Seq<char> {
    trim_end(trim_start(s))
}

proof fn lemma_trim_start_skip(s: Seq<char>, i: int)
    requires
        0 <= i <= s.len(),
        forall|k: int| 0 <= k < i ==> is_white_space(#[trigger] s[k]),
    ensures
        trim_start(s) == trim_start(s.skip(i)),
    decreases i,
{
    if i > 0 {
        assert(s.drop_first().skip(i - 1) =~= s.skip(i));
        lemma_trim_start_skip(s.drop_first(), i - 1);
    } else {
        assert(s.skip(0) =~= s);
    }
}

proof fn lemma_trim_end_take(s: Seq<char>, j: int)
    requires
        0 <= j <= s.len(),
        forall|k: int| j <= k < s.len() ==> is_white_space(#[trigger] s[k]),
    ensures
        trim_end(s) == trim_end(s.take(j)),
    decreases s.len() - j,
{
    if j < s.len() {
        assert(s.drop_last().take(j) =~= s.take(j));
        lemma_trim_end_take(s.drop_last(), j);
    } else {
        assert(s.take(j) =~= s);
    }
}

/// `line` without leading and trailing white space.
pub fn trim_chars(line: &Vec<char>) -> (r: Vec<char>)
    ensures
        r@ == trim(line@),
{
    let n = line.len();
    let mut i: usize = 0;
    while i < n && char_is_white_space(line[i])
        invariant
            n == line.len(),
            i <= n,
            forall|k: int| 0 <= k < i ==> is_white_space(#[trigger] line@[k]),
        decreases n - i,
    {
        i += 1;
    }
    proof {
        lemma_trim_start_skip(line@, i as int);
    }
    let ghost rest = line@.skip(i as int);
    assert(trim_start(rest) == rest);
    let mut j: usize = n;
    while j > i && char_is_white_space(line[j - 1])
        invariant
            n == line.len(),
            i <= j <= n,
            forall|k: int| j <= k < n ==> is_white_space(#[trigger] line@[k]),
        decreases j,
    {
        j -= 1;
    }
    proof {
        assert forall|k: int| j - i <= k < rest.len() implies is_white_space(#[trigger] rest[k]) by {
            assert(rest[k] == line@[k + i]);
        }
        lemma_trim_end_take(rest, j - i);
        assert(rest.take(j - i) =~= line@.subrange(i as int, j as int));
    }
    let mut r: Vec<char> = Vec::new();
    let mut k: usize = i;
    while k < j
        invariant
            i <= k <= j,
            j <= n,
            n == line.len(),
            r@ == line@.subrange(i as int, k as int),
        decreases j - k,
    {
        r.push(line[k]);
        k += 1;
        assert(r@ =~= line@.subrange(i as int, k as int));
    }
    r
}

/// Whether `trim(line) == target`.
pub fn trimmed_equals(line: &Vec<char>, target: &Vec<char>) -> (b: bool)
    ensures
        b == (trim(line@) == target@),
{
    let n = line.len();
    let mut i: usize = 0;
    while i < n && char_is_white_space(line[i])
        invariant
            n == line.len(),
            i <= n,
            forall|k: int| 0 <= k < i ==> is_white_space(#[trigger] line@[k]),
        decreases n - i,
    {
        i += 1;
    }
    proof {
        lemma_trim_start_skip(line@, i as int);
    }
    let ghost rest = line@.skip(i as int);
    assert(trim_start(rest) == rest);
    let mut j: usize = n;
    while j > i && char_is_white_space(line[j - 1])
        invariant
            n == line.len(),
            i <= j <= n,
            forall|k: int| j <= k < n ==> is_white_space(#[trigger] line@[k]),
        decreases j,
    {
        j -= 1;
    }
    proof {
        assert forall|k: int| j - i <= k < rest.len() implies is_white_space(#[trigger] rest[k]) by {
            assert(rest[k] == line@[k + i]);
        }
        lemma_trim_end_take(rest, j - i);
        assert(rest.take(j - i) =~= line@.subrange(i as int, j as int));
    }
    let ghost core = line@.subrange(i as int, j as int);
    assert(trim(line@) == trim_end(core));
    assert(trim_end(core) == core);
    if j - i != target.len() {
        return false;
    }
    let mut k: usize = 0;
    while k < target.len()
        invariant
            i <= j <= n,
            n == line.len(),
            j - i == target.len(),
            k <= target.len(),
            core == line@.subrange(i as int, j as int),
            trim(line@) == core,
            forall|m: int| 0 <= m < k ==> line@[i + m] == target@[m],
        decreases target.len() - k,
    {
        if line[i + k] != target[k] {
            assert(core[k as int] != target@[k as int]);
            return false;
        }
        k += 1;
    }
    assert(core =~= target@);
    true
}

/// Whether `s` ends with a line feed.
pub open spec fn ends_with_newline(s: Seq<char>) -> bool {
    s.len() > 0 && s.last() == '\n'
}

/// A line without the carriage return that ends it, if any.
pub open spec fn strip_cr(l: Seq<char>) -> Seq<char> {
    if l.len() > 0 && l.last() == '\r' {
        l.drop_last()
    } else {
        l
    }
}

/// Scanning `s` from the left: the lines completed so far (each ended by
/// `'\n'`, with a `'\r'` before it dropped) and the line still open.
pub open spec fn split_state(s: Seq<char>) -> (Seq<Seq<char>>, Seq<char>)
    decreases s.len(),
{
    if s.len() == 0 {
        (seq![], seq![])
    } else {
        let p = split_state(s.drop_last());
        if s.last() == '\n' {
            (p.0.push(strip_cr(p.1)), seq![])
        } else {
            (p.0, p.1.push(s.last()))
        }
    }
}

/// The lines of `s`, as `str::lines` gives them: split at `'\n'`, a `'\r'`
/// right before it dropped, and no empty line after a final `'\n'`.
pub open spec fn lines(s: Seq<char>) -> Seq<Seq<char>> {
    let st = split_state(s);
    if st.1.len() > 0 {
        st.0.push(st.1)
    } else {
        st.0
    }
}

/// Each line followed by `'\n'`, concatenated.
pub open spec fn join_terminated(ls: Seq<Seq<char>>) -> Seq<char>
    decreases ls.len(),
{
    if ls.len() == 0 {
        seq![]
    } else {
        join_terminated(ls.drop_last()) + ls.last() + seq!['\n']
    }
}

/// Whether `s` holds a carriage return immediately followed by a line feed.
pub open spec fn has_crlf(s: Seq<char>) -> bool {
    exists|i: int| 0 <= i < s.len() - 1 && s[i] == '\r' && #[trigger] s[i + 1] == '\n'
}

pub proof fn lemma_split_state_open_empty(s: Seq<char>)
    requires
        s.len() == 0 || ends_with_newline(s),
    ensures
        split_state(s).1 == Seq::<char>::empty(),
{
}

pub proof fn lemma_split_state_concat(a: Seq<char>, b: Seq<char>)
    requires
        split_state(a).1 == Seq::<char>::empty(),
    ensures
        split_state(a + b) == (split_state(a).0 + split_state(b).0, split_state(b).1),
    decreases b.len(),
{
    if b.len() == 0 {
        assert(a + b =~= a);
        assert(split_state(a).0 + split_state(b).0 =~= split_state(a).0);
    } else {
        assert((a + b).drop_last() =~= a + b.drop_last());
        lemma_split_state_concat(a, b.drop_last());
        let p = split_state(b.drop_last());
        if b.last() == '\n' {
            assert(split_state(a).0 + p.0.push(strip_cr(p.1)) =~= (split_state(a).0 + p.0).push(
                strip_cr(p.1),
            ));
        }
    }
}

/// `lines` distributes over a split right after a line feed.
pub proof fn lemma_lines_concat(a: Seq<char>, b: Seq<char>)
    requires
        a.len() == 0 || ends_with_newline(a),
    ensures
        lines(a + b) == lines(a) + lines(b),
{
    lemma_split_state_open_empty(a);
    lemma_split_state_concat(a, b);
    let sb = split_state(b);
    if sb.1.len() > 0 {
        assert(split_state(a).0 + sb.0.push(sb.1) =~= (split_state(a).0 + sb.0).push(sb.1));
    }
}

/// Text without a line feed is a single open line.
pub proof fn lemma_split_state_no_newline(l: Seq<char>)
    requires
        !l.contains('\n'),
    ensures
        split_state(l) == (Seq::<Seq<char>>::empty(), l),
    decreases l.len(),
{
    if l.len() > 0 {
        assert(!l.drop_last().contains('\n')) by {
            if l.drop_last().contains('\n') {
                let k = choose|k: int| 0 <= k < l.drop_last().len() && l.drop_last()[k] == '\n';
                assert(l[k] == '\n');
            }
        }
        lemma_split_state_no_newline(l.drop_last());
        assert(l.last() != '\n') by {
            assert(l[l.len() - 1] == l.last());
        }
        assert(l.drop_last().push(l.last()) =~= l);
    } else {
        assert(l =~= Seq::<char>::empty());
    }
}

/// A line without line feeds, followed by one, reads back as that line.
pub proof fn lemma_lines_single(l: Seq<char>)
    requires
        !l.contains('\n'),
        !(l.len() > 0 && l.last() == '\r'),
    ensures
        lines(l + seq!['\n']) == seq![l],
{
    let s = l + seq!['\n'];
    assert(s.drop_last() =~= l);
    lemma_split_state_no_newline(l);
}

/// Terminated lines read back as those lines.
pub proof fn lemma_lines_join(ls: Seq<Seq<char>>)
    requires
        forall|i: int|
            0 <= i < ls.len() ==> !(#[trigger] ls[i]).contains('\n') && !(ls[i].len() > 0
                && ls[i].last() == '\r'),
    ensures
        lines(join_terminated(ls)) == ls,
        split_state(join_terminated(ls)).1 == Seq::<char>::empty(),
    decreases ls.len(),
{
    if ls.len() > 0 {
        let init = ls.drop_last();
        assert forall|i: int|
            0 <= i < init.len() implies !(#[trigger] init[i]).contains('\n') && !(init[i].len() > 0
            && init[i].last() == '\r') by {
            assert(init[i] == ls[i]);
        }
        lemma_lines_join(init);
        let l = ls.last();
        assert(l == ls[ls.len() - 1]);
        let j = join_terminated(init);
        assert(join_terminated(ls) =~= j + (l + seq!['\n']));
        lemma_split_state_concat(j, l + seq!['\n']);
        lemma_lines_single(l);
        lemma_split_state_open_empty(l + seq!['\n']);
        assert(init.push(l) =~= ls);
    }
}

/// Whether `t` occurs in `s` as a contiguous piece.
pub open spec fn contains_text(s: Seq<char>, t: Seq<char>) -> bool {
    exists|i: int| 0 <= i && i + t.len() <= s.len() && #[trigger] s.subrange(i, i + t.len()) == t
}

/// Whether `s` begins with `p`.
pub open spec fn starts_with(s: Seq<char>, p: Seq<char>) -> bool {
    p.len() <= s.len() && s.take(p.len() as int) == p
}

/// Whether `t` occurs in `s` at position `i`.
fn matches_at(s: &Vec<char>, t: &Vec<char>, i: usize) -> (b: bool)
    requires
        i + t.len() <= s.len(),
    ensures
        b == (s@.subrange(i as int, i + t.len()) == t@),
{
    let mut k: usize = 0;
    while k < t.len()
        invariant
            i + t.len() <= s.len(),
            k <= t.len(),
            forall|m: int| 0 <= m < k ==> s@[i + m] == t@[m],
        decreases t.len() - k,
    {
        if s[i + k] != t[k] {
            assert(s@.subrange(i as int, i + t.len())[k as int] != t@[k as int]);
            return false;
        }
        k += 1;
    }
    assert(s@.subrange(i as int, i + t.len()) =~= t@);
    true
}

/// Whether `t` occurs in `s`.
pub fn contains_chars(s: &Vec<char>, t: &Vec<char>) -> (b: bool)
    ensures
        b == contains_text(s@, t@),
{
    if t.len() > s.len() {
        return false;
    }
    let last = s.len() - t.len();
    let mut i: usize = 0;
    while i < last
        invariant
            last == s.len() - t.len(),
            t.len() <= s.len(),
            i <= last,
            forall|j: int| 0 <= j < i ==> #[trigger] s@.subrange(j, j + t.len()) != t@,
        decreases last - i,
    {
        if matches_at(s, t, i) {
            return true;
        }
        i += 1;
    }
    if matches_at(s, t, last) {
        return true;
    }
    assert forall|j: int| 0 <= j && j + t.len() <= s.len() implies #[trigger] s@.subrange(
        j,
        j + t.len(),
    ) != t@ by {
        assert(j <= last);
    }
    false
}

/// Whether `s` begins with `p`.
pub fn starts_with_chars(s: &Vec<char>, p: &Vec<char>) -> (b: bool)
    ensures
        b == starts_with(s@, p@),
{
    if p.len() > s.len() {
        return false;
    }
    let b = matches_at(s, p, 0);
    assert(s@.subrange(0, p.len() as int) =~= s@.take(p.len() as int));
    b
}

/// No line of a text holds a line feed.
pub proof fn lemma_split_state_no_newline_inside(s: Seq<char>)
    ensures
        forall|i: int|
            0 <= i < split_state(s).0.len() ==> !(#[trigger] split_state(s).0[i]).contains('\n'),
        !split_state(s).1.contains('\n'),
        split_state(s).1.len() > 0 ==> split_state(s).1.last() == s.last(),
    decreases s.len(),
{
    if s.len() > 0 {
        let p = split_state(s.drop_last());
        lemma_split_state_no_newline_inside(s.drop_last());
        if s.last() == '\n' {
            let l = strip_cr(p.1);
            assert(!l.contains('\n')) by {
                if l.contains('\n') {
                    let k = choose|k: int| 0 <= k < l.len() && l[k] == '\n';
                    assert(p.1[k] == '\n');
                }
            }
            assert forall|i: int| 0 <= i < p.0.push(l).len() implies !(#[trigger] p.0.push(
                l,
            )[i]).contains('\n') by {
                if i < p.0.len() {
                    assert(p.0.push(l)[i] == p.0[i]);
                }
            }
        } else {
            let c = p.1.push(s.last());
            assert(!c.contains('\n')) by {
                if c.contains('\n') {
                    let k = choose|k: int| 0 <= k < c.len() && c[k] == '\n';
                    if k < p.1.len() {
                        assert(p.1[k] == '\n');
                    }
                }
            }
        }
    }
}

/// Every line of a text is free of line feeds.
pub proof fn lemma_lines_no_newline(s: Seq<char>)
    ensures
        forall|i: int| 0 <= i < lines(s).len() ==> !(#[trigger] lines(s)[i]).contains('\n'),
{
    lemma_split_state_no_newline_inside(s);
    let st = split_state(s);
    if st.1.len() > 0 {
        assert forall|i: int| 0 <= i < lines(s).len() implies !(#[trigger] lines(s)[i]).contains(
            '\n',
        ) by {
            if i < st.0.len() {
                assert(lines(s)[i] == st.0[i]);
            }
        }
    }
}

/// Joining distributes over concatenation.
pub proof fn lemma_join_concat(a: Seq<Seq<char>>, b: Seq<Seq<char>>)
    ensures
        join_terminated(a + b) == join_terminated(a) + join_terminated(b),
    decreases b.len(),
{
    if b.len() == 0 {
        assert(a + b =~= a);
    } else {
        assert((a + b).drop_last() =~= a + b.drop_last());
        lemma_join_concat(a, b.drop_last());
        assert((a + b).last() == b.last());
    }
}

/// A joined line that ends with a carriage return puts it before a line feed.
pub proof fn lemma_join_no_crlf(ls: Seq<Seq<char>>)
    requires
        !has_crlf(join_terminated(ls)),
    ensures
        forall|i: int|
            0 <= i < ls.len() ==> !((#[trigger] ls[i]).len() > 0 && ls[i].last() == '\r'),
{
    assert forall|i: int| 0 <= i < ls.len() implies !((#[trigger] ls[i]).len() > 0 && ls[i].last()
        == '\r') by {
        if ls[i].len() > 0 && ls[i].last() == '\r' {
            let a = ls.take(i + 1);
            let b = ls.skip(i + 1);
            assert(a + b =~= ls);
            lemma_join_concat(a, b);
            assert(a.drop_last() =~= ls.take(i));
            let pre = join_terminated(ls.take(i));
            let j = join_terminated(ls);
            assert(join_terminated(a) =~= pre + ls[i] + seq!['\n']);
            let p = pre.len() + ls[i].len() - 1;
            assert(j[p] == '\r');
            assert(j[p + 1] == '\n');
            assert(has_crlf(j));
        }
    }
}

/// Without a CR LF, the completed lines and the open line spell the text.
pub proof fn lemma_split_state_spells(s: Seq<char>)
    requires
        !has_crlf(s),
    ensures
        join_terminated(split_state(s).0) + split_state(s).1 == s,
    decreases s.len(),
{
    if s.len() > 0 {
        let q = s.drop_last();
        assert(!has_crlf(q)) by {
            if has_crlf(q) {
                let i = choose|i: int| 0 <= i < q.len() - 1 && q[i] == '\r' && #[trigger] q[i + 1] == '\n';
                assert(s[i] == '\r' && s[i + 1] == '\n');
            }
        }
        lemma_split_state_spells(q);
        lemma_split_state_no_newline_inside(q);
        let p = split_state(q);
        if s.last() == '\n' {
            if p.1.len() > 0 && p.1.last() == '\r' {
                assert(q.last() == '\r');
                let w = s.len() - 2;
                assert(s[w] == '\r' && s[w + 1] == '\n');
                assert(has_crlf(s));
            }
            assert(strip_cr(p.1) == p.1);
            assert(p.0.push(p.1).drop_last() =~= p.0);
            assert(join_terminated(p.0.push(p.1)) + Seq::<char>::empty() =~= s);
        } else {
            assert(q.push(s.last()) =~= s);
            assert((join_terminated(p.0) + p.1).push(s.last()) =~= join_terminated(p.0) + p.1.push(
                s.last(),
            ));
        }
    }
}

/// Splitting text without carriage returns gives lines without them.
pub proof fn lemma_split_state_no_cr(s: Seq<char>)
    requires
        !s.contains('\r'),
    ensures
        forall|i: int|
            0 <= i < split_state(s).0.len() ==> !(#[trigger] split_state(s).0[i]).contains('\r'),
        !split_state(s).1.contains('\r'),
    decreases s.len(),
{
    if s.len() > 0 {
        let q = s.drop_last();
        assert(!q.contains('\r')) by {
            if q.contains('\r') {
                let k = choose|k: int| 0 <= k < q.len() && q[k] == '\r';
                assert(s[k] == '\r');
            }
        }
        lemma_split_state_no_cr(q);
        let p = split_state(q);
        if s.last() == '\n' {
            let l = strip_cr(p.1);
            assert(!l.contains('\r')) by {
                if l.contains('\r') {
                    let k = choose|k: int| 0 <= k < l.len() && l[k] == '\r';
                    assert(p.1[k] == '\r');
                }
            }
            assert forall|i: int| 0 <= i < p.0.push(l).len() implies !(#[trigger] p.0.push(
                l,
            )[i]).contains('\r') by {
                if i < p.0.len() {
                    assert(p.0.push(l)[i] == p.0[i]);
                }
            }
        } else {
            assert(s.last() != '\r') by {
                assert(s[s.len() - 1] == s.last());
            }
            let l = p.1.push(s.last());
            assert(!l.contains('\r')) by {
                if l.contains('\r') {
                    let k = choose|k: int| 0 <= k < l.len() && l[k] == '\r';
                    if k < p.1.len() {
                        assert(p.1[k] == '\r');
                    }
                }
            }
        }
    }
}

/// The lines of text without carriage returns have none.
pub proof fn lemma_lines_no_cr(s: Seq<char>)
    requires
        !s.contains('\r'),
    ensures
        forall|i: int| 0 <= i < lines(s).len() ==> !(#[trigger] lines(s)[i]).contains('\r'),
{
    lemma_split_state_no_cr(s);
    let st = split_state(s);
    assert forall|i: int| 0 <= i < lines(s).len() implies !(#[trigger] lines(s)[i]).contains(
        '\r',
    ) by {
        if i < st.0.len() {
            assert(lines(s)[i] == st.0[i]);
        }
    }
}

/// Lines without carriage returns, joined, hold none.
pub proof fn lemma_join_no_cr(ls: Seq<Seq<char>>)
    requires
        forall|i: int| 0 <= i < ls.len() ==> !(#[trigger] ls[i]).contains('\r'),
    ensures
        !join_terminated(ls).contains('\r'),
    decreases ls.len(),
{
    if ls.len() > 0 {
        let init = ls.drop_last();
        assert forall|i: int| 0 <= i < init.len() implies !(#[trigger] init[i]).contains('\r') by {
            assert(init[i] == ls[i]);
        }
        lemma_join_no_cr(init);
        let a = join_terminated(init);
        let l = ls.last();
        assert(!l.contains('\r')) by {
            assert(ls[ls.len() - 1] == l);
        }
        let j = join_terminated(ls);
        assert(j =~= a + l + seq!['\n']);
        if j.contains('\r') {
            let k = choose|k: int| 0 <= k < j.len() && j[k] == '\r';
            if k < a.len() {
                assert(a[k] == '\r');
            } else if k < a.len() + l.len() {
                assert(l[k - a.len()] == '\r');
            }
        }
    }
}

/// A line without line feeds, followed by one, reads back as that line
/// without a final carriage return.
pub proof fn lemma_lines_one(l: Seq<char>)
    requires
        !l.contains('\n'),
    ensures
        lines(l + seq!['\n']) == seq![strip_cr(l)],
{
    lemma_split_state_no_newline(l);
    let s = l + seq!['\n'];
    assert(s.drop_last() =~= l);
    assert(split_state(s) == (Seq::<Seq<char>>::empty().push(strip_cr(l)), Seq::<char>::empty()));
    assert(Seq::<Seq<char>>::empty().push(strip_cr(l)) =~= seq![strip_cr(l)]);
}

/// Text that is not empty and does not end with a line feed has an open
/// last line.
pub proof fn lemma_split_state_open(s: Seq<char>)
    requires
        s.len() > 0,
        !ends_with_newline(s),
    ensures
        split_state(s).1.len() > 0,
{
}

/// Ending a text that has an open last line without carriage returns with
/// a line feed changes none of its lines.
pub proof fn lemma_lines_terminated(s: Seq<char>)
    requires
        s.len() > 0,
        !ends_with_newline(s),
        !s.contains('\r'),
    ensures
        lines(s.push('\n')) == lines(s),
{
    lemma_split_state_open(s);
    lemma_split_state_no_cr(s);
    let st = split_state(s);
    assert(s.push('\n').drop_last() =~= s);
    assert(strip_cr(st.1) == st.1) by {
        if st.1.len() > 0 && st.1.last() == '\r' {
            assert(st.1[st.1.len() - 1] == '\r');
        }
    }
}

/// A text whose first character is not white space keeps it when trimmed.
pub proof fn lemma_trim_keeps_first(s: Seq<char>)
    requires
        s.len() > 0,
        !is_white_space(s[0]),
    ensures
        trim(s).len() > 0,
        trim(s)[0] == s[0],
{
    assert(trim_start(s) == s);
    lemma_trim_end_keeps_first(s);
}

proof fn lemma_trim_end_keeps_first(s: Seq<char>)
    requires
        s.len() > 0,
        !is_white_space(s[0]),
    ensures
        trim_end(s).len() > 0,
        trim_end(s)[0] == s[0],
    decreases s.len(),
{
    if is_white_space(s.last()) {
        assert(s.len() > 1);
        assert(s.drop_last()[0] == s[0]);
        lemma_trim_end_keeps_first(s.drop_last());
    }
}

} // verus!
