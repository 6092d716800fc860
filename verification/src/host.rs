//! The managed block of the hosts file: a region between two marker lines
//! that maps each blocked host (and its `www.` form) to the loopback address.

use vstd::prelude::*;
use crate::text::{
    chars_of, contains_chars, contains_text, ends_with_newline, has_crlf, is_white_space,
    join_terminated, lemma_join_no_crlf, lemma_lines_concat, lemma_lines_join,
    lemma_join_no_cr, lemma_lines_no_cr, lemma_lines_no_newline, lemma_lines_one,
    lemma_lines_single, lemma_lines_terminated, lemma_split_state_open_empty,
    lemma_trim_keeps_first,
    lemma_split_state_spells, lines, push_chars, push_str, split_state, starts_with,
    starts_with_chars, string_from_chars, strip_cr, trim, trim_end, trim_start, trimmed_equals,
};

verus! {

/// The line that opens the managed block.
pub const MARKER_START: &'static str = "# --- focusd start ---";

/// The line that closes the managed block.
pub const MARKER_END: &'static str = "# --- focusd end ---";

/// What every block entry begins with.
pub const LOOPBACK_PREFIX: &'static str = "127.0.0.1 ";

/// The prefix whose presence stops a host from getting a second entry.
pub const WWW_PREFIX: &'static str = "www.";

/// Scanning `ls` from the left, starting inside a block when `skip0`: the
/// lines kept so far, and whether the scan is inside a block. A line that
/// trims to the start marker opens a block; inside one, a line that trims
/// to the end marker closes it; every other line outside a block is kept.
pub open spec fn filter_block(ls: Seq<Seq<char>>, skip0: bool) -> (Seq<Seq<char>>, bool)
    decreases ls.len(),
{
    if ls.len() == 0 {
        (seq![], skip0)
    } else {
        let p = filter_block(ls.drop_last(), skip0);
        let l = ls.last();
        if trim(l) == MARKER_START@ {
            (p.0, true)
        } else if p.1 {
            (p.0, trim(l) != MARKER_END@)
        } else {
            (p.0.push(l), false)
        }
    }
}

/// The hosts text with every managed block taken out: the kept lines, each
/// ended by `'\n'`, except that the final `'\n'` is dropped when `content`
/// did not end with one.
pub open spec fn removed_text(content: Seq<char>) -> Seq<char> {
    let r = join_terminated(filter_block(lines(content), false).0);
    if !ends_with_newline(content) && ends_with_newline(r) {
        r.drop_last()
    } else {
        r
    }
}

/// The text that precedes the new block: `removed_text`, with a `'\n'`
/// added when it is not empty and does not end with one.
pub open spec fn block_free_prefix(content: Seq<char>) -> Seq<char> {
    let r = removed_text(content);
    if r.len() > 0 && !ends_with_newline(r) {
        r.push('\n')
    } else {
        r
    }
}

/// The lines that block one host: the host itself, and its `www.` form
/// unless it already starts with `www.`.
pub open spec fn host_entry(h: Seq<char>) -> Seq<char> {
    LOOPBACK_PREFIX@ + h + seq!['\n'] + if starts_with(h, WWW_PREFIX@) {
        Seq::<char>::empty()
    } else {
        LOOPBACK_PREFIX@ + WWW_PREFIX@ + h + seq!['\n']
    }
}

/// The entries of all hosts, in order.
pub open spec fn host_entries(hosts: Seq<Seq<char>>) -> Seq<char>
    decreases hosts.len(),
{
    if hosts.len() == 0 {
        seq![]
    } else {
        host_entries(hosts.drop_last()) + host_entry(hosts.last())
    }
}

/// The text of each host.
pub open spec fn host_texts(hosts: Seq<String>) -> Seq<Seq<char>> {
    hosts.map_values(|h: String| h@)
}

/// The hosts text with one managed block for `hosts` at its end and no other.
pub open spec fn added_text(content: Seq<char>, hosts: Seq<Seq<char>>) -> Seq<char> {
    block_free_prefix(content) + MARKER_START@ + seq!['\n'] + host_entries(hosts) + MARKER_END@
        + seq!['\n']
}

/// Check if the hosts content contains our managed block
pub fn has_blocked_hosts(content: &str) -> (b: bool)
    ensures
        b == contains_text(content@, MARKER_START@),
{
    let text = chars_of(content);
    let marker = chars_of(MARKER_START);
    contains_chars(&text, &marker)
}

/// One step of `filter_block` on `line`, applied to the kept text `out` and
/// the in-block flag `skip`.
fn filter_line(
    out: &mut Vec<char>,
    skip: &mut bool,
    line: &Vec<char>,
    start: &Vec<char>,
    end: &Vec<char>,
)
    requires
        start@ == MARKER_START@,
        end@ == MARKER_END@,
    ensures
        trim(line@) == MARKER_START@ ==> final(out)@ == old(out)@ && *final(skip),
        trim(line@) != MARKER_START@ && *old(skip) ==> final(out)@ == old(out)@ && *final(skip)
            == (trim(line@) != MARKER_END@),
        trim(line@) != MARKER_START@ && !*old(skip) ==> final(out)@ == old(out)@ + line@ + seq![
            '\n',
        ] && !*final(skip),
{
    if trimmed_equals(line, start) {
        *skip = true;
    } else if *skip {
        if trimmed_equals(line, end) {
            *skip = false;
        }
    } else {
        push_chars(out, line);
        out.push('\n');
    }
}

/// Takes every managed block out of the hosts text.
pub fn remove_blocked_hosts(content: &str) -> (result: String)
    ensures
        result@ == removed_text(content@),
{
    let chars = chars_of(content);
    let start = chars_of(MARKER_START);
    let end = chars_of(MARKER_END);
    let mut out: Vec<char> = Vec::new();
    let mut skip = false;
    let mut cur: Vec<char> = Vec::new();
    let mut i: usize = 0;
    while i < chars.len()
        invariant
            i <= chars.len(),
            start@ == MARKER_START@,
            end@ == MARKER_END@,
            out@ == join_terminated(filter_block(split_state(chars@.take(i as int)).0, false).0),
            skip == filter_block(split_state(chars@.take(i as int)).0, false).1,
            cur@ == split_state(chars@.take(i as int)).1,
        decreases chars.len() - i,
    {
        let ghost pre = chars@.take(i as int);
        let ghost done = split_state(pre).0;
        let ch = chars[i];
        assert(chars@.take(i + 1).drop_last() =~= pre);
        if ch == '\n' {
            if cur.len() > 0 && cur[cur.len() - 1] == '\r' {
                cur.pop();
            }
            assert(cur@ == strip_cr(split_state(pre).1));
            filter_line(&mut out, &mut skip, &cur, &start, &end);
            proof {
                let o = filter_block(done, false).0;
                assert(o.push(cur@).drop_last() =~= o);
                assert(done.push(cur@).drop_last() =~= done);
            }
            cur = Vec::new();
        } else {
            cur.push(ch);
        }
        i += 1;
    }
    assert(chars@.take(chars.len() as int) =~= chars@);
    let ghost done = split_state(chars@).0;
    if cur.len() > 0 {
        filter_line(&mut out, &mut skip, &cur, &start, &end);
        proof {
            let o = filter_block(done, false).0;
            assert(o.push(cur@).drop_last() =~= o);
            assert(done.push(cur@).drop_last() =~= done);
        }
    }
    assert(out@ == join_terminated(filter_block(lines(content@), false).0));
    let ends_nl = chars.len() > 0 && chars[chars.len() - 1] == '\n';
    if !ends_nl && out.len() > 0 && out[out.len() - 1] == '\n' {
        out.pop();
    }
    string_from_chars(&out)
}

/// Replaces any managed block of the hosts text with one that blocks `hosts`.
pub fn add_blocked_hosts(content: &str, hosts: &[String]) -> (result: String)
    ensures
        result@ == added_text(content@, host_texts(hosts@)),
{
    let removed = remove_blocked_hosts(content);
    let mut out = chars_of(removed.as_str());
    if out.len() > 0 && out[out.len() - 1] != '\n' {
        out.push('\n');
    }
    assert(out@ == block_free_prefix(content@));
    let ghost prefix = out@;
    push_str(&mut out, MARKER_START);
    out.push('\n');
    let www = chars_of(WWW_PREFIX);
    let ghost head = out@;
    let ghost texts = host_texts(hosts@);
    let mut k: usize = 0;
    while k < hosts.len()
        invariant
            k <= hosts.len(),
            www@ == WWW_PREFIX@,
            texts == host_texts(hosts@),
            out@ == head + host_entries(texts.take(k as int)),
        decreases hosts.len() - k,
    {
        let h = chars_of(hosts[k].as_str());
        assert(h@ == texts[k as int]);
        let ghost before = out@;
        push_str(&mut out, LOOPBACK_PREFIX);
        push_chars(&mut out, &h);
        out.push('\n');
        if !starts_with_chars(&h, &www) {
            push_str(&mut out, LOOPBACK_PREFIX);
            push_str(&mut out, WWW_PREFIX);
            push_chars(&mut out, &h);
            out.push('\n');
        }
        assert(out@ =~= before + host_entry(h@));
        assert(texts.take(k + 1).drop_last() =~= texts.take(k as int));
        k += 1;
    }
    assert(texts.take(hosts.len() as int) =~= texts);
    push_str(&mut out, MARKER_END);
    out.push('\n');
    assert(out@ =~= added_text(content@, texts));
    string_from_chars(&out)
}

/// Whether no line of `t` trims to the end marker.
pub open spec fn no_end_marker_line(t: Seq<char>) -> bool {
    forall|i: int| 0 <= i < lines(t).len() ==> trim(#[trigger] lines(t)[i]) != MARKER_END@
}

/// Whether no line of `t` trims to the start marker.
pub open spec fn no_start_marker_line(t: Seq<char>) -> bool {
    forall|i: int| 0 <= i < lines(t).len() ==> trim(#[trigger] lines(t)[i]) != MARKER_START@
}

proof fn lemma_filter_concat(a: Seq<Seq<char>>, b: Seq<Seq<char>>, s0: bool)
    ensures
        filter_block(a + b, s0) == (
            filter_block(a, s0).0 + filter_block(b, filter_block(a, s0).1).0,
            filter_block(b, filter_block(a, s0).1).1,
        ),
    decreases b.len(),
{
    let fa = filter_block(a, s0);
    if b.len() == 0 {
        assert(a + b =~= a);
        assert(fa.0 + Seq::<Seq<char>>::empty() =~= fa.0);
    } else {
        assert((a + b).drop_last() =~= a + b.drop_last());
        lemma_filter_concat(a, b.drop_last(), s0);
        let p = filter_block(b.drop_last(), fa.1);
        let l = b.last();
        assert((a + b).last() == l);
        assert(fa.0 + p.0.push(l) =~= (fa.0 + p.0).push(l));
    }
}

proof fn lemma_filter_output(ls: Seq<Seq<char>>, s0: bool)
    ensures
        forall|i: int|
            0 <= i < filter_block(ls, s0).0.len() ==> (exists|j: int|
                0 <= j < ls.len() && ls[j] == #[trigger] filter_block(ls, s0).0[i]) && trim(
                filter_block(ls, s0).0[i],
            ) != MARKER_START@,
    decreases ls.len(),
{
    if ls.len() > 0 {
        let init = ls.drop_last();
        lemma_filter_output(init, s0);
        let p = filter_block(init, s0);
        let out = filter_block(ls, s0).0;
        assert forall|i: int| 0 <= i < out.len() implies (exists|j: int|
            0 <= j < ls.len() && ls[j] == #[trigger] out[i]) && trim(out[i]) != MARKER_START@ by {
            if i < p.0.len() {
                assert(out[i] == p.0[i]);
                let j = choose|j: int| 0 <= j < init.len() && init[j] == p.0[i];
                assert(ls[j] == init[j]);
            } else {
                assert(out[i] == ls[ls.len() - 1]);
            }
        }
    }
}

proof fn lemma_filter_keep_all(ls: Seq<Seq<char>>)
    requires
        forall|i: int| 0 <= i < ls.len() ==> trim(#[trigger] ls[i]) != MARKER_START@,
    ensures
        filter_block(ls, false) == (ls, false),
    decreases ls.len(),
{
    if ls.len() > 0 {
        let init = ls.drop_last();
        assert forall|i: int| 0 <= i < init.len() implies trim(#[trigger] init[i])
            != MARKER_START@ by {
            assert(init[i] == ls[i]);
        }
        lemma_filter_keep_all(init);
        assert(trim(ls[ls.len() - 1]) != MARKER_START@);
        assert(init.push(ls.last()) =~= ls);
    }
}

proof fn lemma_filter_skip_all(ls: Seq<Seq<char>>)
    requires
        forall|i: int| 0 <= i < ls.len() ==> trim(#[trigger] ls[i]) != MARKER_END@,
    ensures
        filter_block(ls, true) == (Seq::<Seq<char>>::empty(), true),
    decreases ls.len(),
{
    if ls.len() > 0 {
        let init = ls.drop_last();
        assert forall|i: int| 0 <= i < init.len() implies trim(#[trigger] init[i])
            != MARKER_END@ by {
            assert(init[i] == ls[i]);
        }
        lemma_filter_skip_all(init);
        assert(trim(ls[ls.len() - 1]) != MARKER_END@);
    }
}

proof fn lemma_trim_fixed(s: Seq<char>)
    requires
        s.len() > 0,
        !is_white_space(s[0]),
        !is_white_space(s.last()),
    ensures
        trim(s) == s,
{
    assert(trim_start(s) == s);
    assert(trim_end(s) == s);
}

proof fn lemma_markers()
    ensures
        trim(MARKER_START@) == MARKER_START@,
        trim(MARKER_END@) == MARKER_END@,
        MARKER_START@ != MARKER_END@,
        lines(MARKER_START@ + seq!['\n']) == seq![MARKER_START@],
        lines(MARKER_END@ + seq!['\n']) == seq![MARKER_END@],
{
    reveal_strlit("# --- focusd start ---");
    reveal_strlit("# --- focusd end ---");
    let a = MARKER_START@;
    let b = MARKER_END@;
    lemma_trim_fixed(a);
    lemma_trim_fixed(b);
    assert(a.len() != b.len());
    assert(!a.contains('\n')) by {
        if a.contains('\n') {
            let k = choose|k: int| 0 <= k < a.len() && a[k] == '\n';
            assert(false);
        }
    }
    assert(!b.contains('\n')) by {
        if b.contains('\n') {
            let k = choose|k: int| 0 <= k < b.len() && b[k] == '\n';
            assert(false);
        }
    }
    lemma_lines_single(a);
    lemma_lines_single(b);
}

proof fn lemma_host_entries_end(hosts: Seq<Seq<char>>)
    ensures
        host_entries(hosts).len() == 0 || ends_with_newline(host_entries(hosts)),
    decreases hosts.len(),
{
    if hosts.len() > 0 {
        lemma_host_entries_end(hosts.drop_last());
    }
}

/// The kept lines that the text before a new block is made of.
spec fn prefix_lines(content: Seq<char>) -> Seq<Seq<char>> {
    let f = filter_block(lines(content), false).0;
    if !ends_with_newline(content) && ends_with_newline(join_terminated(f)) && f.last().len()
        == 0 {
        f.drop_last()
    } else {
        f
    }
}

proof fn lemma_prefix_lines(content: Seq<char>)
    ensures
        block_free_prefix(content) == join_terminated(prefix_lines(content)),
        forall|i: int|
            0 <= i < prefix_lines(content).len() ==> !(#[trigger] prefix_lines(content)[i]).contains(
                '\n',
            ) && trim(prefix_lines(content)[i]) != MARKER_START@,
{
    let ls = lines(content);
    let f = filter_block(ls, false).0;
    let g = prefix_lines(content);
    lemma_filter_output(ls, false);
    lemma_lines_no_newline(content);
    assert forall|i: int| 0 <= i < f.len() implies !(#[trigger] f[i]).contains('\n') && trim(f[i])
        != MARKER_START@ by {
        let j = choose|j: int| 0 <= j < ls.len() && ls[j] == f[i];
        assert(!ls[j].contains('\n'));
    }
    assert forall|i: int| 0 <= i < g.len() implies !(#[trigger] g[i]).contains('\n') && trim(g[i])
        != MARKER_START@ by {
        assert(g[i] == f[i]);
    }
    let j = join_terminated(f);
    if !ends_with_newline(content) && ends_with_newline(j) {
        let init = f.drop_last();
        let l = f.last();
        assert(j.drop_last() =~= join_terminated(init) + l);
        if l.len() == 0 {
            assert(join_terminated(init) + l =~= join_terminated(init));
        } else {
            assert(!f[f.len() - 1].contains('\n'));
            assert(l[l.len() - 1] != '\n');
            assert(j.drop_last().last() == l.last());
            assert(j.drop_last().push('\n') =~= j);
        }
    }
}

/// Taking blocks out of a text that just got a block gives back exactly the
/// text that preceded the block, provided that text holds no CR LF (the line
/// split drops such a `'\r'`) and no line of the host entries reads as an
/// end marker (which would end the block early).
pub proof fn lemma_remove_undoes_add(content: Seq<char>, hosts: Seq<Seq<char>>)
    requires
        !has_crlf(block_free_prefix(content)),
        no_end_marker_line(host_entries(hosts)),
    ensures
        removed_text(added_text(content, hosts)) == block_free_prefix(content),
{
    lemma_prefix_lines(content);
    lemma_markers();
    let g = prefix_lines(content);
    let r1 = block_free_prefix(content);
    lemma_join_no_crlf(g);
    lemma_lines_join(g);
    let st = MARKER_START@ + seq!['\n'];
    let en = MARKER_END@ + seq!['\n'];
    let h = host_entries(hosts);
    lemma_host_entries_end(hosts);
    let added = added_text(content, hosts);
    assert(added =~= ((r1 + st) + h) + en);
    lemma_lines_concat(r1, st);
    lemma_lines_concat(r1 + st, h);
    lemma_lines_concat((r1 + st) + h, en);
    let lh = lines(h);
    let all = ((g + seq![MARKER_START@]) + lh) + seq![MARKER_END@];
    assert(lines(added) == all);
    lemma_filter_keep_all(g);
    lemma_filter_concat(g, seq![MARKER_START@], false);
    assert(filter_block(seq![MARKER_START@], false) == (Seq::<Seq<char>>::empty(), true)) by {
        assert(seq![MARKER_START@].drop_last() =~= Seq::<Seq<char>>::empty());
        assert(filter_block(Seq::<Seq<char>>::empty(), false) == (
            Seq::<Seq<char>>::empty(),
            false,
        ));
        assert(seq![MARKER_START@].last() == MARKER_START@);
    }
    lemma_filter_concat(g + seq![MARKER_START@], lh, false);
    lemma_filter_skip_all(lh);
    lemma_filter_concat((g + seq![MARKER_START@]) + lh, seq![MARKER_END@], false);
    assert(filter_block(seq![MARKER_END@], true) == (Seq::<Seq<char>>::empty(), false)) by {
        assert(seq![MARKER_END@].drop_last() =~= Seq::<Seq<char>>::empty());
        assert(filter_block(Seq::<Seq<char>>::empty(), true) == (
            Seq::<Seq<char>>::empty(),
            true,
        ));
        assert(seq![MARKER_END@].last() == MARKER_END@);
    }
    assert(filter_block(all, false).0 =~= g);
    assert(ends_with_newline(added));
}

/// Adding a block to a text that already got the same block changes nothing,
/// under the conditions of `lemma_remove_undoes_add`.
pub proof fn lemma_add_idempotent(content: Seq<char>, hosts: Seq<Seq<char>>)
    requires
        !has_crlf(block_free_prefix(content)),
        no_end_marker_line(host_entries(hosts)),
    ensures
        added_text(added_text(content, hosts), hosts) == added_text(content, hosts),
{
    lemma_remove_undoes_add(content, hosts);
    lemma_prefix_lines(content);
    let r1 = block_free_prefix(content);
    assert(r1.len() == 0 || ends_with_newline(r1));
    assert(block_free_prefix(added_text(content, hosts)) == r1);
}

/// A text with no start-marker line and no CR LF has nothing to take out.
pub proof fn lemma_remove_without_block(content: Seq<char>)
    requires
        no_start_marker_line(content),
        !has_crlf(content),
    ensures
        removed_text(content) == content,
{
    let ls = lines(content);
    assert forall|i: int| 0 <= i < ls.len() implies trim(#[trigger] ls[i]) != MARKER_START@ by {
        assert(trim(lines(content)[i]) != MARKER_START@);
    }
    lemma_filter_keep_all(ls);
    lemma_split_state_spells(content);
    let st = split_state(content);
    if st.1.len() > 0 {
        assert(st.0.push(st.1).drop_last() =~= st.0);
        assert(join_terminated(ls) =~= content + seq!['\n']);
        lemma_split_state_open_empty_converse(content);
        assert(!ends_with_newline(content));
        assert((content + seq!['\n']).drop_last() =~= content);
    } else {
        assert(join_terminated(ls) =~= content);
    }
}

proof fn lemma_split_state_open_empty_converse(s: Seq<char>)
    requires
        split_state(s).1.len() > 0,
    ensures
        !ends_with_newline(s),
{
}

/// A text that got a block holds the start marker.
pub proof fn lemma_added_has_block(content: Seq<char>, hosts: Seq<Seq<char>>)
    ensures
        contains_text(added_text(content, hosts), MARKER_START@),
{
    let r1 = block_free_prefix(content);
    let added = added_text(content, hosts);
    let i = r1.len() as int;
    assert(added.subrange(i, i + MARKER_START@.len()) =~= MARKER_START@);
}

/// The text before a new block holds no carriage return when the hosts
/// text holds none, and neither does the text with its blocks taken out.
proof fn lemma_prefix_no_cr(content: Seq<char>)
    requires
        !content.contains('\r'),
    ensures
        !block_free_prefix(content).contains('\r'),
        !removed_text(content).contains('\r'),
        !has_crlf(block_free_prefix(content)),
        !has_crlf(removed_text(content)),
{
    lemma_prefix_lines(content);
    lemma_lines_no_cr(content);
    let ls = lines(content);
    lemma_filter_output(ls, false);
    let f = filter_block(ls, false).0;
    let g = prefix_lines(content);
    assert forall|i: int| 0 <= i < g.len() implies !(#[trigger] g[i]).contains('\r') by {
        assert(g[i] == f[i]);
        let j = choose|j: int| 0 <= j < ls.len() && ls[j] == f[i];
        assert(!ls[j].contains('\r'));
    }
    lemma_join_no_cr(g);
    let b = block_free_prefix(content);
    let r = removed_text(content);
    assert(!r.contains('\r')) by {
        if r.contains('\r') {
            let k = choose|k: int| 0 <= k < r.len() && r[k] == '\r';
            if b != r {
                assert(b == r.push('\n'));
                assert(b[k] == r[k]);
            }
        }
    }
    if has_crlf(b) {
        let i = choose|i: int| 0 <= i < b.len() - 1 && b[i] == '\r' && #[trigger] b[i + 1] == '\n';
        assert(false);
    }
    if has_crlf(r) {
        let i = choose|i: int| 0 <= i < r.len() - 1 && r[i] == '\r' && #[trigger] r[i + 1] == '\n';
        assert(false);
    }
}

/// Whether a line begins with the first character of the loopback
/// address.
spec fn loopback_line(l: Seq<char>) -> bool {
    l.len() > 0 && l[0] == '1'
}

proof fn lemma_entry_line(h: Seq<char>, www: bool)
    requires
        !h.contains('\n'),
    ensures
        ({
            let a = if www {
                LOOPBACK_PREFIX@ + WWW_PREFIX@ + h
            } else {
                LOOPBACK_PREFIX@ + h
            };
            lines(a + seq!['\n']) == seq![strip_cr(a)] && loopback_line(strip_cr(a))
        }),
{
    reveal_strlit("127.0.0.1 ");
    reveal_strlit("www.");
    let a = if www {
        LOOPBACK_PREFIX@ + WWW_PREFIX@ + h
    } else {
        LOOPBACK_PREFIX@ + h
    };
    assert(!a.contains('\n')) by {
        if a.contains('\n') {
            let k = choose|k: int| 0 <= k < a.len() && a[k] == '\n';
            if www {
                if k >= 14 {
                    assert(h[k - 14] == '\n');
                }
            } else {
                if k >= 10 {
                    assert(h[k - 10] == '\n');
                }
            }
        }
    }
    lemma_lines_one(a);
    assert(a.len() >= 10 && a[0] == '1');
    assert(strip_cr(a)[0] == '1');
}

proof fn lemma_entries_loopback(hosts: Seq<Seq<char>>)
    requires
        forall|i: int| 0 <= i < hosts.len() ==> !(#[trigger] hosts[i]).contains('\n'),
    ensures
        forall|i: int|
            0 <= i < lines(host_entries(hosts)).len() ==> loopback_line(
                #[trigger] lines(host_entries(hosts))[i],
            ),
    decreases hosts.len(),
{
    if hosts.len() > 0 {
        let init = hosts.drop_last();
        let h = hosts.last();
        assert forall|i: int| 0 <= i < init.len() implies !(#[trigger] init[i]).contains('\n') by {
            assert(init[i] == hosts[i]);
        }
        assert(!h.contains('\n')) by {
            assert(hosts[hosts.len() - 1] == h);
        }
        lemma_entries_loopback(init);
        lemma_host_entries_end(init);
        let e = host_entries(init);
        lemma_lines_concat(e, host_entry(h));
        let a = LOOPBACK_PREFIX@ + h;
        let b = LOOPBACK_PREFIX@ + WWW_PREFIX@ + h;
        lemma_entry_line(h, false);
        lemma_entry_line(h, true);
        let le: Seq<Seq<char>> = if starts_with(h, WWW_PREFIX@) {
            seq![strip_cr(a)]
        } else {
            seq![strip_cr(a), strip_cr(b)]
        };
        assert(lines(host_entry(h)) == le) by {
            if starts_with(h, WWW_PREFIX@) {
                assert(host_entry(h) =~= a + seq!['\n']);
            } else {
                assert(host_entry(h) =~= (a + seq!['\n']) + (b + seq!['\n']));
                lemma_lines_concat(a + seq!['\n'], b + seq!['\n']);
                assert(seq![strip_cr(a)] + seq![strip_cr(b)] =~= le);
            }
        }
        let all = lines(e) + le;
        assert(lines(host_entries(hosts)) == all);
        assert forall|i: int| 0 <= i < all.len() implies loopback_line(#[trigger] all[i]) by {
            if i < lines(e).len() {
                assert(all[i] == lines(e)[i]);
            } else {
                assert(all[i] == le[i - lines(e).len()]);
            }
        }
    }
}

/// Hosts without line feeds give entries none of whose lines reads as the
/// end marker.
proof fn lemma_entries_no_end_marker(hosts: Seq<Seq<char>>)
    requires
        forall|i: int| 0 <= i < hosts.len() ==> !(#[trigger] hosts[i]).contains('\n'),
    ensures
        no_end_marker_line(host_entries(hosts)),
{
    lemma_entries_loopback(hosts);
    reveal_strlit("# --- focusd end ---");
    let ls = lines(host_entries(hosts));
    assert forall|i: int| 0 <= i < ls.len() implies trim(#[trigger] ls[i]) != MARKER_END@ by {
        assert(loopback_line(ls[i]));
        lemma_trim_keeps_first(ls[i]);
        assert(MARKER_END@[0] == '#');
    }
}

/// Adding a block for hosts without line feeds and then taking the blocks
/// out gives back a hosts text that had no block, no carriage return, and
/// a final line feed (or nothing at all).
pub proof fn lemma_remove_after_add(content: Seq<char>, hosts: Seq<Seq<char>>)
    requires
        content.len() == 0 || ends_with_newline(content),
        !content.contains('\r'),
        no_start_marker_line(content),
        forall|i: int| 0 <= i < hosts.len() ==> !(#[trigger] hosts[i]).contains('\n'),
    ensures
        removed_text(added_text(content, hosts)) == content,
{
    assert(!has_crlf(content)) by {
        if has_crlf(content) {
            let i = choose|i: int|
                0 <= i < content.len() - 1 && content[i] == '\r' && #[trigger] content[i + 1]
                    == '\n';
            assert(false);
        }
    }
    lemma_remove_without_block(content);
    assert(block_free_prefix(content) == content);
    lemma_prefix_no_cr(content);
    lemma_entries_no_end_marker(hosts);
    lemma_remove_undoes_add(content, hosts);
}

/// A later add replaces the managed block: adding a block for `second` to
/// a text that got a block for hosts without line feeds gives what adding
/// it to the text itself gives, when the text holds no carriage return.
pub proof fn lemma_add_replaces_block(
    content: Seq<char>,
    first: Seq<Seq<char>>,
    second: Seq<Seq<char>>,
)
    requires
        !content.contains('\r'),
        forall|i: int| 0 <= i < first.len() ==> !(#[trigger] first[i]).contains('\n'),
    ensures
        added_text(added_text(content, first), second) == added_text(content, second),
{
    lemma_prefix_no_cr(content);
    lemma_entries_no_end_marker(first);
    lemma_remove_undoes_add(content, first);
    lemma_prefix_lines(content);
    let r1 = block_free_prefix(content);
    assert(r1.len() == 0 || ends_with_newline(r1));
    assert(block_free_prefix(added_text(content, first)) == r1);
}

/// Taking the blocks out twice is taking them out once, for a text without
/// carriage returns.
pub proof fn lemma_remove_idempotent(content: Seq<char>)
    requires
        !content.contains('\r'),
    ensures
        removed_text(removed_text(content)) == removed_text(content),
{
    lemma_prefix_no_cr(content);
    lemma_prefix_lines(content);
    let g = prefix_lines(content);
    let b = block_free_prefix(content);
    let r = removed_text(content);
    assert forall|i: int| 0 <= i < g.len() implies !(#[trigger] g[i]).contains('\n') && !(
    g[i].len() > 0 && g[i].last() == '\r') by {
        if g[i].len() > 0 && g[i].last() == '\r' {
            let j = join_terminated(g);
            lemma_join_no_crlf(g);
        }
    }
    lemma_lines_join(g);
    assert(lines(r) == g) by {
        if b != r {
            lemma_lines_terminated(r);
        }
    }
    assert forall|i: int| 0 <= i < lines(r).len() implies trim(#[trigger] lines(r)[i])
        != MARKER_START@ by {
        assert(lines(r)[i] == g[i]);
    }
    lemma_remove_without_block(r);
}

} // verus!
