//! Server-sent events: the data blocks of an event stream.
//!
//! A body is read line by line, as `str::lines` splits it, with an empty line after the last
//! one. Lines that begin with `data:` add their value (one leading space removed) to the
//! current event; an empty line ends the event, and an event with data yields its data lines
//! joined with newlines. Comments and all other fields are ignored.

use vstd::prelude::*;
use crate::text::{join, texts, chars_of, push_char};

verus! {

/// The pieces of `s` between newlines, as `str::split('\n')` gives them: at least one.
pub open spec fn split_nl(s: Seq<char>) -> Seq<Seq<char>>
    decreases s.len(),
{
    if s.len() == 0 {
        seq![Seq::empty()]
    } else {
        let p = split_nl(s.drop_last());
        if s.last() == '\n' {
            p.push(Seq::empty())
        } else {
            p.update(p.len() - 1, p.last().push(s.last()))
        }
    }
}

/// A line without the carriage return that ends it, if one does.
pub open spec fn strip_cr(l: Seq<char>) -> Seq<char> {
    if l.len() > 0 && l.last() == '\r' {
        l.drop_last()
    } else {
        l
    }
}

/// The lines of `s`, as `str::lines` gives them: lines end at `\n` or `\r\n`, and the
/// final line ending is optional.
pub open spec fn std_lines(s: Seq<char>) -> Seq<Seq<char>> {
    let p = split_nl(s);
    let ended = p.drop_last().map_values(|l: Seq<char>| strip_cr(l));
    if p.last().len() == 0 {
        ended
    } else {
        ended.push(p.last())
    }
}

/// The lines of an event stream: those of the body, then one empty line.
pub open spec fn event_lines(s: Seq<char>) -> Seq<Seq<char>> {
    std_lines(s).push(Seq::empty())
}

/// The field name that begins a data line.
pub open spec fn data_prefix() -> Seq<char> {
    seq!['d', 'a', 't', 'a', ':']
}

/// Whether a line is a `data:` field.
pub open spec fn is_data_line(l: Seq<char>) -> bool {
    l.len() >= 5 && l.take(5) == data_prefix()
}

/// The value of a `data:` line, without one space that begins it.
pub open spec fn data_value(l: Seq<char>) -> Seq<char> {
    let d = l.skip(5);
    if d.len() > 0 && d[0] == ' ' {
        d.skip(1)
    } else {
        d
    }
}

/// The data blocks that `lines` yield when `pending` holds the data lines of the event read
/// so far.
pub open spec fn blocks_from(lines: Seq<Seq<char>>, pending: Seq<Seq<char>>) -> Seq<Seq<char>>
    decreases lines.len(),
{
    if lines.len() == 0 {
        Seq::empty()
    } else {
        let line = lines[0];
        if line.len() == 0 {
            if pending.len() > 0 {
                seq![join(pending, seq!['\n'])] + blocks_from(lines.drop_first(), Seq::empty())
            } else {
                blocks_from(lines.drop_first(), Seq::empty())
            }
        } else if is_data_line(line) {
            blocks_from(lines.drop_first(), pending.push(data_value(line)))
        } else {
            blocks_from(lines.drop_first(), pending)
        }
    }
}

/// The data blocks of an event stream, one for each event that has data.
pub open spec fn sse_blocks(body: Seq<char>) -> Seq<Seq<char>> {
    blocks_from(event_lines(body), Seq::empty())
}

/// The texts of spans of `cs`.
pub open spec fn spans_text(cs: Seq<char>, spans: Seq<(usize, usize)>) -> Seq<Seq<char>> {
    spans.map_values(|p: (usize, usize)| cs.subrange(p.0 as int, p.1 as int))
}

/// Whether every span lies within `cs`.
pub open spec fn spans_valid(cs: Seq<char>, spans: Seq<(usize, usize)>) -> bool {
    forall|k: int| 0 <= k < spans.len() ==> #[trigger] spans[k].0 <= spans[k].1 <= cs.len()
}

proof fn lemma_split_nl_len(s: Seq<char>)
    ensures
        split_nl(s).len() >= 1,
    decreases s.len(),
{
    if s.len() > 0 {
        lemma_split_nl_len(s.drop_last());
    }
}

/// The spans of the pieces of `cs` between newlines.
fn split_pieces(cs: &Vec<char>) -> (r: Vec<(usize, usize)>)
    ensures
        spans_valid(cs@, r@),
        spans_text(cs@, r@) == split_nl(cs@),
{
    let mut r: Vec<(usize, usize)> = Vec::new();
    let mut start: usize = 0;
    let mut i: usize = 0;
    assert(cs@.take(0) =~= Seq::<char>::empty());
    assert(spans_text(cs@, r@).push(cs@.subrange(0, 0)) =~= split_nl(cs@.take(0)));
    while i < cs.len()
        invariant
            start <= i <= cs@.len(),
            spans_valid(cs@, r@),
            spans_text(cs@, r@).push(cs@.subrange(start as int, i as int)) == split_nl(
                cs@.take(i as int),
            ),
        decreases cs@.len() - i,
    {
        let ghost before = spans_text(cs@, r@).push(cs@.subrange(start as int, i as int));
        assert(cs@.take(i + 1).drop_last() =~= cs@.take(i as int));
        assert(cs@.take(i + 1).last() == cs@[i as int]);
        proof {
            lemma_split_nl_len(cs@.take(i as int));
        }
        if cs[i] == '\n' {
            let ghost old_r = r@;
            r.push((start, i));
            assert(spans_text(cs@, r@) =~= spans_text(cs@, old_r).push(
                cs@.subrange(start as int, i as int),
            ));
            start = i + 1;
            assert(cs@.subrange(start as int, (i + 1) as int) =~= Seq::<char>::empty());
            assert(spans_text(cs@, r@).push(cs@.subrange(start as int, (i + 1) as int))
                =~= before.push(Seq::empty()));
        } else {
            assert(cs@.subrange(start as int, (i + 1) as int) =~= cs@.subrange(
                start as int,
                i as int,
            ).push(cs@[i as int]));
            assert(spans_text(cs@, r@).push(cs@.subrange(start as int, (i + 1) as int))
                =~= before.update(before.len() - 1, before.last().push(cs@[i as int])));
        }
        i = i + 1;
    }
    let ghost before = spans_text(cs@, r@).push(cs@.subrange(start as int, i as int));
    r.push((start, i));
    assert(spans_text(cs@, r@) =~= before);
    assert(cs@.take(cs@.len() as int) =~= cs@);
    r
}

/// The spans of the lines of an event stream.
fn event_line_spans(cs: &Vec<char>) -> (r: Vec<(usize, usize)>)
    ensures
        spans_valid(cs@, r@),
        spans_text(cs@, r@) == event_lines(cs@),
{
    let pieces = split_pieces(cs);
    let ghost p = split_nl(cs@);
    proof {
        lemma_split_nl_len(cs@);
    }
    let n = pieces.len();
    let mut r: Vec<(usize, usize)> = Vec::new();
    let mut k: usize = 0;
    while k + 1 < n
        invariant
            n == pieces@.len() == p.len() >= 1,
            spans_valid(cs@, pieces@),
            spans_text(cs@, pieces@) == p,
            k + 1 <= n,
            spans_valid(cs@, r@),
            spans_text(cs@, r@) == p.drop_last().take(k as int).map_values(
                |l: Seq<char>| strip_cr(l),
            ),
        decreases n - k,
    {
        let (a, b) = pieces[k];
        assert(spans_valid(cs@, pieces@) ==> pieces@[k as int].0 <= pieces@[k as int].1 <= cs@.len());
        let ghost line = cs@.subrange(a as int, b as int);
        assert(p[k as int] == line);
        assert(line.len() > 0 ==> line.last() == cs@[b - 1]);
        let ghost old_r = r@;
        if b > a && cs[b - 1] == '\r' {
            assert(cs@.subrange(a as int, (b - 1) as int) =~= line.drop_last());
            r.push((a, b - 1));
            assert(spans_text(cs@, r@) =~= spans_text(cs@, old_r).push(strip_cr(line)));
        } else {
            r.push((a, b));
            assert(spans_text(cs@, r@) =~= spans_text(cs@, old_r).push(strip_cr(line)));
        }
        assert(p.drop_last().take(k + 1) =~= p.drop_last().take(k as int).push(p[k as int]));
        assert(spans_text(cs@, r@) =~= p.drop_last().take(k + 1).map_values(
            |l: Seq<char>| strip_cr(l),
        ));
        k = k + 1;
    }
    assert(p.drop_last().take(k as int) =~= p.drop_last());
    let ghost ended = spans_text(cs@, r@);
    let (a, b) = pieces[n - 1];
    assert(spans_valid(cs@, pieces@) ==> pieces@[n - 1].0 <= pieces@[n - 1].1 <= cs@.len());
    assert(p.last() == cs@.subrange(a as int, b as int));
    if b > a {
        r.push((a, b));
        assert(spans_text(cs@, r@) =~= ended.push(p.last()));
    }
    let ghost lines = spans_text(cs@, r@);
    r.push((0, 0));
    assert(cs@.subrange(0, 0) =~= Seq::<char>::empty());
    assert(spans_text(cs@, r@) =~= lines.push(Seq::empty()));
    r
}

/// The texts of `spans` of `cs` joined with newlines.
fn join_spans(cs: &Vec<char>, spans: &Vec<(usize, usize)>) -> (r: String)
    requires
        spans_valid(cs@, spans@),
    ensures
        r@ == join(spans_text(cs@, spans@), seq!['\n']),
{
    let mut r = String::new();
    let mut k: usize = 0;
    while k < spans.len()
        invariant
            spans_valid(cs@, spans@),
            k <= spans@.len(),
            r@ == join(spans_text(cs@, spans@.take(k as int)), seq!['\n']),
        decreases spans@.len() - k,
    {
        let ghost before = r@;
        let (a, b) = spans[k];
        assert(spans@[k as int].0 <= spans@[k as int].1 <= cs@.len());
        if k > 0 {
            push_char(&mut r, '\n');
        }
        let ghost mid = r@;
        let mut i = a;
        while i < b
            invariant
                a <= i <= b <= cs@.len(),
                r@ == mid + cs@.subrange(a as int, i as int),
            decreases b - i,
        {
            push_char(&mut r, cs[i]);
            assert(cs@.subrange(a as int, (i + 1) as int) =~= cs@.subrange(a as int, i as int).push(
                cs@[i as int],
            ));
            i = i + 1;
        }
        let ghost items = spans_text(cs@, spans@.take(k + 1));
        assert(items.drop_last() =~= spans_text(cs@, spans@.take(k as int)));
        assert(items.last() == cs@.subrange(a as int, b as int));
        if k == 0 {
            assert(items.len() == 1);
            assert(r@ =~= join(items, seq!['\n']));
        } else {
            assert(r@ =~= join(items, seq!['\n']));
        }
        k = k + 1;
    }
    assert(spans@.take(spans@.len() as int) =~= spans@);
    r
}

/// Whether the span `a..b` of `cs` is a `data:` line.
fn is_data_span(cs: &Vec<char>, a: usize, b: usize) -> (r: bool)
    requires
        a <= b <= cs@.len(),
    ensures
        r == is_data_line(cs@.subrange(a as int, b as int)),
{
    let ghost line = cs@.subrange(a as int, b as int);
    if b - a < 5 {
        return false;
    }
    let r = cs[a] == 'd' && cs[a + 1] == 'a' && cs[a + 2] == 't' && cs[a + 3] == 'a' && cs[a + 4]
        == ':';
    assert(line.take(5)[0] == cs@[a as int]);
    assert(line.take(5)[1] == cs@[a + 1]);
    assert(line.take(5)[2] == cs@[a + 2]);
    assert(line.take(5)[3] == cs@[a + 3]);
    assert(line.take(5)[4] == cs@[a + 4]);
    if r {
        assert(line.take(5) =~= data_prefix());
    } else {
        assert(line.take(5) != data_prefix()) by {
            if line.take(5) == data_prefix() {
                assert(data_prefix()[0] == 'd');
            }
        }
    }
    r
}

/// The data blocks of an event stream body.
pub fn sse_data_blocks(body: &str) -> (r: Vec<String>)
    ensures
        texts(r@) == sse_blocks(body@),
{
    let cs = chars_of(body);
    let lines = event_line_spans(&cs);
    let ghost all = event_lines(cs@);
    let mut blocks: Vec<String> = Vec::new();
    let mut pending: Vec<(usize, usize)> = Vec::new();
    let mut i: usize = 0;
    assert(all.skip(0) =~= all);
    assert(texts(blocks@) =~= Seq::<Seq<char>>::empty());
    assert(spans_text(cs@, pending@) =~= Seq::<Seq<char>>::empty());
    assert(texts(blocks@) + blocks_from(all.skip(0), spans_text(cs@, pending@)) =~= sse_blocks(
        body@,
    ));
    while i < lines.len()
        invariant
            cs@ == body@,
            spans_valid(cs@, lines@),
            spans_text(cs@, lines@) == all,
            all == event_lines(cs@),
            i <= lines@.len(),
            spans_valid(cs@, pending@),
            sse_blocks(body@) == texts(blocks@) + blocks_from(
                all.skip(i as int),
                spans_text(cs@, pending@),
            ),
        decreases lines@.len() - i,
    {
        let (a, b) = lines[i];
        assert(lines@[i as int].0 <= lines@[i as int].1 <= cs@.len());
        let ghost line = cs@.subrange(a as int, b as int);
        let ghost rest = all.skip(i as int);
        let ghost pend = spans_text(cs@, pending@);
        assert(rest[0] == line);
        assert(rest.drop_first() =~= all.skip(i + 1));
        if a == b {
            if pending.len() > 0 {
                let block = join_spans(&cs, &pending);
                let ghost old_blocks = texts(blocks@);
                blocks.push(block);
                assert(texts(blocks@) =~= old_blocks.push(join(pend, seq!['\n'])));
                assert(old_blocks + (seq![join(pend, seq!['\n'])] + blocks_from(
                    all.skip(i + 1),
                    Seq::empty(),
                )) =~= old_blocks.push(join(pend, seq!['\n'])) + blocks_from(
                    all.skip(i + 1),
                    Seq::empty(),
                ));
            }
            pending = Vec::new();
            assert(spans_text(cs@, pending@) =~= Seq::<Seq<char>>::empty());
        } else if is_data_span(&cs, a, b) {
            let start = if b - a > 5 && cs[a + 5] == ' ' {
                a + 6
            } else {
                a + 5
            };
            assert(line.skip(5) =~= cs@.subrange(a + 5, b as int));
            assert(data_value(line) =~= cs@.subrange(start as int, b as int));
            pending.push((start, b));
            assert(spans_text(cs@, pending@) =~= pend.push(data_value(line)));
        }
        i = i + 1;
    }
    assert(all.skip(i as int) =~= Seq::<Seq<char>>::empty());
    assert(texts(blocks@) + Seq::<Seq<char>>::empty() =~= texts(blocks@));
    blocks
}

} // verus!
