use vstd::prelude::*;
use crate::matcher::{Matcher, regex_match};

verus! {

/// A single matching line reported for one file: the file's path, the
/// 1-based line number, and the matched text decoded from the raw bytes.
#[derive(Debug)]
pub struct MatchEvent {
    pub path: String,
    pub line: u64,
    pub text: String,
}

/// Model of a match event.
pub struct MatchModel {
    pub path: Seq<char>,
    pub line: int,
    pub text: Seq<char>,
}

impl View for MatchEvent {
    type V = MatchModel;

    open spec fn view(&self) -> MatchModel {
        MatchModel { path: self.path@, line: self.line as int, text: self.text@ }
    }
}

/// What String::from_utf8_lossy returns: a function of the raw bytes alone.
pub uninterp spec fn utf8_lossy(bytes: Seq<u8>) -> Seq<char>;

/// The lines of `rest` when the bytes of `cur` have already been read from
/// the current, still unterminated line: a newline byte ends a line, and a
/// trailing run without a newline is a line of its own.
pub open spec fn lines_acc(rest: Seq<u8>, cur: Seq<u8>) -> Seq<Seq<u8>>
    decreases rest.len(),
{
    if rest.len() == 0 {
        if cur.len() == 0 {
            Seq::empty()
        } else {
            seq![cur]
        }
    } else if rest[0] == 10u8 {
        seq![cur] + lines_acc(rest.drop_first(), Seq::empty())
    } else {
        lines_acc(rest.drop_first(), cur.push(rest[0]))
    }
}

/// The lines of a file's bytes.
pub open spec fn split_lines(b: Seq<u8>) -> Seq<Seq<u8>> {
    lines_acc(b, Seq::empty())
}

/// The events emitted for `lines` when the first of them is line number
/// `base`: one event per line the pattern matches, in line order.
pub open spec fn events_from(
    pattern: Seq<char>,
    path: Seq<char>,
    lines: Seq<Seq<u8>>,
    base: int,
) -> Seq<MatchModel>
    decreases lines.len(),
{
    if lines.len() == 0 {
        Seq::empty()
    } else {
        let head = if regex_match(pattern, lines[0]) {
            seq![MatchModel { path, line: base, text: utf8_lossy(lines[0]) }]
        } else {
            Seq::<MatchModel>::empty()
        };
        head + events_from(pattern, path, lines.drop_first(), base + 1)
    }
}

/// Every match event of one file: none at all when the file holds a NUL
/// byte (binary suppression), otherwise one event per matching line with
/// its 1-based line number, in ascending line order.
pub open spec fn scan_spec(pattern: Seq<char>, path: Seq<char>, b: Seq<u8>) -> Seq<MatchModel> {
    if b.contains(0u8) {
        Seq::empty()
    } else {
        events_from(pattern, path, split_lines(b), 1)
    }
}

/// Unfolding events over one leading line.
proof fn lemma_events_unfold(
    pattern: Seq<char>,
    path: Seq<char>,
    x: Seq<u8>,
    rest: Seq<Seq<u8>>,
    base: int,
)
    ensures
        events_from(pattern, path, seq![x] + rest, base) == (if regex_match(pattern, x) {
            seq![MatchModel { path, line: base, text: utf8_lossy(x) }]
        } else {
            Seq::<MatchModel>::empty()
        }) + events_from(pattern, path, rest, base + 1),
{
    let l = seq![x] + rest;
    assert(l.len() == 1 + rest.len());
    assert(l[0] == x);
    assert(l.drop_first() =~= rest);
}

/// Every event of `events_from` reports a line in its window, and every
/// matching line is reported.
proof fn lemma_events_from_exact(
    pattern: Seq<char>,
    path: Seq<char>,
    lines: Seq<Seq<u8>>,
    base: int,
)
    ensures
        forall|k: int|
            0 <= k < events_from(pattern, path, lines, base).len() ==> {
                let e = #[trigger] events_from(pattern, path, lines, base)[k];
                &&& base <= e.line < base + lines.len()
                &&& regex_match(pattern, lines[e.line - base])
                &&& e.text == utf8_lossy(lines[e.line - base])
                &&& e.path == path
            },
        forall|ln: int|
            0 <= ln < lines.len() && #[trigger] regex_match(pattern, lines[ln])
                ==> exists|k: int|
                0 <= k < events_from(pattern, path, lines, base).len()
                    && #[trigger] events_from(pattern, path, lines, base)[k].line == base + ln,
    decreases lines.len(),
{
    if lines.len() > 0 {
        lemma_events_from_exact(pattern, path, lines.drop_first(), base + 1);
        let evs = events_from(pattern, path, lines, base);
        let tail = events_from(pattern, path, lines.drop_first(), base + 1);
        let head = if regex_match(pattern, lines[0]) {
            seq![MatchModel { path, line: base, text: utf8_lossy(lines[0]) }]
        } else {
            Seq::<MatchModel>::empty()
        };
        assert(evs == head + tail);
        assert forall|k: int| 0 <= k < evs.len() implies {
            let e = #[trigger] evs[k];
            &&& base <= e.line < base + lines.len()
            &&& regex_match(pattern, lines[e.line - base])
            &&& e.text == utf8_lossy(lines[e.line - base])
            &&& e.path == path
        } by {
            if k < head.len() {
                assert(evs[k] == head[0]);
                assert(lines[0] == lines[evs[k].line - base]);
            } else {
                assert(evs[k] == tail[k - head.len()]);
                let e = tail[k - head.len()];
                assert(lines.drop_first()[e.line - (base + 1)] == lines[e.line - base]);
            }
        }
        assert forall|ln: int|
            0 <= ln < lines.len() && #[trigger] regex_match(pattern, lines[ln]) implies exists|
            k: int,
        |
            0 <= k < evs.len() && #[trigger] evs[k].line == base + ln by {
            if ln == 0 {
                assert(evs[0].line == base + 0);
            } else {
                assert(lines.drop_first()[ln - 1] == lines[ln]);
                let k0 = choose|k0: int|
                    0 <= k0 < tail.len() && #[trigger] tail[k0].line == (base + 1) + (ln - 1);
                assert(evs[k0 + head.len()].line == base + ln);
            }
        }
    }
}

/// The events of `events_from` carry ascending line numbers, never below
/// `base`.
proof fn lemma_events_from_ascending(
    pattern: Seq<char>,
    path: Seq<char>,
    lines: Seq<Seq<u8>>,
    base: int,
)
    ensures
        forall|k: int|
            0 <= k < events_from(pattern, path, lines, base).len()
                ==> base <= #[trigger] events_from(pattern, path, lines, base)[k].line,
        forall|i: int, j: int|
            0 <= i < j < events_from(pattern, path, lines, base).len()
                ==> #[trigger] events_from(pattern, path, lines, base)[i].line
                < #[trigger] events_from(pattern, path, lines, base)[j].line,
    decreases lines.len(),
{
    if lines.len() > 0 {
        lemma_events_from_ascending(pattern, path, lines.drop_first(), base + 1);
        let evs = events_from(pattern, path, lines, base);
        let tail = events_from(pattern, path, lines.drop_first(), base + 1);
        let head = if regex_match(pattern, lines[0]) {
            seq![MatchModel { path, line: base, text: utf8_lossy(lines[0]) }]
        } else {
            Seq::<MatchModel>::empty()
        };
        assert(evs == head + tail);
        assert forall|k: int| 0 <= k < evs.len() implies base <= #[trigger] evs[k].line by {
            if k >= head.len() {
                assert(evs[k] == tail[k - head.len()]);
            }
        }
        assert forall|i: int, j: int| 0 <= i < j < evs.len() implies #[trigger] evs[i].line
            < #[trigger] evs[j].line by {
            if i >= head.len() {
                assert(evs[i] == tail[i - head.len()]);
            }
            assert(evs[j] == tail[j - head.len()]);
        }
    }
}

/// Law: within one file, match events preserve strictly ascending line
/// order.
pub proof fn lemma_scan_lines_ascending(pattern: Seq<char>, path: Seq<char>, b: Seq<u8>)
    ensures
        forall|i: int, j: int|
            0 <= i < j < scan_spec(pattern, path, b).len()
                ==> #[trigger] scan_spec(pattern, path, b)[i].line
                < #[trigger] scan_spec(pattern, path, b)[j].line,
{
    if !b.contains(0u8) {
        lemma_events_from_ascending(pattern, path, split_lines(b), 1);
    }
}

/// Law: for a NUL-free file the emitted events are exactly its matching
/// lines: every event reports, faithfully, a line the pattern matches, and
/// every matching line is reported. As a function of pattern, path and
/// bytes alone, the emitted set does not depend on how a walk distributes
/// files over workers.
pub proof fn lemma_scan_exact(pattern: Seq<char>, path: Seq<char>, b: Seq<u8>)
    requires
        !b.contains(0u8),
    ensures
        forall|k: int|
            0 <= k < scan_spec(pattern, path, b).len() ==> {
                let e = #[trigger] scan_spec(pattern, path, b)[k];
                &&& 1 <= e.line <= split_lines(b).len()
                &&& regex_match(pattern, split_lines(b)[e.line - 1])
                &&& e.text == utf8_lossy(split_lines(b)[e.line - 1])
                &&& e.path == path
            },
        forall|ln: int|
            0 <= ln < split_lines(b).len() && #[trigger] regex_match(pattern, split_lines(b)[ln])
                ==> exists|k: int|
                0 <= k < scan_spec(pattern, path, b).len()
                    && #[trigger] scan_spec(pattern, path, b)[k].line == 1 + ln,
{
    lemma_events_from_exact(pattern, path, split_lines(b), 1);
    assert forall|ln: int|
        0 <= ln < split_lines(b).len() && #[trigger] regex_match(
            pattern,
            split_lines(b)[ln],
        ) implies exists|k: int|
        0 <= k < scan_spec(pattern, path, b).len() && #[trigger] scan_spec(
            pattern,
            path,
            b,
        )[k].line == 1 + ln by {
        let lines = split_lines(b);
        let k0 = choose|k0: int|
            0 <= k0 < events_from(pattern, path, lines, 1).len() && #[trigger] events_from(
                pattern,
                path,
                lines,
                1,
            )[k0].line == 1 + ln;
        assert(scan_spec(pattern, path, b)[k0].line == 1 + ln);
    }
}

/// Relies on String::from_utf8_lossy: the decoding is a function of the
/// bytes alone.
#[verifier::external_body]
fn lossy_decode(bytes: &Vec<u8>) -> (s: String)
    ensures
        s@ == utf8_lossy(bytes@),
{
    String::from_utf8_lossy(bytes.as_slice()).into_owned()
}

/// Whether the bytes hold an embedded NUL, the binary-content mark that
/// suppresses every match of the file.
pub fn contains_nul(bytes: &Vec<u8>) -> (r: bool)
    ensures
        r == bytes@.contains(0u8),
{
    let mut i: usize = 0;
    while i < bytes.len()
        invariant
            i <= bytes@.len(),
            forall|j: int| 0 <= j < i ==> bytes@[j] != 0u8,
        decreases bytes@.len() - i,
    {
        if bytes[i] == 0u8 {
            assert(bytes@[i as int] == 0u8);
            return true;
        }
        i += 1;
    }
    false
}

/// The models of a sequence of emitted events.
pub open spec fn models_of(evs: Seq<MatchEvent>) -> Seq<MatchModel> {
    evs.map_values(|e: MatchEvent| e@)
}

/// Pushing one event extends the models by its model.
proof fn lemma_models_push(s: Seq<MatchEvent>, e: MatchEvent)
    ensures
        models_of(s.push(e)) == models_of(s) + seq![e@],
{
    assert(models_of(s.push(e)) =~= models_of(s) + seq![e@]);
}

/// The empty event list has no models.
proof fn lemma_models_empty(s: Seq<MatchEvent>)
    requires
        s.len() == 0,
    ensures
        models_of(s) == Seq::<MatchModel>::empty(),
{
    assert(models_of(s) =~= Seq::<MatchModel>::empty());
}

/// Scan one file's bytes: suppress the file entirely on an embedded NUL,
/// otherwise report each line the matcher accepts, with its 1-based line
/// number and lossily decoded text, in ascending line order.
pub fn scan_file(m: &Matcher, path: &String, bytes: &Vec<u8>) -> (evs: Vec<MatchEvent>)
    ensures
        models_of(evs@) == scan_spec(m.pattern_view(), path@, bytes@),
{
    let ghost p = m.pattern_view();
    let mut evs: Vec<MatchEvent> = Vec::new();
    if contains_nul(bytes) {
        proof {
            lemma_models_empty(evs@);
        }
        return evs;
    }
    let n = bytes.len();
    let mut i: usize = 0;
    let mut cur: Vec<u8> = Vec::new();
    let mut done_lines: usize = 0;
    proof {
        lemma_models_empty(evs@);
        assert(bytes@.skip(0) =~= bytes@);
        assert(Seq::<MatchModel>::empty() + events_from(
            p,
            path@,
            lines_acc(bytes@, Seq::empty()),
            1,
        ) =~= events_from(p, path@, split_lines(bytes@), 1));
    }
    while i < n
        invariant
            p == m.pattern_view(),
            n == bytes@.len(),
            i <= n,
            done_lines + cur@.len() <= i,
            events_from(p, path@, split_lines(bytes@), 1) == models_of(evs@) + events_from(
                p,
                path@,
                lines_acc(bytes@.skip(i as int), cur@),
                done_lines as int + 1,
            ),
        decreases n - i,
    {
        let ghost old_evs = evs@;
        let ghost old_cur = cur@;
        let b = bytes[i];
        proof {
            assert(bytes@.skip(i as int).len() == n - i);
            assert(bytes@.skip(i as int)[0] == bytes@[i as int]);
            assert(bytes@.skip(i as int).drop_first() =~= bytes@.skip(i as int + 1));
        }
        if b == 10u8 {
            let ghost tail = lines_acc(bytes@.skip(i as int + 1), Seq::empty());
            proof {
                assert(lines_acc(bytes@.skip(i as int), old_cur) == seq![old_cur] + tail);
                lemma_events_unfold(p, path@, old_cur, tail, done_lines as int + 1);
            }
            let line_no: u64 = (done_lines + 1) as u64;
            let matched = m.is_match(&cur);
            if matched {
                let text = lossy_decode(&cur);
                let ev = MatchEvent { path: path.clone(), line: line_no, text };
                proof {
                    assert(ev@ == (MatchModel {
                        path: path@,
                        line: done_lines as int + 1,
                        text: utf8_lossy(old_cur),
                    }));
                }
                evs.push(ev);
                proof {
                    lemma_models_push(old_evs, ev);
                    assert(models_of(old_evs) + (seq![ev@] + events_from(
                        p,
                        path@,
                        tail,
                        done_lines as int + 2,
                    )) =~= (models_of(old_evs) + seq![ev@]) + events_from(
                        p,
                        path@,
                        tail,
                        done_lines as int + 2,
                    ));
                }
            } else {
                proof {
                    assert(models_of(old_evs) + (Seq::<MatchModel>::empty() + events_from(
                        p,
                        path@,
                        tail,
                        done_lines as int + 2,
                    )) =~= models_of(old_evs) + events_from(
                        p,
                        path@,
                        tail,
                        done_lines as int + 2,
                    ));
                }
            }
            cur = Vec::new();
            done_lines = done_lines + 1;
            proof {
                assert(lines_acc(bytes@.skip(i as int + 1), cur@) == tail);
            }
        } else {
            cur.push(b);
            proof {
                assert(lines_acc(bytes@.skip(i as int), old_cur) == lines_acc(
                    bytes@.skip(i as int + 1),
                    cur@,
                ));
            }
        }
        i = i + 1;
    }
    proof {
        assert(bytes@.skip(n as int) =~= Seq::<u8>::empty());
    }
    if cur.len() > 0 {
        let ghost old_evs = evs@;
        let ghost old_cur = cur@;
        proof {
            assert(seq![old_cur] =~= seq![old_cur] + Seq::<Seq<u8>>::empty());
            lemma_events_unfold(p, path@, old_cur, Seq::empty(), done_lines as int + 1);
        }
        let line_no: u64 = (done_lines + 1) as u64;
        let matched = m.is_match(&cur);
        if matched {
            let text = lossy_decode(&cur);
            let ev = MatchEvent { path: path.clone(), line: line_no, text };
            proof {
                assert(ev@ == (MatchModel {
                    path: path@,
                    line: done_lines as int + 1,
                    text: utf8_lossy(old_cur),
                }));
            }
            evs.push(ev);
            proof {
                lemma_models_push(old_evs, ev);
                assert(seq![ev@] + events_from(p, path@, Seq::empty(), done_lines as int + 2)
                    =~= seq![ev@]);
                assert(models_of(old_evs) + seq![ev@] =~= models_of(evs@));
            }
        } else {
            proof {
                assert(Seq::<MatchModel>::empty() + events_from(
                    p,
                    path@,
                    Seq::empty(),
                    done_lines as int + 2,
                ) =~= Seq::<MatchModel>::empty());
                assert(models_of(old_evs) + Seq::<MatchModel>::empty() =~= models_of(old_evs));
            }
        }
    } else {
        proof {
            assert(models_of(evs@) + Seq::<MatchModel>::empty() =~= models_of(evs@));
        }
    }
    evs
}

} // verus!
