use vstd::prelude::*;

use crate::error::Error;
use crate::stamp::{line_stamp, stamp_of, Instant, Stamp};

verus! {

/// How many lines at the end of a file the tail probe looks at.
pub const TAIL_LINES: usize = 200;

/// The inclusive range of instants whose log lines are wanted.
#[derive(Clone, Copy, Debug, PartialEq, Eq, Structural)]
pub struct TimeWindow {
    pub start: Instant,
    pub end: Instant,
}

impl TimeWindow {
    /// The window is not empty: it starts no later than it ends.
    pub open spec fn wf(self) -> bool {
        !self.end.spec_before(self.start)
    }
}

/// What to do with one log file, decided from its first and last timestamps.
#[derive(Clone, Copy, Debug, PartialEq, Eq, Structural)]
pub enum Classification {
    /// Nothing in the file can fall inside the window.
    Skip,
    /// Scan the file after its first lines, whose count is held.
    ScanFromStart(usize),
    /// Scan the file after its first lines, once the tail probe has allowed it.
    ScanAfterTailProbe(usize),
}

/// The text of each line.
pub open spec fn texts(lines: Seq<String>) -> Seq<Seq<char>> {
    lines.map_values(|s: String| s@)
}

/// The index of the first line at or after `i` that starts with a
/// timestamp (valid or not), or the number of lines if there is none.
pub open spec fn head_from(lines: Seq<Seq<char>>, i: int) -> int
    decreases lines.len() - i,
{
    if i >= lines.len() {
        lines.len() as int
    } else if stamp_of(lines[i]) is Plain {
        head_from(lines, i + 1)
    } else {
        i
    }
}

/// The number of lines before the first timestamped one.
pub open spec fn head_count(lines: Seq<Seq<char>>) -> int {
    head_from(lines, 0)
}

/// Where the tail probe of a file of `n` lines begins.
pub open spec fn tail_start(n: int) -> int {
    if n > TAIL_LINES {
        n - TAIL_LINES
    } else {
        0
    }
}

/// The stamp of the last timestamped line among `lines[lo..j]`, or `Plain`.
pub open spec fn tail_from(lines: Seq<Seq<char>>, lo: int, j: int) -> Stamp
    decreases j - lo,
{
    if j <= lo {
        Stamp::Plain
    } else if stamp_of(lines[j - 1]) is Plain {
        tail_from(lines, lo, j - 1)
    } else {
        stamp_of(lines[j - 1])
    }
}

/// The stamp that the tail probe finds: that of the last timestamped line
/// among the file's last `TAIL_LINES` lines.
pub open spec fn tail_stamp(lines: Seq<Seq<char>>) -> Stamp {
    tail_from(lines, tail_start(lines.len() as int), lines.len() as int)
}

/// How a file is classified for window `w`; `None` where a timestamp that
/// the classification reads is not a valid instant.
///
/// Timestamps in a file are taken to be non-decreasing: a file whose first
/// timestamp is after the window, or whose last probed timestamp is before
/// it, is skipped without a scan.
pub open spec fn classify_spec(lines: Seq<Seq<char>>, w: TimeWindow) -> Option<Classification> {
    let h = head_count(lines);
    if h >= lines.len() {
        Some(Classification::ScanFromStart(0))
    } else {
        match stamp_of(lines[h]) {
            Stamp::At(t) => if w.end.spec_before(t) {
                Some(Classification::Skip)
            } else if t.spec_before(w.start) {
                match tail_stamp(lines) {
                    Stamp::Bad => None,
                    Stamp::At(u) => if u.spec_before(w.start) {
                        Some(Classification::Skip)
                    } else {
                        Some(Classification::ScanAfterTailProbe(h as usize))
                    },
                    Stamp::Plain => Some(Classification::ScanAfterTailProbe(h as usize)),
                }
            } else {
                Some(Classification::ScanFromStart(h as usize))
            },
            _ => None,
        }
    }
}

/// `a` put in front of the lines of `o`, if there are any.
pub open spec fn prepend(a: Seq<Seq<char>>, o: Option<Seq<Seq<char>>>) -> Option<Seq<Seq<char>>> {
    match o {
        Some(r) => Some(a + r),
        None => None,
    }
}

/// The lines emitted by a scan that starts at line `i`: a line stamped
/// before the window is dropped, one stamped after it ends the scan, and
/// every other line (in the window, or without a stamp) is kept.
/// `None` where a stamp that the scan reads is not a valid instant.
pub open spec fn body_from(lines: Seq<Seq<char>>, i: int, w: TimeWindow) -> Option<Seq<Seq<char>>>
    decreases lines.len() - i,
{
    if i >= lines.len() {
        Some(Seq::empty())
    } else {
        match stamp_of(lines[i]) {
            Stamp::Bad => None,
            Stamp::At(t) => if t.spec_before(w.start) {
                body_from(lines, i + 1, w)
            } else if w.end.spec_before(t) {
                Some(Seq::empty())
            } else {
                prepend(seq![lines[i]], body_from(lines, i + 1, w))
            },
            Stamp::Plain => prepend(seq![lines[i]], body_from(lines, i + 1, w)),
        }
    }
}

/// The lines of one file that belong to window `w`.
pub open spec fn extract_spec(lines: Seq<Seq<char>>, w: TimeWindow) -> Option<Seq<Seq<char>>> {
    match classify_spec(lines, w) {
        None => None,
        Some(Classification::Skip) => Some(Seq::empty()),
        Some(Classification::ScanFromStart(h)) => body_from(lines, h as int, w),
        Some(Classification::ScanAfterTailProbe(h)) => body_from(lines, h as int, w),
    }
}

/// The lines, each followed by a line feed.
pub open spec fn render(lines: Seq<Seq<char>>) -> Seq<char>
    decreases lines.len(),
{
    if lines.len() == 0 {
        Seq::empty()
    } else {
        render(lines.drop_last()) + lines.last() + seq!['\n']
    }
}

/// The bundle of the files, in their order, for window `w`.
pub open spec fn bundle_spec(files: Seq<Seq<Seq<char>>>, w: TimeWindow) -> Option<Seq<char>>
    decreases files.len(),
{
    if files.len() == 0 {
        Some(Seq::empty())
    } else {
        match bundle_spec(files.drop_last(), w) {
            None => None,
            Some(b) => match extract_spec(files.last(), w) {
                None => None,
                Some(e) => Some(b + render(e)),
            },
        }
    }
}

/// The error for a line whose leading timestamp is no valid instant.
fn stamp_error(line: &String) -> (r: Error)
    ensures
        r is Stamp,
        r.detail() == line@,
{
    Error::Stamp(line.clone())
}

/// Finds the first timestamped line: its index (the number of lines before
/// it) and its stamp; the number of lines and `Plain` where there is none.
pub fn head_scan(lines: &Vec<String>) -> (r: (usize, Stamp))
    ensures
        r.0 == head_count(texts(lines@)),
        r.0 < lines.len() ==> r.1 == stamp_of(lines@[r.0 as int]@) && !(r.1 is Plain),
        r.0 == lines.len() ==> r.1 == Stamp::Plain,
{
    let ghost v = texts(lines@);
    let mut i: usize = 0;
    while i < lines.len()
        invariant
            v == texts(lines@),
            i <= lines.len(),
            head_from(v, 0) == head_from(v, i as int),
        decreases lines.len() - i,
    {
        let st = line_stamp(lines[i].as_str());
        if !matches!(st, Stamp::Plain) {
            return (i, st);
        }
        i = i + 1;
    }
    (i, Stamp::Plain)
}

/// Looks at the last `TAIL_LINES` lines from the end backwards and returns
/// the stamp of the first timestamped one met, or `Plain`, with the index of
/// that line.
pub fn tail_probe(lines: &Vec<String>) -> (r: (Stamp, usize))
    ensures
        r.0 == tail_stamp(texts(lines@)),
        !(r.0 is Plain) ==> r.1 < lines.len() && stamp_of(lines@[r.1 as int]@) == r.0,
{
    let ghost v = texts(lines@);
    let n = lines.len();
    let lo: usize = if n > TAIL_LINES { n - TAIL_LINES } else { 0 };
    let mut j: usize = n;
    while j > lo
        invariant
            v == texts(lines@),
            n == lines.len(),
            lo == tail_start(n as int),
            lo <= j <= n,
            tail_stamp(v) == tail_from(v, lo as int, j as int),
        decreases j,
    {
        let st = line_stamp(lines[j - 1].as_str());
        if !matches!(st, Stamp::Plain) {
            return (st, j - 1);
        }
        j = j - 1;
    }
    (Stamp::Plain, n)
}

/// Classifies one file for window `w`.
pub fn classify(lines: &Vec<String>, w: &TimeWindow) -> (r: Result<Classification, Error>)
    ensures
        classify_spec(texts(lines@), *w) is None <==> r is Err,
        r matches Ok(c) ==> classify_spec(texts(lines@), *w) == Some(c),
        r matches Err(e) ==> e is Stamp && stamp_of(e.detail()) == Stamp::Bad && texts(
            lines@,
        ).contains(e.detail()),
{
    let (h, first) = head_scan(lines);
    if h >= lines.len() {
        return Ok(Classification::ScanFromStart(0));
    }
    match first {
        Stamp::At(t) => {
            if w.end.before(&t) {
                Ok(Classification::Skip)
            } else if t.before(&w.start) {
                let (last, k) = tail_probe(lines);
                match last {
                    Stamp::Bad => {
                        let e = stamp_error(&lines[k]);
                        assert(texts(lines@)[k as int] == e.detail());
                        Err(e)
                    },
                    Stamp::At(u) => {
                        if u.before(&w.start) {
                            Ok(Classification::Skip)
                        } else {
                            Ok(Classification::ScanAfterTailProbe(h))
                        }
                    },
                    Stamp::Plain => Ok(Classification::ScanAfterTailProbe(h)),
                }
            } else {
                Ok(Classification::ScanFromStart(h))
            }
        },
        _ => {
            let e = stamp_error(&lines[h]);
            assert(texts(lines@)[h as int] == e.detail());
            Err(e)
        },
    }
}

/// Scans the lines from index `from` on and keeps those of window `w`.
pub fn scan_body(lines: &Vec<String>, from: usize, w: &TimeWindow) -> (r: Result<Vec<String>, Error>)
    ensures
        body_from(texts(lines@), from as int, *w) is None <==> r is Err,
        r matches Ok(out) ==> body_from(texts(lines@), from as int, *w) == Some(texts(out@)),
        r matches Err(e) ==> e is Stamp && stamp_of(e.detail()) == Stamp::Bad && texts(
            lines@,
        ).contains(e.detail()),
{
    let ghost v = texts(lines@);
    let mut out: Vec<String> = Vec::new();
    let mut i: usize = from;
    if i >= lines.len() {
        return Ok(out);
    }
    while i < lines.len()
        invariant
            v == texts(lines@),
            from <= i <= lines.len(),
            body_from(v, from as int, *w) == prepend(texts(out@), body_from(v, i as int, *w)),
        decreases lines.len() - i,
    {
        let st = line_stamp(lines[i].as_str());
        let keep = match st {
            Stamp::Bad => {
                let e = stamp_error(&lines[i]);
                assert(texts(lines@)[i as int] == e.detail());
                return Err(e);
            },
            Stamp::At(t) => {
                if t.before(&w.start) {
                    false
                } else if w.end.before(&t) {
                    assert(texts(out@) + Seq::<Seq<char>>::empty() =~= texts(out@));
                    return Ok(out);
                } else {
                    true
                }
            },
            Stamp::Plain => true,
        };
        if keep {
            let ghost old_out = texts(out@);
            out.push(lines[i].clone());
            proof {
                assert(texts(out@) =~= old_out + seq![v[i as int]]);
                match body_from(v, i + 1, *w) {
                    Some(rest) => {
                        assert(old_out + (seq![v[i as int]] + rest) =~= texts(out@) + rest);
                    },
                    None => {},
                }
            }
        }
        i = i + 1;
    }
    assert(texts(out@) + Seq::<Seq<char>>::empty() =~= texts(out@));
    Ok(out)
}

/// The lines of one file that belong to window `w`.
pub fn extract_file(lines: &Vec<String>, w: &TimeWindow) -> (r: Result<Vec<String>, Error>)
    ensures
        extract_spec(texts(lines@), *w) is None <==> r is Err,
        r matches Ok(out) ==> extract_spec(texts(lines@), *w) == Some(texts(out@)),
        r matches Err(e) ==> e is Stamp && stamp_of(e.detail()) == Stamp::Bad && texts(
            lines@,
        ).contains(e.detail()),
{
    match classify(lines, w)? {
        Classification::Skip => {
            let out: Vec<String> = Vec::new();
            assert(texts(out@) =~= Seq::<Seq<char>>::empty());
            Ok(out)
        },
        Classification::ScanFromStart(h) => scan_body(lines, h, w),
        Classification::ScanAfterTailProbe(h) => scan_body(lines, h, w),
    }
}

/// Appends each line, followed by a line feed, to `text`.
pub fn append_lines(text: &mut String, lines: &Vec<String>)
    ensures
        final(text)@ == old(text)@ + render(texts(lines@)),
{
    let ghost v = texts(lines@);
    let ghost start = text@;
    let mut i: usize = 0;
    while i < lines.len()
        invariant
            v == texts(lines@),
            i <= lines.len(),
            text@ == start + render(v.subrange(0, i as int)),
        decreases lines.len() - i,
    {
        text.append(lines[i].as_str());
        text.append("\n");
        proof {
            reveal_strlit("\n");
            let p = v.subrange(0, i + 1);
            assert(p.drop_last() =~= v.subrange(0, i as int));
        }
        i = i + 1;
    }
    assert(v.subrange(0, i as int) =~= v);
}

/// Whether a file name marks a log file: it ends in `.log`.
pub open spec fn is_log_name(name: Seq<char>) -> bool {
    name.len() >= 4 && name.subrange(name.len() - 4, name.len() as int) == ".log"@
}

/// Whether a file of this name takes part in the bundle.
pub fn is_log_file_name(name: &str) -> (r: bool)
    ensures
        r == is_log_name(name@),
{
    proof {
        reveal_strlit(".log");
    }
    let n = name.unicode_len();
    if n < 4 {
        return false;
    }
    let r = name.get_char(n - 4) == '.' && name.get_char(n - 3) == 'l' && name.get_char(n - 2) == 'o'
        && name.get_char(n - 1) == 'g';
    proof {
        let tail = name@.subrange(n - 4, n as int);
        if r {
            assert(tail =~= ".log"@);
        } else {
            if tail == ".log"@ {
                assert(tail[0] == '.' && tail[1] == 'l' && tail[2] == 'o' && tail[3] == 'g');
            }
        }
    }
    r
}

/// Once the bundle of the first `k` files fails, the bundle of all fails.
proof fn lemma_bundle_failure_stays(fs: Seq<Seq<Seq<char>>>, k: int, w: TimeWindow)
    requires
        0 <= k <= fs.len(),
        bundle_spec(fs.subrange(0, k), w) is None,
    ensures
        bundle_spec(fs, w) is None,
    decreases fs.len(),
{
    if fs.len() == k {
        assert(fs.subrange(0, k) =~= fs);
    } else {
        assert(fs.drop_last().subrange(0, k) =~= fs.subrange(0, k));
        lemma_bundle_failure_stays(fs.drop_last(), k, w);
    }
}

/// The bundle for window `w`: the kept lines of each file, in the order the
/// files are given, each line followed by a line feed.
pub fn extract_window(files: &Vec<Vec<String>>, w: &TimeWindow) -> (r: Result<String, Error>)
    ensures
        bundle_spec(files@.map_values(|f: Vec<String>| texts(f@)), *w) is None <==> r is Err,
        r matches Ok(b) ==> bundle_spec(files@.map_values(|f: Vec<String>| texts(f@)), *w) == Some(
            b@,
        ),
        r matches Err(e) ==> e is Stamp && stamp_of(e.detail()) == Stamp::Bad,
{
    let ghost fs = files@.map_values(|f: Vec<String>| texts(f@));
    let mut text = String::new();
    let mut k: usize = 0;
    while k < files.len()
        invariant
            fs == files@.map_values(|f: Vec<String>| texts(f@)),
            k <= files.len(),
            bundle_spec(fs.subrange(0, k as int), *w) == Some(text@),
        decreases files.len() - k,
    {
        proof {
            let p = fs.subrange(0, k + 1);
            assert(p.drop_last() =~= fs.subrange(0, k as int));
            assert(p.last() == texts(files@[k as int]@));
        }
        let kept = match extract_file(&files[k], w) {
            Ok(kept) => kept,
            Err(e) => {
                proof {
                    lemma_bundle_failure_stays(fs, k + 1, *w);
                }
                return Err(e);
            },
        };
        append_lines(&mut text, &kept);
        k = k + 1;
    }
    assert(fs.subrange(0, k as int) =~= fs);
    Ok(text)
}

/// `head` and `tail` are the lines of file `f` that its classification
/// reads: its lines through the first timestamped one (all of them where
/// none is), and its last `TAIL_LINES` lines (all of them where it has fewer).
pub open spec fn ends_of(f: Seq<Seq<char>>, head: Seq<Seq<char>>, tail: Seq<Seq<char>>) -> bool {
    &&& (if head_count(f) < f.len() {
        head == f.subrange(0, head_count(f) + 1)
    } else {
        head == f
    })
    &&& tail == f.subrange(tail_start(f.len() as int), f.len() as int)
}

/// The classification read from a file's head and tail lines alone.
pub open spec fn classify_ends_spec(
    head: Seq<Seq<char>>,
    tail: Seq<Seq<char>>,
    w: TimeWindow,
) -> Option<Classification> {
    let h = head_count(head);
    if h >= head.len() {
        Some(Classification::ScanFromStart(0))
    } else {
        match stamp_of(head[h]) {
            Stamp::At(t) => if w.end.spec_before(t) {
                Some(Classification::Skip)
            } else if t.spec_before(w.start) {
                match tail_stamp(tail) {
                    Stamp::Bad => None,
                    Stamp::At(u) => if u.spec_before(w.start) {
                        Some(Classification::Skip)
                    } else {
                        Some(Classification::ScanAfterTailProbe(h as usize))
                    },
                    Stamp::Plain => Some(Classification::ScanAfterTailProbe(h as usize)),
                }
            } else {
                Some(Classification::ScanFromStart(h as usize))
            },
            _ => None,
        }
    }
}

proof fn lemma_tail_shift(f: Seq<Seq<char>>, lo: int, j: int, n: int)
    requires
        0 <= lo <= j <= n == f.len(),
    ensures
        tail_from(f, lo, j) == tail_from(f.subrange(lo, n), 0, j - lo),
    decreases j - lo,
{
    if j > lo {
        assert(f.subrange(lo, n)[j - 1 - lo] == f[j - 1]);
        lemma_tail_shift(f, lo, j - 1, n);
    }
}

/// Classifying from a file's ends gives the file's own classification.
proof fn lemma_classify_ends(f: Seq<Seq<char>>, head: Seq<Seq<char>>, tail: Seq<Seq<char>>, w: TimeWindow)
    requires
        ends_of(f, head, tail),
    ensures
        classify_spec(f, w) == classify_ends_spec(head, tail, w),
{
    let n = f.len() as int;
    let lo = tail_start(n);
    let hc = head_count(f);
    crate::laws::lemma_head_is_marked(f, 0);
    lemma_tail_shift(f, lo, n, n);
    assert(tail.len() <= TAIL_LINES);
    assert(tail_start(tail.len() as int) == 0);
    if hc < n {
        assert(head.subrange(0, hc + 1) =~= head);
        assert(f.subrange(0, hc + 1) == head);
        crate::laws::lemma_head_agrees(f, head, 0, hc);
        assert(head[hc] == f[hc]);
    }
}

/// Classifies a file for window `w` from its ends alone: `head`, its lines
/// through the first timestamped one (all of them where none is), and
/// `tail`, its last `TAIL_LINES` lines (all where it has fewer). The result
/// is that of `classify` on every file with these ends, so a skipped file
/// need not be read further.
pub fn classify_ends(head: &Vec<String>, tail: &Vec<String>, w: &TimeWindow) -> (r: Result<
    Classification,
    Error,
>)
    ensures
        forall|f: Seq<Seq<char>>| #[trigger]
            ends_of(f, texts(head@), texts(tail@)) ==> ((classify_spec(f, *w) is None <==> r is Err)
                && (r matches Ok(c) ==> classify_spec(f, *w) == Some(c))),
        r matches Err(e) ==> e is Stamp && stamp_of(e.detail()) == Stamp::Bad,
{
    let r = classify_by_ends(head, tail, w);
    proof {
        assert forall|f: Seq<Seq<char>>| #[trigger]
            ends_of(f, texts(head@), texts(tail@)) implies classify_spec(f, *w) == classify_ends_spec(
            texts(head@),
            texts(tail@),
            *w,
        ) by {
            lemma_classify_ends(f, texts(head@), texts(tail@), *w);
        }
    }
    r
}

fn classify_by_ends(head: &Vec<String>, tail: &Vec<String>, w: &TimeWindow) -> (r: Result<
    Classification,
    Error,
>)
    ensures
        classify_ends_spec(texts(head@), texts(tail@), *w) is None <==> r is Err,
        r matches Ok(c) ==> classify_ends_spec(texts(head@), texts(tail@), *w) == Some(c),
        r matches Err(e) ==> e is Stamp && stamp_of(e.detail()) == Stamp::Bad,
{
    let (h, first) = head_scan(head);
    if h >= head.len() {
        return Ok(Classification::ScanFromStart(0));
    }
    match first {
        Stamp::At(t) => {
            if w.end.before(&t) {
                Ok(Classification::Skip)
            } else if t.before(&w.start) {
                let (last, k) = tail_probe(tail);
                match last {
                    Stamp::Bad => Err(stamp_error(&tail[k])),
                    Stamp::At(u) => {
                        if u.before(&w.start) {
                            Ok(Classification::Skip)
                        } else {
                            Ok(Classification::ScanAfterTailProbe(h))
                        }
                    },
                    Stamp::Plain => Ok(Classification::ScanAfterTailProbe(h)),
                }
            } else {
                Ok(Classification::ScanFromStart(h))
            }
        },
        _ => Err(stamp_error(&head[h])),
    }
}

} // verus!
