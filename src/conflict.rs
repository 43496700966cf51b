use vstd::prelude::*;
use crate::error::{ReservationConflict, ReservationConflictInfo, ReservationWindow};
use crate::text::chars_of;
use crate::time::Timestamp;

verus! {

/// The position of the first occurrence of `pat` in `s` at or after `i`.
pub open spec fn find_from(s: Seq<char>, pat: Seq<char>, i: int) -> Option<int>
    decreases s.len() + 1 - i,
{
    if i < 0 || i + pat.len() > s.len() {
        None
    } else if s.subrange(i, i + pat.len()) == pat {
        Some(i)
    } else {
        find_from(s, pat, i + 1)
    }
}

proof fn lemma_find_from(s: Seq<char>, pat: Seq<char>, i: int)
    ensures
        find_from(s, pat, i) matches Some(k) ==> i <= k && k + pat.len() <= s.len()
            && s.subrange(k, k + pat.len()) == pat,
    decreases s.len() + 1 - i,
{
    if !(i < 0 || i + pat.len() > s.len()) && s.subrange(i, i + pat.len()) != pat {
        lemma_find_from(s, pat, i + 1);
    }
}

/// Ends a key's list of names and opens its list of values.
pub open spec fn key_mark() -> Seq<char> {
    seq![')', '=', '(']
}

pub open spec fn value_sep() -> Seq<char> {
    seq![',', ' ']
}

pub open spec fn bound_sep() -> Seq<char> {
    seq!['"', ',', '"']
}

pub open spec fn quote() -> Seq<char> {
    seq!['"']
}

pub open spec fn is_open(c: char) -> bool {
    c == '[' || c == '('
}

pub open spec fn is_close(c: char) -> bool {
    c == ']' || c == ')'
}

/// The values `rid, ["start","end"]` of one key, read from position `p` of a
/// diagnostic: the resource, the two bounds' text, and where the reading ended.
pub open spec fn window_at(s: Seq<char>, p: int) -> Option<(Seq<char>, Seq<char>, Seq<char>, int)> {
    match find_from(s, value_sep(), p) {
        None => None,
        Some(c) => {
            let o = c + 2;
            if !(o + 1 < s.len() && is_open(s[o]) && s[o + 1] == '"') {
                None
            } else {
                let a = o + 2;
                match find_from(s, bound_sep(), a) {
                    None => None,
                    Some(q) => {
                        let b = q + 3;
                        match find_from(s, quote(), b) {
                            None => None,
                            Some(e) => {
                                if e + 1 < s.len() && is_close(s[e + 1]) {
                                    Some((s.subrange(p, c), s.subrange(a, q), s.subrange(b, e), e + 2))
                                } else {
                                    None
                                }
                            },
                        }
                    },
                }
            }
        },
    }
}

/// The two windows of an exclusion diagnostic, the incoming one first, as text:
/// `Key (resource_id, timespan)=(rid, ["start","end"]) conflicts with existing
/// key (resource_id, timespan)=(rid, ["start","end"])`.
pub open spec fn conflict_parts(s: Seq<char>) -> Option<((Seq<char>, Seq<char>, Seq<char>, int), (Seq<char>, Seq<char>, Seq<char>, int))> {
    match find_from(s, key_mark(), 0) {
        None => None,
        Some(m1) => match window_at(s, m1 + 3) {
            None => None,
            Some(w1) => match find_from(s, key_mark(), w1.3) {
                None => None,
                Some(m2) => match window_at(s, m2 + 3) {
                    None => None,
                    Some(w2) => Some((w1, w2)),
                },
            },
        },
    }
}

/// The instant that the store writes as `text` (`2022-12-26 22:00:00+00`).
pub uninterp spec fn pg_instant(text: Seq<char>) -> Option<Timestamp>;

/// The conflict that a diagnostic describes: each side's resource and bounds.
pub open spec fn conflict_spec(s: Seq<char>) -> Option<(Seq<char>, Timestamp, Timestamp, Seq<char>, Timestamp, Timestamp)> {
    match conflict_parts(s) {
        None => None,
        Some((n, o)) => {
            if pg_instant(n.1) is Some && pg_instant(n.2) is Some && pg_instant(o.1) is Some
                && pg_instant(o.2) is Some {
                Some((n.0, pg_instant(n.1)->0, pg_instant(n.2)->0, o.0, pg_instant(o.1)->0, pg_instant(o.2)->0))
            } else {
                None
            }
        },
    }
}

/// Whether `info` is what a diagnostic reading `text` gives: its conflict when
/// it can be read, else the text itself.
pub open spec fn describes(info: ReservationConflictInfo, text: Seq<char>) -> bool {
    match info {
        ReservationConflictInfo::Parsed(c) => conflict_spec(text) == Some(
            (c.new.rid@, c.new.start, c.new.end, c.old.rid@, c.old.start, c.old.end),
        ),
        ReservationConflictInfo::Unparsed(raw) => raw@ == text && conflict_spec(text) is None,
    }
}

/// Relies on chrono's `DateTime::parse_from_str` with the format
/// `%Y-%m-%d %H:%M:%S%#z`, and on `timestamp` and `timestamp_subsec_nanos` of
/// the result: reads an instant as the store prints it.
#[verifier::external_body]
fn parse_instant(text: &str) -> (r: Option<Timestamp>)
    ensures
        r == pg_instant(text@),
{
    match chrono::DateTime::parse_from_str(text, "%Y-%m-%d %H:%M:%S%#z") {
        Ok(t) => Some(Timestamp { seconds: t.timestamp(), nanos: t.timestamp_subsec_nanos() as i32 }),
        Err(_) => None,
    }
}

/// One side of a diagnostic, as text.
#[derive(Debug, Clone, PartialEq, Eq)]
pub struct WindowText {
    pub rid: String,
    pub start: String,
    pub end: String,
}

/// Both sides of a diagnostic, as text.
#[derive(Debug, Clone, PartialEq, Eq)]
pub struct ConflictText {
    pub new: WindowText,
    pub old: WindowText,
}

pub open spec fn text_is(w: WindowText, t: (Seq<char>, Seq<char>, Seq<char>, int)) -> bool {
    w.rid@ == t.0 && w.start@ == t.1 && w.end@ == t.2
}

fn find(s: &Vec<char>, pat: &Vec<char>, from: usize) -> (r: Option<usize>)
    requires
        pat@.len() > 0,
    ensures
        match r {
            Some(i) => find_from(s@, pat@, from as int) == Some(i as int) && from <= i && i + pat@.len() <= s@.len(),
            None => find_from(s@, pat@, from as int) is None,
        },
{
    proof {
        lemma_find_from(s@, pat@, from as int);
    }
    let n = s.len();
    let m = pat.len();
    let mut i = from;
    while i < n && m <= n - i
        invariant
            n == s@.len(),
            m == pat@.len(),
            m > 0,
            from <= i,
            find_from(s@, pat@, from as int) == find_from(s@, pat@, i as int),
        decreases n - i,
    {
        let mut j: usize = 0;
        let mut same = true;
        while j < m && same
            invariant
                n == s@.len(),
                m == pat@.len(),
                i + m <= n,
                j <= m,
                same ==> forall|k: int| 0 <= k < j ==> s@[i + k] == pat@[k],
                !same ==> s@.subrange(i as int, i + m) != pat@,
            decreases m - j,
        {
            if s[i + j] != pat[j] {
                same = false;
                assert(s@.subrange(i as int, i + m)[j as int] != pat@[j as int]);
                j = m;
            } else {
                j = j + 1;
            }
        }
        if same {
            assert(s@.subrange(i as int, i + m) =~= pat@);
            return Some(i);
        }
        i = i + 1;
    }
    None
}

fn window_text(s: &str, v: &Vec<char>, p: usize) -> (r: Option<(WindowText, usize)>)
    requires
        v@ == s@,
    ensures
        match r {
            Some((w, next)) => window_at(v@, p as int) matches Some(t) && text_is(w, t) && t.3 == next,
            None => window_at(v@, p as int) is None,
        },
{
    let n = v.len();
    let sep = vec![',', ' '];
    let bsep = vec!['"', ',', '"'];
    let q = vec!['"'];
    assert(sep@ == value_sep());
    assert(bsep@ == bound_sep());
    assert(q@ == quote());
    let c = match find(v, &sep, p) {
        Some(c) => c,
        None => return None,
    };
    let o = c + 2;
    if !(o < n && n - o > 1 && (v[o] == '[' || v[o] == '(') && v[o + 1] == '"') {
        return None;
    }
    let a = o + 2;
    let qpos = match find(v, &bsep, a) {
        Some(x) => x,
        None => return None,
    };
    let b = qpos + 3;
    let e = match find(v, &q, b) {
        Some(x) => x,
        None => return None,
    };
    if !(e < n && n - e > 1 && (v[e + 1] == ']' || v[e + 1] == ')')) {
        return None;
    }
    let w = WindowText {
        rid: s.substring_char(p, c).to_owned(),
        start: s.substring_char(a, qpos).to_owned(),
        end: s.substring_char(b, e).to_owned(),
    };
    Some((w, e + 2))
}

/// Splits an exclusion diagnostic into the text of its two windows.
pub fn split_conflict(detail: &str) -> (r: Option<ConflictText>)
    ensures
        match r {
            Some(t) => conflict_parts(detail@) matches Some((n, o)) && text_is(t.new, n) && text_is(t.old, o),
            None => conflict_parts(detail@) is None,
        },
{
    let v = chars_of(detail);
    let mark = vec![')', '=', '('];
    assert(mark@ == key_mark());
    assert(mark@.len() == 3);
    let n = v.len();
    assert(n == detail@.len());
    let m1 = match find(&v, &mark, 0) {
        Some(m) => m,
        None => return None,
    };
    let (w1, next) = match window_text(detail, &v, m1 + 3) {
        Some(x) => x,
        None => return None,
    };
    let m2 = match find(&v, &mark, next) {
        Some(m) => m,
        None => return None,
    };
    let (w2, _) = match window_text(detail, &v, m2 + 3) {
        Some(x) => x,
        None => return None,
    };
    Some(ConflictText { new: w1, old: w2 })
}

pub open spec fn window_is(w: ReservationWindow, rid: Seq<char>, start: Timestamp, end: Timestamp) -> bool {
    w.rid@ == rid && w.start == start && w.end == end
}

impl ReservationConflict {
    /// The conflict that the text of a diagnostic names, given the instants
    /// that its four bounds read as; none unless all four were read.
    pub fn from_text(
        text: &ConflictText,
        new_start: Option<Timestamp>,
        new_end: Option<Timestamp>,
        old_start: Option<Timestamp>,
        old_end: Option<Timestamp>,
    ) -> (r: Option<ReservationConflict>)
        ensures
            r is Some <==> (new_start is Some && new_end is Some && old_start is Some && old_end is Some),
            r matches Some(c) ==> window_is(c.new, text.new.rid@, new_start->0, new_end->0)
                && window_is(c.old, text.old.rid@, old_start->0, old_end->0),
    {
        match (new_start, new_end, old_start, old_end) {
            (Some(ns), Some(ne), Some(os), Some(oe)) => Some(ReservationConflict {
                new: ReservationWindow { rid: text.new.rid.clone(), start: ns, end: ne },
                old: ReservationWindow { rid: text.old.rid.clone(), start: os, end: oe },
            }),
            _ => None,
        }
    }
}

impl ReservationConflictInfo {
    /// Reads an exclusion diagnostic; keeps the raw text when it cannot.
    pub fn from_detail(detail: &str) -> (r: ReservationConflictInfo)
        ensures
            describes(r, detail@),
    {
        let text = match split_conflict(detail) {
            Some(t) => t,
            None => return ReservationConflictInfo::Unparsed(detail.to_owned()),
        };
        let ns = parse_instant(text.new.start.as_str());
        let ne = parse_instant(text.new.end.as_str());
        let os = parse_instant(text.old.start.as_str());
        let oe = parse_instant(text.old.end.as_str());
        match ReservationConflict::from_text(&text, ns, ne, os, oe) {
            Some(c) => ReservationConflictInfo::Parsed(c),
            None => ReservationConflictInfo::Unparsed(detail.to_owned()),
        }
    }
}

} // verus!
