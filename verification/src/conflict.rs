//! The conflict diagnostic parser.
//!
//! When the store rejects an insert against its non-overlap constraint it
//! emits one unstructured message that names the attempted key and the
//! pre-existing key, in that order, each in the shape
//! `(key1, key2)=(value1, [value2` where `value2` carries two quoted
//! timestamps.  This module scans the message for exactly two such
//! occurrences and reads both windows out of them.  Every deviation from
//! that grammar degrades to carrying the original text unchanged: parsing
//! never fails outward.
use vstd::prelude::*;
use vstd::string::StrSliceExecFns;
use crate::text::chars_of;
use crate::text::str_eq;
use crate::text::string_of_range;
use crate::text::sub_chars;
use crate::time::UtcTime;
use crate::time::parse_datetime;
use crate::time::spec_parse_datetime;

verus! {

// ---------------------------------------------------------------------------
// Character classes of the key/value grammar.
// ---------------------------------------------------------------------------

/// A character of a key or of the first value: a letter, a digit, `_` or `-`.
pub open spec fn is_word_char(c: char) -> bool {
    (97 <= c as u32 && c as u32 <= 122) || (65 <= c as u32 && c as u32 <= 90) || (48 <= c as u32
        && c as u32 <= 57) || c == '_' || c == '-'
}

/// ASCII whitespace, allowed around the comma separators.
pub open spec fn is_space_char(c: char) -> bool {
    c == ' ' || c == '\t' || c == '\n' || c == '\r' || c as u32 == 11 || c as u32 == 12
}

/// A character of the second value: anything up to the closing `)` or `]`.
pub open spec fn is_value_char(c: char) -> bool {
    c != ')' && c != ']'
}

/// End of the maximal run of word characters starting at `i`.
pub open spec fn word_end(s: Seq<char>, i: int) -> int
    decreases s.len() - i,
{
    if 0 <= i < s.len() && is_word_char(s[i]) {
        word_end(s, i + 1)
    } else {
        i
    }
}

/// End of the maximal run of whitespace starting at `i`.
pub open spec fn space_end(s: Seq<char>, i: int) -> int
    decreases s.len() - i,
{
    if 0 <= i < s.len() && is_space_char(s[i]) {
        space_end(s, i + 1)
    } else {
        i
    }
}

/// End of the maximal run of second-value characters starting at `i`.
pub open spec fn value_end(s: Seq<char>, i: int) -> int
    decreases s.len() - i,
{
    if 0 <= i < s.len() && is_value_char(s[i]) {
        value_end(s, i + 1)
    } else {
        i
    }
}

pub proof fn lemma_word_end_bounds(s: Seq<char>, i: int)
    requires
        0 <= i <= s.len(),
    ensures
        i <= word_end(s, i) <= s.len(),
    decreases s.len() - i,
{
    if i < s.len() && is_word_char(s[i]) {
        lemma_word_end_bounds(s, i + 1);
    }
}

pub proof fn lemma_space_end_bounds(s: Seq<char>, i: int)
    requires
        0 <= i <= s.len(),
    ensures
        i <= space_end(s, i) <= s.len(),
    decreases s.len() - i,
{
    if i < s.len() && is_space_char(s[i]) {
        lemma_space_end_bounds(s, i + 1);
    }
}

pub proof fn lemma_value_end_bounds(s: Seq<char>, i: int)
    requires
        0 <= i <= s.len(),
    ensures
        i <= value_end(s, i) <= s.len(),
    decreases s.len() - i,
{
    if i < s.len() && is_value_char(s[i]) {
        lemma_value_end_bounds(s, i + 1);
    }
}

// ---------------------------------------------------------------------------
// One occurrence of the key/value shape.
// ---------------------------------------------------------------------------

/// The four captured fields of one occurrence, and where it ends.
pub ghost struct CapView {
    pub k1: Seq<char>,
    pub v1: Seq<char>,
    pub k2: Seq<char>,
    pub v2: Seq<char>,
    pub end: int,
}

/// Whether an occurrence of the shape starts at `i`: an opening `(`, a
/// first key, a comma with optional whitespace, a second key, the literal
/// `)=(`, a first value, a comma with optional whitespace, and `[`
/// followed by the second value.  Each run is maximal, which is exactly
/// what the grammar's greedy classes admit.
pub open spec fn capture_ok(s: Seq<char>, i: int) -> bool {
    let k1s = i + 1;
    let k1e = word_end(s, k1s);
    let c1 = space_end(s, k1e);
    let k2s = space_end(s, c1 + 1);
    let k2e = word_end(s, k2s);
    let v1s = k2e + 3;
    let v1e = word_end(s, v1s);
    let c2 = space_end(s, v1e);
    let br = space_end(s, c2 + 1);
    let v2s = br + 1;
    let v2e = value_end(s, v2s);
    &&& 0 <= i < s.len()
    &&& s[i] == '('
    &&& k1e > k1s
    &&& c1 < s.len()
    &&& s[c1] == ','
    &&& k2e > k2s
    &&& k2e + 2 < s.len()
    &&& s[k2e] == ')'
    &&& s[k2e + 1] == '='
    &&& s[k2e + 2] == '('
    &&& v1e > v1s
    &&& c2 < s.len()
    &&& s[c2] == ','
    &&& br < s.len()
    &&& s[br] == '['
    &&& v2e > v2s
}

/// The occurrence starting at `i`, if one starts there.
pub open spec fn capture_at(s: Seq<char>, i: int) -> Option<CapView> {
    if capture_ok(s, i) {
        let k1s = i + 1;
        let k1e = word_end(s, k1s);
        let c1 = space_end(s, k1e);
        let k2s = space_end(s, c1 + 1);
        let k2e = word_end(s, k2s);
        let v1s = k2e + 3;
        let v1e = word_end(s, v1s);
        let c2 = space_end(s, v1e);
        let br = space_end(s, c2 + 1);
        let v2s = br + 1;
        let v2e = value_end(s, v2s);
        Some(
            CapView {
                k1: s.subrange(k1s, k1e),
                v1: s.subrange(v1s, v1e),
                k2: s.subrange(k2s, k2e),
                v2: s.subrange(v2s, v2e),
                end: v2e,
            },
        )
    } else {
        None
    }
}

pub proof fn lemma_capture_at_bounds(s: Seq<char>, i: int)
    requires
        0 <= i < s.len(),
        capture_ok(s, i),
    ensures
        (match capture_at(s, i) {
            Some(c) => i < c.end <= s.len(),
            None => false,
        }),
{
    let k1s = i + 1;
    lemma_word_end_bounds(s, k1s);
    let k1e = word_end(s, k1s);
    lemma_space_end_bounds(s, k1e);
    let c1 = space_end(s, k1e);
    lemma_space_end_bounds(s, c1 + 1);
    let k2s = space_end(s, c1 + 1);
    lemma_word_end_bounds(s, k2s);
    let k2e = word_end(s, k2s);
    let v1s = k2e + 3;
    lemma_word_end_bounds(s, v1s);
    let v1e = word_end(s, v1s);
    lemma_space_end_bounds(s, v1e);
    let c2 = space_end(s, v1e);
    lemma_space_end_bounds(s, c2 + 1);
    let br = space_end(s, c2 + 1);
    let v2s = br + 1;
    lemma_value_end_bounds(s, v2s);
}

/// All occurrences of the shape, scanned left to right, each search
/// resuming where the previous occurrence ended.
pub open spec fn captures_from(s: Seq<char>, i: int) -> Seq<CapView>
    decreases s.len() - i,
{
    if !(0 <= i < s.len()) {
        Seq::empty()
    } else {
        match capture_at(s, i) {
            Some(cap) => {
                if i < cap.end <= s.len() {
                    seq![cap] + captures_from(s, cap.end)
                } else {
                    Seq::empty()
                }
            },
            None => captures_from(s, i + 1),
        }
    }
}

pub open spec fn spec_captures(s: Seq<char>) -> Seq<CapView> {
    captures_from(s, 0)
}

// ---------------------------------------------------------------------------
// The executable scanner.
// ---------------------------------------------------------------------------

/// One occurrence, held as index ranges into the scanned text.
#[derive(Clone, Copy, Debug)]
pub struct Capture {
    pub k1s: usize,
    pub k1e: usize,
    pub v1s: usize,
    pub v1e: usize,
    pub k2s: usize,
    pub k2e: usize,
    pub v2s: usize,
    pub v2e: usize,
}

impl Capture {
    pub open spec fn wf_in(self, s: Seq<char>) -> bool {
        &&& self.k1s <= self.k1e <= s.len()
        &&& self.v1s <= self.v1e <= s.len()
        &&& self.k2s <= self.k2e <= s.len()
        &&& self.v2s <= self.v2e <= s.len()
    }

    pub open spec fn view_of(self, s: Seq<char>) -> CapView {
        CapView {
            k1: s.subrange(self.k1s as int, self.k1e as int),
            v1: s.subrange(self.v1s as int, self.v1e as int),
            k2: s.subrange(self.k2s as int, self.k2e as int),
            v2: s.subrange(self.v2s as int, self.v2e as int),
            end: self.v2e as int,
        }
    }
}

pub open spec fn cap_views(caps: Seq<Capture>, s: Seq<char>) -> Seq<CapView> {
    caps.map_values(|c: Capture| c.view_of(s))
}

fn is_word_char_exec(c: char) -> (r: bool)
    ensures
        r == is_word_char(c),
{
    let u = c as u32;
    (97 <= u && u <= 122) || (65 <= u && u <= 90) || (48 <= u && u <= 57) || u == 95 || u == 45
}

fn is_space_char_exec(c: char) -> (r: bool)
    ensures
        r == is_space_char(c),
{
    let u = c as u32;
    u == 32 || u == 9 || u == 10 || u == 13 || u == 11 || u == 12
}

fn is_value_char_exec(c: char) -> (r: bool)
    ensures
        r == is_value_char(c),
{
    c != ')' && c != ']'
}

fn word_end_exec(v: &Vec<char>, i: usize) -> (r: usize)
    requires
        i <= v@.len(),
    ensures
        r as int == word_end(v@, i as int),
        i <= r <= v@.len(),
{
    let mut j = i;
    while j < v.len() && is_word_char_exec(v[j])
        invariant
            i <= j <= v@.len(),
            word_end(v@, i as int) == word_end(v@, j as int),
        decreases v@.len() - j,
    {
        j = j + 1;
    }
    j
}

fn space_end_exec(v: &Vec<char>, i: usize) -> (r: usize)
    requires
        i <= v@.len(),
    ensures
        r as int == space_end(v@, i as int),
        i <= r <= v@.len(),
{
    let mut j = i;
    while j < v.len() && is_space_char_exec(v[j])
        invariant
            i <= j <= v@.len(),
            space_end(v@, i as int) == space_end(v@, j as int),
        decreases v@.len() - j,
    {
        j = j + 1;
    }
    j
}

fn value_end_exec(v: &Vec<char>, i: usize) -> (r: usize)
    requires
        i <= v@.len(),
    ensures
        r as int == value_end(v@, i as int),
        i <= r <= v@.len(),
{
    let mut j = i;
    while j < v.len() && is_value_char_exec(v[j])
        invariant
            i <= j <= v@.len(),
            value_end(v@, i as int) == value_end(v@, j as int),
        decreases v@.len() - j,
    {
        j = j + 1;
    }
    j
}

fn try_capture_at(v: &Vec<char>, i: usize) -> (r: Option<Capture>)
    requires
        i < v@.len(),
    ensures
        (match capture_at(v@, i as int) {
            Some(cv) => (match r {
                Some(c) => c.view_of(v@) == cv && c.wf_in(v@),
                None => false,
            }),
            None => r is None,
        }),
{
    let n = v.len();
    if v[i] != '(' {
        return None;
    }
    let k1s = i + 1;
    let k1e = word_end_exec(v, k1s);
    if k1e == k1s {
        return None;
    }
    let c1 = space_end_exec(v, k1e);
    if c1 >= n {
        return None;
    }
    if v[c1] != ',' {
        return None;
    }
    let k2s = space_end_exec(v, c1 + 1);
    let k2e = word_end_exec(v, k2s);
    if k2e == k2s {
        return None;
    }
    if n - k2e < 3 {
        return None;
    }
    if v[k2e] != ')' || v[k2e + 1] != '=' || v[k2e + 2] != '(' {
        return None;
    }
    let v1s = k2e + 3;
    let v1e = word_end_exec(v, v1s);
    if v1e == v1s {
        return None;
    }
    let c2 = space_end_exec(v, v1e);
    if c2 >= n {
        return None;
    }
    if v[c2] != ',' {
        return None;
    }
    let br = space_end_exec(v, c2 + 1);
    if br >= n {
        return None;
    }
    if v[br] != '[' {
        return None;
    }
    let v2s = br + 1;
    let v2e = value_end_exec(v, v2s);
    if v2e == v2s {
        return None;
    }
    Some(Capture { k1s, k1e, v1s, v1e, k2s, k2e, v2s, v2e })
}

/// Scans the whole text left to right for occurrences of the shape.
pub fn scan_captures(v: &Vec<char>) -> (r: Vec<Capture>)
    ensures
        cap_views(r@, v@) == spec_captures(v@),
        forall|j: int| 0 <= j < r@.len() ==> (#[trigger] r@[j]).wf_in(v@),
{
    let mut out: Vec<Capture> = Vec::new();
    let mut i: usize = 0;
    while i < v.len()
        invariant
            i <= v@.len(),
            spec_captures(v@) == cap_views(out@, v@) + captures_from(v@, i as int),
            forall|j: int| 0 <= j < out@.len() ==> (#[trigger] out@[j]).wf_in(v@),
        decreases v@.len() - i,
    {
        match try_capture_at(v, i) {
            Some(c) => {
                proof {
                    if capture_ok(v@, i as int) {
                        lemma_capture_at_bounds(v@, i as int);
                    }
                    assert(cap_views(out@.push(c), v@) =~= cap_views(out@, v@).push(
                        c.view_of(v@),
                    ));
                    assert(cap_views(out@, v@) + (seq![c.view_of(v@)] + captures_from(
                        v@,
                        c.v2e as int,
                    )) =~= (cap_views(out@, v@) + seq![c.view_of(v@)]) + captures_from(
                        v@,
                        c.v2e as int,
                    ));
                    assert(cap_views(out@, v@) + seq![c.view_of(v@)] =~= cap_views(out@, v@).push(
                        c.view_of(v@),
                    ));
                }
                let newi = c.v2e;
                out.push(c);
                i = newi;
            },
            None => {
                i = i + 1;
            },
        }
    }
    proof {
        assert(cap_views(out@, v@) + captures_from(v@, i as int) =~= cap_views(out@, v@));
    }
    out
}

// ---------------------------------------------------------------------------
// The two captured occurrences, as key/value pairs.
// ---------------------------------------------------------------------------

/// The fields of one occurrence, keys and values copied out.
pub ghost struct PairsView {
    pub k1: Seq<char>,
    pub v1: Seq<char>,
    pub k2: Seq<char>,
    pub v2: Seq<char>,
}

pub open spec fn pairs_of(cv: CapView) -> PairsView {
    PairsView { k1: cv.k1, v1: cv.v1, k2: cv.k2, v2: cv.v2 }
}

/// The two key/value pairs one occurrence carries.
#[derive(Clone, Debug)]
pub struct CapturedPairs {
    pub k1: String,
    pub v1: String,
    pub k2: String,
    pub v2: String,
}

impl View for CapturedPairs {
    type V = PairsView;

    open spec fn view(&self) -> PairsView {
        PairsView { k1: self.k1@, v1: self.v1@, k2: self.k2@, v2: self.v2@ }
    }
}

/// The value under `key`; the second pair shadows the first, as inserting
/// both pairs into one map would have it.
pub open spec fn spec_pairs_get(p: PairsView, key: Seq<char>) -> Option<Seq<char>> {
    if p.k2 == key {
        Some(p.v2)
    } else if p.k1 == key {
        Some(p.v1)
    } else {
        None
    }
}

impl CapturedPairs {
    pub fn get(&self, key: &str) -> (r: Option<&String>)
        ensures
            (match spec_pairs_get(self@, key@) {
                Some(val) => (match r {
                    Some(x) => x@ == val,
                    None => false,
                }),
                None => r is None,
            }),
    {
        if str_eq(self.k2.as_str(), key) {
            Some(&self.v2)
        } else if str_eq(self.k1.as_str(), key) {
            Some(&self.v1)
        } else {
            None
        }
    }
}

/// The attempted key and the pre-existing key read out of a diagnostic:
/// the first occurrence is the new row, the second the old one.
pub struct ParsedInfo {
    pub new: CapturedPairs,
    pub old: CapturedPairs,
}

/// What scanning a whole diagnostic yields: the two occurrences' pairs,
/// or nothing unless exactly two occurrences are found.
pub open spec fn spec_parsed_info(s: Seq<char>) -> Option<(PairsView, PairsView)> {
    let caps = spec_captures(s);
    if caps.len() == 2 {
        Some((pairs_of(caps[0]), pairs_of(caps[1])))
    } else {
        None
    }
}

impl ParsedInfo {
    /// Scans a diagnostic for its two key/value occurrences.  Any other
    /// count of occurrences is a parse failure.
    pub fn from_str(s: &str) -> (r: Result<ParsedInfo, ()>)
        ensures
            (match spec_parsed_info(s@) {
                Some(p) => (match r {
                    Ok(pi) => pi.new@ == p.0 && pi.old@ == p.1,
                    Err(_) => false,
                }),
                None => r is Err,
            }),
    {
        let v = chars_of(s);
        let caps = scan_captures(&v);
        if caps.len() != 2 {
            return Err(());
        }
        let c0 = caps[0];
        let c1 = caps[1];
        let newp = CapturedPairs {
            k1: string_of_range(s, c0.k1s, c0.k1e),
            v1: string_of_range(s, c0.v1s, c0.v1e),
            k2: string_of_range(s, c0.k2s, c0.k2e),
            v2: string_of_range(s, c0.v2s, c0.v2e),
        };
        let oldp = CapturedPairs {
            k1: string_of_range(s, c1.k1s, c1.k1e),
            v1: string_of_range(s, c1.v1s, c1.v1e),
            k2: string_of_range(s, c1.k2s, c1.k2e),
            v2: string_of_range(s, c1.v2s, c1.v2e),
        };
        Ok(ParsedInfo { new: newp, old: oldp })
    }
}

// ---------------------------------------------------------------------------
// Reading a window out of one occurrence.
// ---------------------------------------------------------------------------

/// The characters of `s` from `i` on, double quotes removed.
pub open spec fn unquoted_from(s: Seq<char>, i: int) -> Seq<char>
    decreases s.len() - i,
{
    if !(0 <= i < s.len()) {
        Seq::empty()
    } else if s[i] == '"' {
        unquoted_from(s, i + 1)
    } else {
        seq![s[i]] + unquoted_from(s, i + 1)
    }
}

/// The index of the first comma at or after `i`, or the length when
/// there is none.
pub open spec fn comma_from(s: Seq<char>, i: int) -> int
    decreases s.len() - i,
{
    if !(0 <= i < s.len()) {
        s.len() as int
    } else if s[i] == ',' {
        i
    } else {
        comma_from(s, i + 1)
    }
}

fn unquote_chars(v: &Vec<char>) -> (r: Vec<char>)
    ensures
        r@ == unquoted_from(v@, 0),
{
    let mut r: Vec<char> = Vec::new();
    let mut i: usize = 0;
    while i < v.len()
        invariant
            i <= v@.len(),
            unquoted_from(v@, 0) == r@ + unquoted_from(v@, i as int),
        decreases v@.len() - i,
    {
        if v[i] != '"' {
            let c = v[i];
            r.push(c);
            proof {
                assert(r@ + unquoted_from(v@, i as int + 1) =~= (r@.drop_last()) + (seq![c]
                    + unquoted_from(v@, i as int + 1)));
            }
        }
        i = i + 1;
    }
    proof {
        assert(r@ + unquoted_from(v@, i as int) =~= r@);
    }
    r
}

fn find_comma(v: &Vec<char>) -> (r: usize)
    ensures
        r as int == comma_from(v@, 0),
        r <= v@.len(),
{
    let mut i: usize = 0;
    while i < v.len()
        invariant
            i <= v@.len(),
            comma_from(v@, 0) == comma_from(v@, i as int),
        decreases v@.len() - i,
    {
        if v[i] == ',' {
            return i;
        }
        i = i + 1;
    }
    i
}

/// One competing claim: a resource key and the half-open window stored
/// for it.
#[derive(Clone, Debug)]
pub struct ReservationWindow {
    pub rid: String,
    pub start: UtcTime,
    pub end: UtcTime,
}

pub ghost struct WindowView {
    pub rid: Seq<char>,
    pub start: UtcTime,
    pub end: UtcTime,
}

impl View for ReservationWindow {
    type V = WindowView;

    open spec fn view(&self) -> WindowView {
        WindowView { rid: self.rid@, start: self.start, end: self.end }
    }
}

/// What reading a window out of one occurrence yields: the `timespan`
/// value, quotes dropped, split at its first comma into two timestamps of
/// the date-time grammar, and the `resource_id` value as the key.
pub open spec fn spec_window_of_pairs(p: PairsView) -> Option<WindowView> {
    match spec_pairs_get(p, "timespan"@) {
        None => None,
        Some(ts) => {
            let clean = unquoted_from(ts, 0);
            let ci = comma_from(clean, 0);
            if ci >= clean.len() {
                None
            } else {
                let a = clean.subrange(0, ci);
                let b = clean.subrange(ci + 1, clean.len() as int);
                match (spec_parse_datetime(a), spec_parse_datetime(b), spec_pairs_get(
                    p,
                    "resource_id"@,
                )) {
                    (Some(st), Some(en), Some(rid)) => Some(
                        WindowView { rid: rid, start: st, end: en },
                    ),
                    _ => None,
                }
            }
        },
    }
}

impl ReservationWindow {
    /// Reads one competing claim out of one occurrence's pairs.
    pub fn try_from(value: CapturedPairs) -> (r: Result<ReservationWindow, ()>)
        ensures
            (match spec_window_of_pairs(value@) {
                Some(w) => (match r {
                    Ok(rw) => rw@ == w,
                    Err(_) => false,
                }),
                None => r is Err,
            }),
            (r matches Ok(rw) ==> rw.start.renderable() && rw.end.renderable()),
    {
        let ts = match value.get("timespan") {
            Some(t) => t,
            None => {
                return Err(());
            },
        };
        let tv = chars_of(ts.as_str());
        let clean = unquote_chars(&tv);
        let ci = find_comma(&clean);
        if ci >= clean.len() {
            return Err(());
        }
        let a = sub_chars(&clean, 0, ci);
        let b = sub_chars(&clean, ci + 1, clean.len());
        let start = match parse_datetime(&a) {
            Some(t) => t,
            None => {
                return Err(());
            },
        };
        let end = match parse_datetime(&b) {
            Some(t) => t,
            None => {
                return Err(());
            },
        };
        let rid = match value.get("resource_id") {
            Some(r) => r.clone(),
            None => {
                return Err(());
            },
        };
        Ok(ReservationWindow { rid, start, end })
    }
}

// ---------------------------------------------------------------------------
// The conflict pair and the caller-facing union.
// ---------------------------------------------------------------------------

/// The two windows that collided: the incoming, rejected one first, the
/// pre-existing one second.
#[derive(Clone, Debug)]
pub struct ReservationConflict {
    pub new: ReservationWindow,
    pub old: ReservationWindow,
}

pub ghost struct ConflictView {
    pub new: WindowView,
    pub old: WindowView,
}

impl View for ReservationConflict {
    type V = ConflictView;

    open spec fn view(&self) -> ConflictView {
        ConflictView { new: self.new@, old: self.old@ }
    }
}

/// What parsing a whole diagnostic yields: both windows, or nothing on
/// any deviation from the grammar.
pub open spec fn spec_conflict_of(s: Seq<char>) -> Option<ConflictView> {
    match spec_parsed_info(s) {
        None => None,
        Some(p) => match (spec_window_of_pairs(p.0), spec_window_of_pairs(p.1)) {
            (Some(nw), Some(ow)) => Some(ConflictView { new: nw, old: ow }),
            _ => None,
        },
    }
}

impl ReservationConflict {
    /// Assembles the conflict from the two scanned occurrences, the first
    /// as the new claim and the second as the old one.
    pub fn try_from(value: ParsedInfo) -> (r: Result<ReservationConflict, ()>)
        ensures
            (match (spec_window_of_pairs(value.new@), spec_window_of_pairs(value.old@)) {
                (Some(nw), Some(ow)) => (match r {
                    Ok(c) => c@.new == nw && c@.old == ow,
                    Err(_) => false,
                }),
                _ => r is Err,
            }),
    {
        let nw = match ReservationWindow::try_from(value.new) {
            Ok(w) => w,
            Err(_) => {
                return Err(());
            },
        };
        let ow = match ReservationWindow::try_from(value.old) {
            Ok(w) => w,
            Err(_) => {
                return Err(());
            },
        };
        Ok(ReservationConflict { new: nw, old: ow })
    }

    /// Parses a diagnostic into the conflict it reports.
    pub fn from_str(s: &str) -> (r: Result<ReservationConflict, ()>)
        ensures
            (match spec_conflict_of(s@) {
                Some(cv) => (match r {
                    Ok(c) => c@ == cv,
                    Err(_) => false,
                }),
                None => r is Err,
            }),
    {
        let info = match ParsedInfo::from_str(s) {
            Ok(i) => i,
            Err(_) => {
                return Err(());
            },
        };
        Self::try_from(info)
    }
}

/// The conflict signal surfaced to callers: the structured pair when the
/// diagnostic matched the grammar, else the original text, lossless.
#[derive(Clone, Debug)]
pub enum ReservationConflictInfo {
    Parsed(ReservationConflict),
    Unparsed(String),
}

impl ReservationConflictInfo {
    /// Parses a diagnostic; a diagnostic that deviates from the grammar
    /// in any way is carried through unchanged, never an error.
    pub fn from_str(s: &str) -> (r: ReservationConflictInfo)
        ensures
            (match spec_conflict_of(s@) {
                Some(cv) => (match r {
                    ReservationConflictInfo::Parsed(c) => c@ == cv,
                    ReservationConflictInfo::Unparsed(_) => false,
                }),
                None => (match r {
                    ReservationConflictInfo::Parsed(_) => false,
                    ReservationConflictInfo::Unparsed(u) => u@ == s@,
                }),
            }),
    {
        match ReservationConflict::from_str(s) {
            Ok(c) => ReservationConflictInfo::Parsed(c),
            Err(_) => ReservationConflictInfo::Unparsed(s.to_owned()),
        }
    }
}

// ---------------------------------------------------------------------------
// Structural equality, usable from verified code.
// ---------------------------------------------------------------------------

impl PartialEq for ReservationWindow {
    fn eq(&self, other: &Self) -> (r: bool) {
        self.rid == other.rid && self.start == other.start && self.end == other.end
    }
}

impl vstd::std_specs::cmp::PartialEqSpecImpl for ReservationWindow {
    open spec fn obeys_eq_spec() -> bool {
        true
    }

    open spec fn eq_spec(&self, other: &Self) -> bool {
        self@ == other@
    }
}

impl PartialEq for ReservationConflict {
    fn eq(&self, other: &Self) -> (r: bool) {
        self.new == other.new && self.old == other.old
    }
}

impl vstd::std_specs::cmp::PartialEqSpecImpl for ReservationConflict {
    open spec fn obeys_eq_spec() -> bool {
        true
    }

    open spec fn eq_spec(&self, other: &Self) -> bool {
        self@ == other@
    }
}

impl PartialEq for ReservationConflictInfo {
    fn eq(&self, other: &Self) -> (r: bool) {
        match (self, other) {
            (ReservationConflictInfo::Parsed(a), ReservationConflictInfo::Parsed(b)) => *a == *b,
            (ReservationConflictInfo::Unparsed(x), ReservationConflictInfo::Unparsed(y)) => *x
                == *y,
            _ => false,
        }
    }
}

/// Equality of conflict signals: structured conflicts compare by both
/// windows, fallbacks by their carried text.
pub open spec fn spec_conflict_info_eq(
    a: ReservationConflictInfo,
    b: ReservationConflictInfo,
) -> bool {
    match (a, b) {
        (ReservationConflictInfo::Parsed(x), ReservationConflictInfo::Parsed(y)) => x@ == y@,
        (ReservationConflictInfo::Unparsed(x), ReservationConflictInfo::Unparsed(y)) => x@ == y@,
        _ => false,
    }
}

impl vstd::std_specs::cmp::PartialEqSpecImpl for ReservationConflictInfo {
    open spec fn obeys_eq_spec() -> bool {
        true
    }

    open spec fn eq_spec(&self, other: &Self) -> bool {
        spec_conflict_info_eq(*self, *other)
    }
}

} // verus!
