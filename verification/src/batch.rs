//! Batch mode: one-shot formatting of pre-computed timed segments.
//!
//! The batch interface reads one JSON array of objects
//! `{"start": "HH:MM:SS.mmm", "end": "HH:MM:SS.mmm", "text": "..."}`
//! from its input stream and renders the segments into the transcript
//! text that is written to the output file. The grammar below is the
//! accepted input language: an array of such objects with the three
//! members in that order, JSON whitespace between tokens, and the
//! single-character string escapes. The parser works on the raw bytes
//! of the input; string contents are copied through unchanged.

use vstd::prelude::*;

verus! {

/// JSON whitespace: space, tab, line feed, carriage return.
pub open spec fn is_ws(b: u8) -> bool {
    b == 0x20 || b == 0x09 || b == 0x0a || b == 0x0d
}

/// The first position at or after `i` that does not hold whitespace.
pub open spec fn skip_ws(s: Seq<u8>, i: int) -> int
    decreases s.len() - i,
    when 0 <= i <= s.len()
{
    if i < s.len() && is_ws(s[i]) {
        skip_ws(s, i + 1)
    } else {
        i
    }
}

/// The byte value of a single-character string escape, if the
/// character may follow a backslash.
pub open spec fn unescape(b: u8) -> Option<u8> {
    if b == 0x22 {  // "
        Some(0x22u8)
    } else if b == 0x5c {  // backslash
        Some(0x5cu8)
    } else if b == 0x2f {  // /
        Some(0x2fu8)
    } else if b == 0x6e {  // n
        Some(0x0au8)
    } else if b == 0x74 {  // t
        Some(0x09u8)
    } else if b == 0x72 {  // r
        Some(0x0du8)
    } else if b == 0x62 {  // b
        Some(0x08u8)
    } else if b == 0x66 {  // f
        Some(0x0cu8)
    } else {
        None
    }
}

/// The rest of a string literal after its opening quote: the decoded
/// content and the position after the closing quote.
pub open spec fn parse_str_body(s: Seq<u8>, i: int) -> Option<(Seq<u8>, int)>
    decreases s.len() - i,
    when 0 <= i <= s.len()
{
    if i >= s.len() {
        None
    } else if s[i] == 0x22 {  // closing "
        Some((Seq::empty(), i + 1))
    } else if s[i] == 0x5c {  // escape
        if i + 1 < s.len() {
            match unescape(s[i + 1]) {
                Some(c) => match parse_str_body(s, i + 2) {
                    Some(p) => Some((seq![c] + p.0, p.1)),
                    None => None,
                },
                None => None,
            }
        } else {
            None
        }
    } else {
        match parse_str_body(s, i + 1) {
            Some(p) => Some((seq![s[i]] + p.0, p.1)),
            None => None,
        }
    }
}

/// A string literal starting at `i`.
pub open spec fn parse_string(s: Seq<u8>, i: int) -> Option<(Seq<u8>, int)> {
    if 0 <= i < s.len() && s[i] == 0x22 {
        parse_str_body(s, i + 1)
    } else {
        None
    }
}

/// The bytes of the member name `start`.
pub open spec fn start_name() -> Seq<u8> {
    seq![0x73u8, 0x74u8, 0x61u8, 0x72u8, 0x74u8]
}

/// The bytes of the member name `end`.
pub open spec fn end_name() -> Seq<u8> {
    seq![0x65u8, 0x6eu8, 0x64u8]
}

/// The bytes of the member name `text`.
pub open spec fn text_name() -> Seq<u8> {
    seq![0x74u8, 0x65u8, 0x78u8, 0x74u8]
}

/// One `"name": "value"` member with the given name, from `i` with
/// leading whitespace allowed: the value and the position after it.
pub open spec fn parse_member(s: Seq<u8>, i: int, name: Seq<u8>) -> Option<(Seq<u8>, int)> {
    match parse_string(s, skip_ws(s, i)) {
        Some(k) => if k.0 == name {
            let j = skip_ws(s, k.1);
            if j < s.len() && s[j] == 0x3a {  // :
                parse_string(s, skip_ws(s, j + 1))
            } else {
                None
            }
        } else {
            None
        },
        None => None,
    }
}

/// One segment object from `i` with leading whitespace allowed: the
/// start, end and text values and the position after the object.
pub open spec fn parse_object(s: Seq<u8>, i: int) -> Option<((Seq<u8>, Seq<u8>, Seq<u8>), int)> {
    let j = skip_ws(s, i);
    if j < s.len() && s[j] == 0x7b {  // {
        match parse_member(s, j + 1, start_name()) {
            Some(sv) => {
                let j1 = skip_ws(s, sv.1);
                if j1 < s.len() && s[j1] == 0x2c {  // ,
                    match parse_member(s, j1 + 1, end_name()) {
                        Some(ev) => {
                            let j2 = skip_ws(s, ev.1);
                            if j2 < s.len() && s[j2] == 0x2c {  // ,
                                match parse_member(s, j2 + 1, text_name()) {
                                    Some(tv) => {
                                        let j3 = skip_ws(s, tv.1);
                                        if j3 < s.len() && s[j3] == 0x7d {  // }
                                            Some(((sv.0, ev.0, tv.0), j3 + 1))
                                        } else {
                                            None
                                        }
                                    },
                                    None => None,
                                }
                            } else {
                                None
                            }
                        },
                        None => None,
                    }
                } else {
                    None
                }
            },
            None => None,
        }
    } else {
        None
    }
}

/// After one segment: either the closing bracket, or a comma and
/// further segments. The fuel bounds the recursion; the top-level
/// parse supplies the input length, which no segment list can exhaust.
pub open spec fn parse_more_segs(s: Seq<u8>, i: int, fuel: nat) -> Option<
    (Seq<(Seq<u8>, Seq<u8>, Seq<u8>)>, int),
>
    decreases fuel,
{
    let j = skip_ws(s, i);
    if j < s.len() && s[j] == 0x5d {  // ]
        Some((Seq::empty(), j + 1))
    } else if j < s.len() && s[j] == 0x2c && fuel > 0 {  // ,
        match parse_object(s, j + 1) {
            Some(seg) => match parse_more_segs(s, seg.1, (fuel - 1) as nat) {
                Some(rest) => Some((seq![seg.0] + rest.0, rest.1)),
                None => None,
            },
            None => None,
        }
    } else {
        None
    }
}

/// The segments after the opening bracket: an empty array, or a first
/// segment and the rest.
pub open spec fn parse_segs(s: Seq<u8>, i: int, fuel: nat) -> Option<
    (Seq<(Seq<u8>, Seq<u8>, Seq<u8>)>, int),
> {
    let j = skip_ws(s, i);
    if j < s.len() && s[j] == 0x5d {  // ]
        Some((Seq::empty(), j + 1))
    } else {
        match parse_object(s, i) {
            Some(seg) => match parse_more_segs(s, seg.1, fuel) {
                Some(rest) => Some((seq![seg.0] + rest.0, rest.1)),
                None => None,
            },
            None => None,
        }
    }
}

/// A whole batch input: one array of segment objects and nothing but
/// whitespace after it.
pub open spec fn parse_batch(s: Seq<u8>) -> Option<Seq<(Seq<u8>, Seq<u8>, Seq<u8>)>> {
    let j = skip_ws(s, 0);
    if j < s.len() && s[j] == 0x5b {  // [
        match parse_segs(s, j + 1, s.len()) {
            Some(p) => if skip_ws(s, p.1) == s.len() {
                Some(p.0)
            } else {
                None
            },
            None => None,
        }
    } else {
        None
    }
}

/// One timed segment of the batch input.
pub struct Segment {
    pub start: Vec<u8>,
    pub end: Vec<u8>,
    pub text: Vec<u8>,
}

impl View for Segment {
    type V = (Seq<u8>, Seq<u8>, Seq<u8>);

    open spec fn view(&self) -> (Seq<u8>, Seq<u8>, Seq<u8>) {
        (self.start@, self.end@, self.text@)
    }
}

/// The parsed values of a sequence of segments.
pub open spec fn segs_view(v: Seq<Segment>) -> Seq<(Seq<u8>, Seq<u8>, Seq<u8>)> {
    v.map_values(|x: Segment| x@)
}

fn ex_skip_ws(s: &Vec<u8>, i: usize) -> (j: usize)
    requires
        i <= s.len(),
    ensures
        j as int == skip_ws(s@, i as int),
        i <= j <= s.len(),
    decreases s.len() - i,
{
    if i < s.len() {
        let b = s[i];
        if b == 0x20 || b == 0x09 || b == 0x0a || b == 0x0d {
            return ex_skip_ws(s, i + 1);
        }
    }
    i
}

fn ex_unescape(b: u8) -> (r: Option<u8>)
    ensures
        r == unescape(b),
{
    match b {
        0x22 => Some(0x22),
        0x5c => Some(0x5c),
        0x2f => Some(0x2f),
        0x6e => Some(0x0a),
        0x74 => Some(0x09),
        0x72 => Some(0x0d),
        0x62 => Some(0x08),
        0x66 => Some(0x0c),
        _ => None,
    }
}

fn ex_parse_str_body(s: &Vec<u8>, i: usize) -> (r: Option<(Vec<u8>, usize)>)
    requires
        i <= s.len(),
    ensures
        (r is Some) == (parse_str_body(s@, i as int) is Some),
        r matches Some(p) ==> (parse_str_body(s@, i as int) matches Some(q) && q.0 == p.0@ && q.1
            == p.1 as int && i < p.1 <= s.len()),
    decreases s.len() - i,
{
    if i >= s.len() {
        return None;
    }
    let b = s[i];
    if b == 0x22 {
        let v: Vec<u8> = Vec::new();
        proof {
            assert(v@ =~= Seq::<u8>::empty());
        }
        Some((v, i + 1))
    } else if b == 0x5c {
        if i + 1 < s.len() {
            match ex_unescape(s[i + 1]) {
                Some(c) => match ex_parse_str_body(s, i + 2) {
                    Some(p) => {
                        let (mut v, j) = p;
                        let ghost rest = v@;
                        v.insert(0, c);
                        proof {
                            assert(v@ =~= seq![c] + rest);
                        }
                        Some((v, j))
                    },
                    None => None,
                },
                None => None,
            }
        } else {
            None
        }
    } else {
        match ex_parse_str_body(s, i + 1) {
            Some(p) => {
                let (mut v, j) = p;
                let ghost rest = v@;
                v.insert(0, b);
                proof {
                    assert(v@ =~= seq![b] + rest);
                }
                Some((v, j))
            },
            None => None,
        }
    }
}

fn ex_parse_string(s: &Vec<u8>, i: usize) -> (r: Option<(Vec<u8>, usize)>)
    requires
        i <= s.len(),
    ensures
        (r is Some) == (parse_string(s@, i as int) is Some),
        r matches Some(p) ==> (parse_string(s@, i as int) matches Some(q) && q.0 == p.0@ && q.1
            == p.1 as int && i < p.1 <= s.len()),
{
    if i < s.len() && s[i] == 0x22 {
        ex_parse_str_body(s, i + 1)
    } else {
        None
    }
}

fn bytes_eq(a: &Vec<u8>, b: &Vec<u8>) -> (r: bool)
    ensures
        r == (a@ == b@),
{
    if a.len() != b.len() {
        proof {
            if a@ == b@ {
                assert(a@.len() == b@.len());
            }
        }
        return false;
    }
    let n = a.len();
    let mut i: usize = 0;
    while i < n
        invariant
            n == a.len() && n == b.len(),
            i <= n,
            forall|j: int| 0 <= j < i ==> a@[j] == b@[j],
        decreases n - i,
    {
        if a[i] != b[i] {
            return false;
        }
        i += 1;
    }
    proof {
        assert(a@ =~= b@);
    }
    true
}

fn ex_parse_member(s: &Vec<u8>, i: usize, name: &Vec<u8>) -> (r: Option<(Vec<u8>, usize)>)
    requires
        i <= s.len(),
    ensures
        (r is Some) == (parse_member(s@, i as int, name@) is Some),
        r matches Some(p) ==> (parse_member(s@, i as int, name@) matches Some(q) && q.0 == p.0@
            && q.1 == p.1 as int && i < p.1 <= s.len()),
{
    let j0 = ex_skip_ws(s, i);
    match ex_parse_string(s, j0) {
        Some(k) => {
            if bytes_eq(&k.0, name) {
                let j = ex_skip_ws(s, k.1);
                if j < s.len() && s[j] == 0x3a {
                    ex_parse_string(s, ex_skip_ws(s, j + 1))
                } else {
                    None
                }
            } else {
                None
            }
        },
        None => None,
    }
}

fn name_start() -> (r: Vec<u8>)
    ensures
        r@ == start_name(),
{
    let mut v: Vec<u8> = Vec::new();
    v.push(0x73);
    v.push(0x74);
    v.push(0x61);
    v.push(0x72);
    v.push(0x74);
    proof {
        assert(v@ =~= start_name());
    }
    v
}

fn name_end() -> (r: Vec<u8>)
    ensures
        r@ == end_name(),
{
    let mut v: Vec<u8> = Vec::new();
    v.push(0x65);
    v.push(0x6e);
    v.push(0x64);
    proof {
        assert(v@ =~= end_name());
    }
    v
}

fn name_text() -> (r: Vec<u8>)
    ensures
        r@ == text_name(),
{
    let mut v: Vec<u8> = Vec::new();
    v.push(0x74);
    v.push(0x65);
    v.push(0x78);
    v.push(0x74);
    proof {
        assert(v@ =~= text_name());
    }
    v
}

fn ex_parse_object(s: &Vec<u8>, i: usize) -> (r: Option<(Segment, usize)>)
    requires
        i <= s.len(),
    ensures
        (r is Some) == (parse_object(s@, i as int) is Some),
        r matches Some(p) ==> (parse_object(s@, i as int) matches Some(q) && q.0 == p.0@ && q.1
            == p.1 as int && i < p.1 <= s.len()),
{
    let j = ex_skip_ws(s, i);
    if j < s.len() && s[j] == 0x7b {
        match ex_parse_member(s, j + 1, &name_start()) {
            Some(sv) => {
                let j1 = ex_skip_ws(s, sv.1);
                if j1 < s.len() && s[j1] == 0x2c {
                    match ex_parse_member(s, j1 + 1, &name_end()) {
                        Some(ev) => {
                            let j2 = ex_skip_ws(s, ev.1);
                            if j2 < s.len() && s[j2] == 0x2c {
                                match ex_parse_member(s, j2 + 1, &name_text()) {
                                    Some(tv) => {
                                        let j3 = ex_skip_ws(s, tv.1);
                                        if j3 < s.len() && s[j3] == 0x7d {
                                            let seg = Segment {
                                                start: sv.0,
                                                end: ev.0,
                                                text: tv.0,
                                            };
                                            Some((seg, j3 + 1))
                                        } else {
                                            None
                                        }
                                    },
                                    None => None,
                                }
                            } else {
                                None
                            }
                        },
                        None => None,
                    }
                } else {
                    None
                }
            },
            None => None,
        }
    } else {
        None
    }
}

fn ex_parse_more_segs(s: &Vec<u8>, i: usize, fuel: usize) -> (r: Option<(Vec<Segment>, usize)>)
    requires
        i <= s.len(),
    ensures
        (r is Some) == (parse_more_segs(s@, i as int, fuel as nat) is Some),
        r matches Some(p) ==> (parse_more_segs(s@, i as int, fuel as nat) matches Some(q) && q.0
            == segs_view(p.0@) && q.1 == p.1 as int && i < p.1 <= s.len()),
    decreases fuel,
{
    let j = ex_skip_ws(s, i);
    if j < s.len() && s[j] == 0x5d {
        let v: Vec<Segment> = Vec::new();
        proof {
            assert(segs_view(v@) =~= Seq::<(Seq<u8>, Seq<u8>, Seq<u8>)>::empty());
        }
        Some((v, j + 1))
    } else if j < s.len() && s[j] == 0x2c && fuel > 0 {
        match ex_parse_object(s, j + 1) {
            Some(seg) => match ex_parse_more_segs(s, seg.1, fuel - 1) {
                Some(rest) => {
                    let (mut v, jr) = rest;
                    let ghost tail = v@;
                    let ghost head = seg.0@;
                    v.insert(0, seg.0);
                    proof {
                        assert(v@ =~= seq![v@[0]] + tail);
                        assert(segs_view(v@) =~= seq![head] + segs_view(tail));
                    }
                    Some((v, jr))
                },
                None => None,
            },
            None => None,
        }
    } else {
        None
    }
}

fn ex_parse_segs(s: &Vec<u8>, i: usize, fuel: usize) -> (r: Option<(Vec<Segment>, usize)>)
    requires
        i <= s.len(),
    ensures
        (r is Some) == (parse_segs(s@, i as int, fuel as nat) is Some),
        r matches Some(p) ==> (parse_segs(s@, i as int, fuel as nat) matches Some(q) && q.0
            == segs_view(p.0@) && q.1 == p.1 as int && i < p.1 <= s.len()),
{
    let j = ex_skip_ws(s, i);
    if j < s.len() && s[j] == 0x5d {
        let v: Vec<Segment> = Vec::new();
        proof {
            assert(segs_view(v@) =~= Seq::<(Seq<u8>, Seq<u8>, Seq<u8>)>::empty());
        }
        Some((v, j + 1))
    } else {
        match ex_parse_object(s, i) {
            Some(seg) => match ex_parse_more_segs(s, seg.1, fuel) {
                Some(rest) => {
                    let (mut v, jr) = rest;
                    let ghost tail = v@;
                    let ghost head = seg.0@;
                    v.insert(0, seg.0);
                    proof {
                        assert(v@ =~= seq![v@[0]] + tail);
                        assert(segs_view(v@) =~= seq![head] + segs_view(tail));
                    }
                    Some((v, jr))
                },
                None => None,
            },
            None => None,
        }
    }
}

/// Parses a whole batch input into its segments. Returns `None`
/// exactly when the input is not in the accepted language.
pub fn parse_batch_bytes(input: &Vec<u8>) -> (r: Option<Vec<Segment>>)
    ensures
        (r is Some) == (parse_batch(input@) is Some),
        r matches Some(v) ==> (parse_batch(input@) matches Some(q) && q == segs_view(v@)),
{
    let j = ex_skip_ws(input, 0);
    if j < input.len() && input[j] == 0x5b {
        match ex_parse_segs(input, j + 1, input.len()) {
            Some(p) => {
                if ex_skip_ws(input, p.1) == input.len() {
                    Some(p.0)
                } else {
                    None
                }
            },
            None => None,
        }
    } else {
        None
    }
}

/// An ASCII decimal digit.
pub open spec fn is_digit(b: u8) -> bool {
    0x30 <= b <= 0x39
}

/// The `HH:MM:SS.mmm` timestamp shape: two digits, a colon, two
/// digits, a colon, two digits, a dot, three digits.
pub open spec fn is_timestamp(t: Seq<u8>) -> bool {
    &&& t.len() == 12
    &&& is_digit(t[0])
    &&& is_digit(t[1])
    &&& t[2] == 0x3a
    &&& is_digit(t[3])
    &&& is_digit(t[4])
    &&& t[5] == 0x3a
    &&& is_digit(t[6])
    &&& is_digit(t[7])
    &&& t[8] == 0x2e
    &&& is_digit(t[9])
    &&& is_digit(t[10])
    &&& is_digit(t[11])
}

fn digit_byte(b: u8) -> (r: bool)
    ensures
        r == is_digit(b),
{
    0x30 <= b && b <= 0x39
}

/// Checks the timestamp shape of one value.
pub fn check_timestamp(t: &Vec<u8>) -> (r: bool)
    ensures
        r == is_timestamp(t@),
{
    if t.len() != 12 {
        return false;
    }
    digit_byte(t[0]) && digit_byte(t[1]) && t[2] == 0x3a && digit_byte(t[3]) && digit_byte(t[4])
        && t[5] == 0x3a && digit_byte(t[6]) && digit_byte(t[7]) && t[8] == 0x2e && digit_byte(t[9])
        && digit_byte(t[10]) && digit_byte(t[11])
}

/// Every segment's start and end carry the timestamp shape.
pub open spec fn all_timestamps_ok(q: Seq<(Seq<u8>, Seq<u8>, Seq<u8>)>) -> bool {
    forall|i: int|
        0 <= i < q.len() ==> is_timestamp(#[trigger] q[i].0) && is_timestamp(q[i].1)
}

/// Checks the timestamps of every parsed segment.
pub fn check_all_timestamps(segs: &Vec<Segment>) -> (r: bool)
    ensures
        r == all_timestamps_ok(segs_view(segs@)),
{
    let n = segs.len();
    let mut i: usize = 0;
    while i < n
        invariant
            n == segs.len(),
            i <= n,
            forall|j: int|
                0 <= j < i ==> is_timestamp((#[trigger] segs_view(segs@)[j]).0) && is_timestamp(
                    segs_view(segs@)[j].1,
                ),
        decreases n - i,
    {
        let start_ok = check_timestamp(&segs[i].start);
        let end_ok = check_timestamp(&segs[i].end);
        proof {
            assert(segs_view(segs@)[i as int] == segs@[i as int]@);
            assert(segs_view(segs@)[i as int].0 == segs@[i as int].start@);
            assert(segs_view(segs@)[i as int].1 == segs@[i as int].end@);
        }
        if !start_ok || !end_ok {
            proof {
                assert(!(is_timestamp(segs_view(segs@)[i as int].0) && is_timestamp(
                    segs_view(segs@)[i as int].1,
                )));
            }
            return false;
        }
        i += 1;
    }
    true
}

/// One rendered transcript line: the start and end timestamps in
/// brackets, then the text, then a line feed.
pub open spec fn render_seg(t: (Seq<u8>, Seq<u8>, Seq<u8>)) -> Seq<u8> {
    seq![0x5bu8] + t.0 + seq![0x20u8, 0x2du8, 0x20u8] + t.1 + seq![0x5du8, 0x20u8] + t.2 + seq![
        0x0au8,
    ]
}

/// The whole rendered transcript: the lines of the segments in input
/// order.
pub open spec fn render_transcript(q: Seq<(Seq<u8>, Seq<u8>, Seq<u8>)>) -> Seq<u8> {
    q.map_values(|t: (Seq<u8>, Seq<u8>, Seq<u8>)| render_seg(t)).flatten()
}

/// Renders the parsed segments into the transcript text.
pub fn format_transcript(segs: &Vec<Segment>) -> (out: Vec<u8>)
    ensures
        out@ == render_transcript(segs_view(segs@)),
{
    let mut out: Vec<u8> = Vec::new();
    let n = segs.len();
    let mut i: usize = 0;
    proof {
        assert(segs_view(segs@.subrange(0, 0)).map_values(
            |t: (Seq<u8>, Seq<u8>, Seq<u8>)| render_seg(t),
        ) =~= Seq::<Seq<u8>>::empty());
        assert(out@ =~= render_transcript(segs_view(segs@.subrange(0, 0))));
    }
    while i < n
        invariant
            n == segs.len(),
            i <= n,
            out@ == render_transcript(segs_view(segs@.subrange(0, i as int))),
        decreases n - i,
    {
        let ghost pre_segs = segs_view(segs@.subrange(0, i as int));
        let ghost pre_lines = pre_segs.map_values(|t: (Seq<u8>, Seq<u8>, Seq<u8>)| render_seg(t));
        let ghost cur = segs@[i as int]@;
        out.push(0x5b);
        out.extend_from_slice(segs[i].start.as_slice());
        out.push(0x20);
        out.push(0x2d);
        out.push(0x20);
        out.extend_from_slice(segs[i].end.as_slice());
        out.push(0x5d);
        out.push(0x20);
        out.extend_from_slice(segs[i].text.as_slice());
        out.push(0x0a);
        proof {
            assert(segs_view(segs@.subrange(0, i as int + 1)) =~= pre_segs.push(cur));
            assert(segs_view(segs@.subrange(0, i as int + 1)).map_values(
                |t: (Seq<u8>, Seq<u8>, Seq<u8>)| render_seg(t),
            ) =~= pre_lines.push(render_seg(cur)));
            pre_lines.lemma_flatten_push(render_seg(cur));
            assert(out@ =~= pre_lines.flatten() + render_seg(cur));
        }
        i += 1;
    }
    proof {
        assert(segs@.subrange(0, n as int) =~= segs@);
    }
    out
}

/// Why a batch input was rejected.
#[derive(PartialEq, Eq, Structural, Clone, Copy, Debug)]
pub enum BatchError {
    InvalidJson,
    InvalidTimestamp,
}

/// The whole batch computation: parses the input, checks every
/// timestamp, and renders the transcript. Succeeds exactly on inputs
/// in the accepted language whose timestamps all carry the
/// `HH:MM:SS.mmm` shape; each error names the first reason that
/// failed.
pub fn batch_transcript(input: &Vec<u8>) -> (r: Result<Vec<u8>, BatchError>)
    ensures
        match r {
            Ok(out) => (parse_batch(input@) matches Some(q) && all_timestamps_ok(q) && out@
                == render_transcript(q)),
            Err(e) => {
                ||| e is InvalidJson && parse_batch(input@) is None
                ||| e is InvalidTimestamp && (parse_batch(input@) matches Some(q)
                    && !all_timestamps_ok(q))
            },
        },
{
    match parse_batch_bytes(input) {
        Some(segs) => {
            if check_all_timestamps(&segs) {
                Ok(format_transcript(&segs))
            } else {
                Err(BatchError::InvalidTimestamp)
            }
        },
        None => Err(BatchError::InvalidJson),
    }
}

} // verus!
