//! Reading the deployment manifest: a JSON-shaped text holding, at
//! minimum, the deployed world address, and optionally the list of
//! deployed contracts.
//!
//! The format accepted here is defined by the specification functions in
//! this module: objects, arrays, strings with the single-character escape
//! sequences, numbers, and the three literal words. A string escape of
//! the `\u` form, or any text outside this shape, is malformed and makes
//! discovery fail. The reader walks the text once, left to right; every
//! position it returns lies at or after the one it was given.

use vstd::prelude::*;

verus! {

use crate::KeikoError;

/// JSON whitespace.
pub open spec fn is_ws(c: char) -> bool {
    c == ' ' || c == '\t' || c == '\n' || c == '\r'
}

/// The first position at or after `i` holding no whitespace.
pub open spec fn ws(s: Seq<char>, i: int) -> int
    decreases s.len() - i,
{
    if 0 <= i < s.len() && is_ws(s[i]) {
        ws(s, i + 1)
    } else {
        i
    }
}

/// Skipping whitespace stays inside the text and moves only forward.
pub proof fn lemma_ws_bounds(s: Seq<char>, i: int)
    requires
        0 <= i <= s.len(),
    ensures
        i <= ws(s, i) <= s.len(),
        ws(s, i) < s.len() ==> !is_ws(s[ws(s, i)]),
    decreases s.len() - i,
{
    if i < s.len() && is_ws(s[i]) {
        lemma_ws_bounds(s, i + 1);
    }
}

/// What a one-character escape stands for; `None` for an escape this
/// format does not accept.
pub open spec fn escape_char(c: char) -> Option<char> {
    if c == '"' {
        Some('"')
    } else if c == '\\' {
        Some('\\')
    } else if c == '/' {
        Some('/')
    } else if c == 'b' {
        Some('\u{8}')
    } else if c == 'f' {
        Some('\u{c}')
    } else if c == 'n' {
        Some('\n')
    } else if c == 'r' {
        Some('\r')
    } else if c == 't' {
        Some('\t')
    } else {
        None
    }
}

/// The decoded remainder of a string, read from inside the quotes at
/// `i`: the characters up to the closing quote, escapes decoded, and the
/// position just past the closing quote.
pub open spec fn string_body(s: Seq<char>, i: int) -> Option<(Seq<char>, int)>
    decreases s.len() - i,
{
    if i < 0 || i >= s.len() {
        None
    } else if s[i] == '"' {
        Some((Seq::empty(), i + 1))
    } else if s[i] == '\\' {
        if i + 1 >= s.len() {
            None
        } else {
            match escape_char(s[i + 1]) {
                Some(c) => match string_body(s, i + 2) {
                    Some((rest, j)) => Some((seq![c] + rest, j)),
                    None => None,
                },
                None => None,
            }
        }
    } else {
        match string_body(s, i + 1) {
            Some((rest, j)) => Some((seq![s[i]] + rest, j)),
            None => None,
        }
    }
}

/// A decoded string body ends past at least one character, inside the text.
pub proof fn lemma_string_body_bounds(s: Seq<char>, i: int)
    requires
        string_body(s, i) is Some,
    ensures
        i + 1 <= string_body(s, i).unwrap().1 <= s.len(),
    decreases s.len() - i,
{
    if 0 <= i < s.len() && s[i] != '"' {
        if s[i] == '\\' {
            lemma_string_body_bounds(s, i + 2);
        } else {
            lemma_string_body_bounds(s, i + 1);
        }
    }
}

/// A whole string at `i`: the opening quote, the decoded body, the
/// closing quote, and the position just past it.
pub open spec fn parse_string(s: Seq<char>, i: int) -> Option<(Seq<char>, int)> {
    if 0 <= i < s.len() && s[i] == '"' {
        string_body(s, i + 1)
    } else {
        None
    }
}

/// A parsed string spans at least its two quotes, inside the text.
pub proof fn lemma_parse_string_bounds(s: Seq<char>, i: int)
    requires
        parse_string(s, i) is Some,
    ensures
        i + 2 <= parse_string(s, i).unwrap().1 <= s.len(),
{
    lemma_string_body_bounds(s, i + 1);
}

/// The characters a number is written with. The reader is lenient: any
/// maximal run of them is taken as one number.
pub open spec fn is_number_char(c: char) -> bool {
    c == '0' || c == '1' || c == '2' || c == '3' || c == '4' || c == '5' || c == '6' || c == '7'
        || c == '8' || c == '9' || c == '-' || c == '+' || c == '.' || c == 'e' || c == 'E'
}

/// The end of the run of number characters starting at `i`.
pub open spec fn number_end(s: Seq<char>, i: int) -> int
    decreases s.len() - i,
{
    if 0 <= i < s.len() && is_number_char(s[i]) {
        number_end(s, i + 1)
    } else {
        i
    }
}

/// A number run stays inside the text and moves only forward.
pub proof fn lemma_number_end_bounds(s: Seq<char>, i: int)
    requires
        0 <= i <= s.len(),
    ensures
        i <= number_end(s, i) <= s.len(),
    decreases s.len() - i,
{
    if i < s.len() && is_number_char(s[i]) {
        lemma_number_end_bounds(s, i + 1);
    }
}

/// The word `w` stands at position `i` of `s`.
pub open spec fn has_word_at(s: Seq<char>, i: int, w: Seq<char>) -> bool {
    0 <= i && i + w.len() <= s.len() && s.subrange(i, i + w.len()) == w
}

/// Skipping whitespace never moves backwards, wherever it starts.
pub proof fn lemma_ws_lower(s: Seq<char>, i: int)
    ensures
        ws(s, i) >= i,
    decreases s.len() - i,
{
    if 0 <= i < s.len() && is_ws(s[i]) {
        lemma_ws_lower(s, i + 1);
    }
}

/// One member of an object: its key, decoded, and the span of its value
/// in the text.
pub struct Member {
    pub key: Seq<char>,
    pub start: int,
    pub end: int,
}

/// The position just past the value standing at `i`: a string, an
/// object, an array, one of the three literal words, or a number.
/// `None` when no value of this format stands there.
pub open spec fn skip_value(s: Seq<char>, i: int) -> Option<int>
    decreases s.len() - i, 0int,
{
    if i < 0 || i >= s.len() {
        None
    } else if s[i] == '"' {
        match parse_string(s, i) {
            Some((_, j)) => Some(j),
            None => None,
        }
    } else if s[i] == '{' {
        match members(s, i + 1) {
            Some((_, j)) => Some(j),
            None => None,
        }
    } else if s[i] == '[' {
        match elements(s, i + 1) {
            Some((_, j)) => Some(j),
            None => None,
        }
    } else if has_word_at(s, i, seq!['t', 'r', 'u', 'e']) {
        Some(i + 4)
    } else if has_word_at(s, i, seq!['f', 'a', 'l', 's', 'e']) {
        Some(i + 5)
    } else if has_word_at(s, i, seq!['n', 'u', 'l', 'l']) {
        Some(i + 4)
    } else {
        let j = number_end(s, i);
        if j > i {
            Some(j)
        } else {
            None
        }
    }
}

/// The member list of an object, read from just inside the opening
/// brace at `i`, and the position just past the closing brace.
pub open spec fn members(s: Seq<char>, i: int) -> Option<(Seq<Member>, int)>
    decreases s.len() - i, 1int,
    via members_decreases
{
    if i < 0 || i > s.len() {
        None
    } else {
        let j = ws(s, i);
        if j < s.len() && s[j] == '}' {
            Some((Seq::empty(), j + 1))
        } else {
            match parse_string(s, j) {
                Some((key, j1)) => {
                    let j2 = ws(s, j1);
                    if j2 < s.len() && s[j2] == ':' {
                        let vstart = ws(s, j2 + 1);
                        match skip_value(s, vstart) {
                            Some(vend) => {
                                if vend <= vstart {
                                    None
                                } else {
                                    let j3 = ws(s, vend);
                                    if j3 < s.len() && s[j3] == ',' {
                                        match members(s, j3 + 1) {
                                            Some((rest, e)) => Some(
                                                (
                                                    seq![Member { key, start: vstart, end: vend }]
                                                        + rest,
                                                    e,
                                                ),
                                            ),
                                            None => None,
                                        }
                                    } else if j3 < s.len() && s[j3] == '}' {
                                        Some(
                                            (
                                                seq![Member { key, start: vstart, end: vend }],
                                                j3 + 1,
                                            ),
                                        )
                                    } else {
                                        None
                                    }
                                }
                            },
                            None => None,
                        }
                    } else {
                        None
                    }
                },
                None => None,
            }
        }
    }
}

#[via_fn]
proof fn members_decreases(s: Seq<char>, i: int) {
    assert forall|v: int| ws(s, v) >= v by {
        lemma_ws_lower(s, v);
    }
    assert forall|v: int| 0 <= v <= s.len() implies ws(s, v) <= s.len() by {
        lemma_ws_bounds(s, v);
    }
    if 0 <= i <= s.len() {
        let j = ws(s, i);
        if parse_string(s, j) is Some {
            lemma_parse_string_bounds(s, j);
        }
    }
}

/// The element spans of an array, read from just inside the opening
/// bracket at `i`, and the position just past the closing bracket.
pub open spec fn elements(s: Seq<char>, i: int) -> Option<(Seq<(int, int)>, int)>
    decreases s.len() - i, 1int,
    via elements_decreases
{
    if i < 0 || i > s.len() {
        None
    } else {
        let j = ws(s, i);
        if j < s.len() && s[j] == ']' {
            Some((Seq::empty(), j + 1))
        } else {
            match skip_value(s, j) {
                Some(eend) => {
                    if eend <= j {
                        None
                    } else {
                        let j2 = ws(s, eend);
                        if j2 < s.len() && s[j2] == ',' {
                            match elements(s, j2 + 1) {
                                Some((rest, e)) => Some((seq![(j, eend)] + rest, e)),
                                None => None,
                            }
                        } else if j2 < s.len() && s[j2] == ']' {
                            Some((seq![(j, eend)], j2 + 1))
                        } else {
                            None
                        }
                    }
                },
                None => None,
            }
        }
    }
}

#[via_fn]
proof fn elements_decreases(s: Seq<char>, i: int) {
    assert forall|v: int| ws(s, v) >= v by {
        lemma_ws_lower(s, v);
    }
    assert forall|v: int| 0 <= v <= s.len() implies ws(s, v) <= s.len() by {
        lemma_ws_bounds(s, v);
    }
}

/// The first member carrying this key.
pub open spec fn lookup(ms: Seq<Member>, key: Seq<char>) -> Option<Member>
    decreases ms.len(),
{
    if ms.len() == 0 {
        None
    } else if ms[0].key == key {
        Some(ms[0])
    } else {
        lookup(ms.drop_first(), key)
    }
}

/// The member list of the whole text, provided it is one object with
/// nothing but whitespace around it.
pub open spec fn top_members(s: Seq<char>) -> Option<Seq<Member>> {
    let j = ws(s, 0);
    if j < s.len() && s[j] == '{' {
        match members(s, j + 1) {
            Some((ms, e)) => {
                if ws(s, e) == s.len() {
                    Some(ms)
                } else {
                    None
                }
            },
            None => None,
        }
    } else {
        None
    }
}

/// The member list of the object standing as a value over the span
/// `(start, end)`.
pub open spec fn object_members_at(s: Seq<char>, start: int, end: int) -> Option<Seq<Member>> {
    if 0 <= start < s.len() && s[start] == '{' {
        match members(s, start + 1) {
            Some((ms, e)) => {
                if e == end {
                    Some(ms)
                } else {
                    None
                }
            },
            None => None,
        }
    } else {
        None
    }
}

/// The deployed world address the manifest text holds: the string value
/// of the `address` member inside the `world` object, when the text is
/// well-formed and both members are present and so shaped.
pub open spec fn spec_world_address(s: Seq<char>) -> Option<Seq<char>> {
    match top_members(s) {
        Some(ms) => match lookup(ms, seq!['w', 'o', 'r', 'l', 'd']) {
            Some(m) => match object_members_at(s, m.start, m.end) {
                Some(wms) => match lookup(wms, seq!['a', 'd', 'd', 'r', 'e', 's', 's']) {
                    Some(am) => match parse_string(s, am.start) {
                        Some((addr, _)) => Some(addr),
                        None => None,
                    },
                    None => None,
                },
                None => None,
            },
            None => None,
        },
        None => None,
    }
}

/// Move past the whitespace at `i`.
fn ws_exec(s: &str, i: usize) -> (j: usize)
    requires
        i <= s@.len(),
    ensures
        j == ws(s@, i as int),
        i <= j <= s@.len(),
{
    let n = s.unicode_len();
    let mut j = i;
    let mut stop = false;
    while !stop
        invariant
            i <= j <= n,
            n == s@.len(),
            ws(s@, i as int) == ws(s@, j as int),
            stop ==> j == ws(s@, i as int),
        decreases n - j + if stop {
            0int
        } else {
            1int
        },
    {
        if j >= n {
            stop = true;
        } else {
            let c = s.get_char(j);
            if c == ' ' || c == '\t' || c == '\n' || c == '\r' {
                j += 1;
            } else {
                stop = true;
            }
        }
    }
    j
}

/// What a one-character escape stands for, as a string.
fn escape_str(c: char) -> (r: Option<&'static str>)
    ensures
        match r {
            Some(t) => escape_char(c) == Some(t@[0]) && t@.len() == 1,
            None => escape_char(c) is None,
        },
{
    proof {
        reveal_strlit("\"");
        reveal_strlit("\\");
        reveal_strlit("/");
        reveal_strlit("\u{8}");
        reveal_strlit("\u{c}");
        reveal_strlit("\n");
        reveal_strlit("\r");
        reveal_strlit("\t");
    }
    if c == '"' {
        Some("\"")
    } else if c == '\\' {
        Some("\\")
    } else if c == '/' {
        Some("/")
    } else if c == 'b' {
        Some("\u{8}")
    } else if c == 'f' {
        Some("\u{c}")
    } else if c == 'n' {
        Some("\n")
    } else if c == 'r' {
        Some("\r")
    } else if c == 't' {
        Some("\t")
    } else {
        None
    }
}

/// Decode the remainder of a string from inside the quotes at `i`.
fn string_body_exec(s: &str, i: usize) -> (r: Option<(String, usize)>)
    requires
        i <= s@.len(),
    ensures
        match r {
            Some(v) => string_body(s@, i as int) == Some((v.0@, v.1 as int)),
            None => string_body(s@, i as int) is None,
        },
    decreases s@.len() - i,
{
    let n = s.unicode_len();
    if i >= n {
        return None;
    }
    let c = s.get_char(i);
    if c == '"' {
        Some((String::new(), i + 1))
    } else if c == '\\' {
        if i + 1 >= n {
            None
        } else {
            let e = s.get_char(i + 1);
            match escape_str(e) {
                Some(decoded) => match string_body_exec(s, i + 2) {
                    Some((rest, j)) => {
                        let piece = String::from_str(decoded).concat(rest.as_str());
                        proof {
                            assert(piece@ =~= seq![escape_char(e).unwrap()] + rest@);
                        }
                        Some((piece, j))
                    },
                    None => None,
                },
                None => None,
            }
        }
    } else {
        let piece = s.substring_char(i, i + 1);
        match string_body_exec(s, i + 1) {
            Some((rest, j)) => {
                let whole = String::from_str(piece).concat(rest.as_str());
                proof {
                    assert(piece@ =~= seq![s@[i as int]]);
                    assert(whole@ =~= seq![s@[i as int]] + rest@);
                }
                Some((whole, j))
            },
            None => None,
        }
    }
}

/// Parse the whole string standing at `i`.
fn parse_string_exec(s: &str, i: usize) -> (r: Option<(String, usize)>)
    requires
        i <= s@.len(),
    ensures
        match r {
            Some(v) => parse_string(s@, i as int) == Some((v.0@, v.1 as int)) && i + 2 <= v.1
                <= s@.len(),
            None => parse_string(s@, i as int) is None,
        },
{
    let n = s.unicode_len();
    if i < n && s.get_char(i) == '"' {
        let r = string_body_exec(s, i + 1);
        proof {
            if string_body(s@, i as int + 1) is Some {
                lemma_string_body_bounds(s@, i as int + 1);
            }
        }
        r
    } else {
        None
    }
}

/// Move past the run of number characters at `i`.
fn number_end_exec(s: &str, i: usize) -> (j: usize)
    requires
        i <= s@.len(),
    ensures
        j == number_end(s@, i as int),
        i <= j <= s@.len(),
{
    let n = s.unicode_len();
    let mut j = i;
    let mut stop = false;
    while !stop
        invariant
            i <= j <= n,
            n == s@.len(),
            number_end(s@, i as int) == number_end(s@, j as int),
            stop ==> j == number_end(s@, i as int),
        decreases n - j + if stop {
            0int
        } else {
            1int
        },
    {
        if j >= n {
            stop = true;
        } else {
            let c = s.get_char(j);
            if c == '0' || c == '1' || c == '2' || c == '3' || c == '4' || c == '5' || c == '6'
                || c == '7' || c == '8' || c == '9' || c == '-' || c == '+' || c == '.' || c == 'e'
                || c == 'E' {
                j += 1;
            } else {
                stop = true;
            }
        }
    }
    j
}

/// Whether the word `w` stands at position `i`.
fn has_word_at_exec(s: &str, i: usize, w: &str) -> (r: bool)
    requires
        i <= s@.len(),
    ensures
        r == has_word_at(s@, i as int, w@),
{
    let n = s.unicode_len();
    let wn = w.unicode_len();
    if wn > n - i {
        return false;
    }
    let mut k: usize = 0;
    while k < wn
        invariant
            0 <= k <= wn,
            wn == w@.len(),
            n == s@.len(),
            i + wn <= n,
            forall|t: int| 0 <= t < k ==> s@[i + t] == w@[t],
        decreases wn - k,
    {
        if s.get_char(i + k) != w.get_char(k) {
            assert(s@.subrange(i as int, i + w@.len())[k as int] == s@[i + k]);
            return false;
        }
        k += 1;
    }
    assert(s@.subrange(i as int, i + w@.len()) =~= w@);
    true
}

/// One member as the reader hands it out.
pub struct MemberSlot {
    pub key: String,
    pub start: usize,
    pub end: usize,
}

impl View for MemberSlot {
    type V = Member;

    open spec fn view(&self) -> Member {
        Member { key: self.key@, start: self.start as int, end: self.end as int }
    }
}

/// The members a slot sequence stands for.
pub open spec fn view_members(v: Seq<MemberSlot>) -> Seq<Member> {
    v.map_values(|m: MemberSlot| m@)
}

/// The spans a span sequence stands for.
pub open spec fn view_spans(v: Seq<(usize, usize)>) -> Seq<(int, int)> {
    v.map_values(|p: (usize, usize)| (p.0 as int, p.1 as int))
}

/// Move past the value standing at `i`.
fn skip_value_exec(s: &str, i: usize) -> (r: Option<usize>)
    requires
        i <= s@.len(),
    ensures
        match r {
            Some(j) => skip_value(s@, i as int) == Some(j as int) && i <= j <= s@.len(),
            None => skip_value(s@, i as int) is None,
        },
    decreases s@.len() - i, 0int,
{
    proof {
        reveal_strlit("true");
        reveal_strlit("false");
        reveal_strlit("null");
        assert("true"@ =~= seq!['t', 'r', 'u', 'e']);
        assert("false"@ =~= seq!['f', 'a', 'l', 's', 'e']);
        assert("null"@ =~= seq!['n', 'u', 'l', 'l']);
    }
    let n = s.unicode_len();
    if i >= n {
        return None;
    }
    let c = s.get_char(i);
    if c == '"' {
        match parse_string_exec(s, i) {
            Some((_, j)) => Some(j),
            None => None,
        }
    } else if c == '{' {
        match members_exec(s, i + 1) {
            Some((_, j)) => Some(j),
            None => None,
        }
    } else if c == '[' {
        match elements_exec(s, i + 1) {
            Some((_, j)) => Some(j),
            None => None,
        }
    } else if has_word_at_exec(s, i, "true") {
        Some(i + 4)
    } else if has_word_at_exec(s, i, "false") {
        Some(i + 5)
    } else if has_word_at_exec(s, i, "null") {
        Some(i + 4)
    } else {
        let j = number_end_exec(s, i);
        if j > i {
            Some(j)
        } else {
            None
        }
    }
}

/// Read the member list of an object from just inside its opening brace.
fn members_exec(s: &str, i: usize) -> (r: Option<(Vec<MemberSlot>, usize)>)
    requires
        i <= s@.len(),
    ensures
        match r {
            Some(v) => members(s@, i as int) == Some((view_members(v.0@), v.1 as int)) && i <= v.1
                <= s@.len(),
            None => members(s@, i as int) is None,
        },
    decreases s@.len() - i, 1int,
{
    let n = s.unicode_len();
    let j = ws_exec(s, i);
    if j < n && s.get_char(j) == '}' {
        proof {
            assert(view_members(Seq::<MemberSlot>::empty()) =~= Seq::<Member>::empty());
        }
        return Some((Vec::new(), j + 1));
    }
    match parse_string_exec(s, j) {
        Some((key, j1)) => {
            let j2 = ws_exec(s, j1);
            if j2 < n && s.get_char(j2) == ':' {
                let vstart = ws_exec(s, j2 + 1);
                match skip_value_exec(s, vstart) {
                    Some(vend) => {
                        if vend <= vstart {
                            None
                        } else {
                            let j3 = ws_exec(s, vend);
                            if j3 < n && s.get_char(j3) == ',' {
                                match members_exec(s, j3 + 1) {
                                    Some((rest, e)) => {
                                        let ghost rest_view = rest@;
                                        let mut v = rest;
                                        let slot = MemberSlot { key, start: vstart, end: vend };
                                        let ghost m = slot@;
                                        v.insert(0, slot);
                                        proof {
                                            assert(view_members(v@) =~= seq![m] + view_members(
                                                rest_view,
                                            ));
                                        }
                                        Some((v, e))
                                    },
                                    None => None,
                                }
                            } else if j3 < n && s.get_char(j3) == '}' {
                                let mut v: Vec<MemberSlot> = Vec::new();
                                let slot = MemberSlot { key, start: vstart, end: vend };
                                let ghost m = slot@;
                                v.push(slot);
                                proof {
                                    assert(view_members(v@) =~= seq![m]);
                                }
                                Some((v, j3 + 1))
                            } else {
                                None
                            }
                        }
                    },
                    None => None,
                }
            } else {
                None
            }
        },
        None => None,
    }
}

/// Read the element spans of an array from just inside its opening
/// bracket.
fn elements_exec(s: &str, i: usize) -> (r: Option<(Vec<(usize, usize)>, usize)>)
    requires
        i <= s@.len(),
    ensures
        match r {
            Some(v) => elements(s@, i as int) == Some((view_spans(v.0@), v.1 as int)) && i <= v.1
                <= s@.len(),
            None => elements(s@, i as int) is None,
        },
    decreases s@.len() - i, 1int,
{
    let n = s.unicode_len();
    let j = ws_exec(s, i);
    if j < n && s.get_char(j) == ']' {
        proof {
            assert(view_spans(Seq::<(usize, usize)>::empty()) =~= Seq::<(int, int)>::empty());
        }
        return Some((Vec::new(), j + 1));
    }
    match skip_value_exec(s, j) {
        Some(eend) => {
            if eend <= j {
                None
            } else {
                let j2 = ws_exec(s, eend);
                if j2 < n && s.get_char(j2) == ',' {
                    match elements_exec(s, j2 + 1) {
                        Some((rest, e)) => {
                            let ghost rest_view = rest@;
                            let mut v = rest;
                            v.insert(0, (j, eend));
                            proof {
                                assert(view_spans(v@) =~= seq![(j as int, eend as int)]
                                    + view_spans(rest_view));
                            }
                            Some((v, e))
                        },
                        None => None,
                    }
                } else if j2 < n && s.get_char(j2) == ']' {
                    let mut v: Vec<(usize, usize)> = Vec::new();
                    v.push((j, eend));
                    proof {
                        assert(view_spans(v@) =~= seq![(j as int, eend as int)]);
                    }
                    Some((v, j2 + 1))
                } else {
                    None
                }
            }
        },
        None => None,
    }
}

/// Find the first member carrying this key and return its index.
fn lookup_exec(ms: &Vec<MemberSlot>, key: &str) -> (r: Option<usize>)
    ensures
        match r {
            Some(ix) => ix < ms@.len() && lookup(view_members(ms@), key@) == Some(ms@[ix as int]@),
            None => lookup(view_members(ms@), key@) is None,
        },
{
    let ghost full = view_members(ms@);
    proof {
        assert(view_members(ms@).skip(0) =~= full);
    }
    let mut k: usize = 0;
    while k < ms.len()
        invariant
            0 <= k <= ms@.len(),
            full == view_members(ms@),
            lookup(full, key@) == lookup(view_members(ms@).skip(k as int), key@),
        decreases ms@.len() - k,
    {
        let hit = crate::text::str_eq(ms[k].key.as_str(), key);
        proof {
            assert(view_members(ms@).skip(k as int)[0] == ms@[k as int]@);
        }
        if hit {
            return Some(k);
        }
        proof {
            assert(view_members(ms@).skip(k as int).drop_first() =~= view_members(ms@).skip(
                k as int + 1,
            ));
        }
        k += 1;
    }
    proof {
        assert(view_members(ms@).skip(k as int) =~= Seq::<Member>::empty());
    }
    None
}

/// Read the member list of the whole text, provided it is one object.
fn top_members_exec(s: &str) -> (r: Option<Vec<MemberSlot>>)
    ensures
        match r {
            Some(v) => top_members(s@) == Some(view_members(v@)),
            None => top_members(s@) is None,
        },
{
    let n = s.unicode_len();
    let j = ws_exec(s, 0);
    if j < n && s.get_char(j) == '{' {
        match members_exec(s, j + 1) {
            Some((ms, e)) => {
                let t = ws_exec(s, e);
                if t == n {
                    Some(ms)
                } else {
                    None
                }
            },
            None => None,
        }
    } else {
        None
    }
}

/// The deployed world address held by the manifest text, when the text
/// is well-formed and carries one.
pub fn world_address(manifest_text: &str) -> (r: Option<String>)
    ensures
        match r {
            Some(a) => spec_world_address(manifest_text@) == Some(a@),
            None => spec_world_address(manifest_text@) is None,
        },
{
    proof {
        reveal_strlit("world");
        reveal_strlit("address");
        assert("world"@ =~= seq!['w', 'o', 'r', 'l', 'd']);
        assert("address"@ =~= seq!['a', 'd', 'd', 'r', 'e', 's', 's']);
    }
    let s = manifest_text;
    let n = s.unicode_len();
    match top_members_exec(s) {
        Some(ms) => match lookup_exec(&ms, "world") {
            Some(ix) => {
                let start = ms[ix].start;
                let end = ms[ix].end;
                if start < n && s.get_char(start) == '{' {
                    match members_exec(s, start + 1) {
                        Some((wms, e)) => {
                            if e == end {
                                match lookup_exec(&wms, "address") {
                                    Some(ax) => {
                                        let astart = wms[ax].start;
                                        if astart <= n {
                                            match parse_string_exec(s, astart) {
                                                Some((addr, _)) => Some(addr),
                                                None => None,
                                            }
                                        } else {
                                            None
                                        }
                                    },
                                    None => None,
                                }
                            } else {
                                None
                            }
                        },
                        None => None,
                    }
                } else {
                    None
                }
            },
            None => None,
        },
        None => None,
    }
}

/// The discovered deployment: the world address and the manifest it was
/// read from. Created once after discovery succeeds; immutable for the
/// rest of the run.
#[derive(Debug)]
pub struct DeploymentRecord {
    pub address: String,
    pub manifest_path: String,
}

/// Discover the deployment from the manifest text read at
/// `manifest_path`: the world address when the text holds one, a
/// migration failure when the text is not one well-formed object, and a
/// missing-address failure when it is but carries no address string.
pub fn discover_world_address(manifest_text: &str, manifest_path: &str) -> (r: Result<
    DeploymentRecord,
    KeikoError,
>)
    ensures
        r is Ok <==> spec_world_address(manifest_text@) is Some,
        r matches Ok(rec) ==> rec.address@ == spec_world_address(manifest_text@).unwrap()
            && rec.manifest_path@ == manifest_path@,
        top_members(manifest_text@) is None ==> r == Err::<DeploymentRecord, KeikoError>(
            KeikoError::SozoMigrateFailed,
        ),
        top_members(manifest_text@) is Some && spec_world_address(manifest_text@) is None ==> r
            == Err::<DeploymentRecord, KeikoError>(KeikoError::WorldAddressNotFound),
{
    match top_members_exec(manifest_text) {
        None => Err(KeikoError::SozoMigrateFailed),
        Some(_) => match world_address(manifest_text) {
            Some(address) => Ok(
                DeploymentRecord { address, manifest_path: String::from_str(manifest_path) },
            ),
            None => Err(KeikoError::WorldAddressNotFound),
        },
    }
}

/// The `name=address` pair of one contract object over the span
/// `(a, b)`, when both members are present as strings.
pub open spec fn contract_pair(s: Seq<char>, a: int, b: int) -> Option<Seq<char>> {
    match object_members_at(s, a, b) {
        Some(ms) => match lookup(ms, seq!['n', 'a', 'm', 'e']) {
            Some(nm) => match parse_string(s, nm.start) {
                Some((name, _)) => match lookup(ms, seq!['a', 'd', 'd', 'r', 'e', 's', 's']) {
                    Some(am) => match parse_string(s, am.start) {
                        Some((addr, _)) => Some(name + seq!['='] + addr),
                        None => None,
                    },
                    None => None,
                },
                None => None,
            },
            None => None,
        },
        None => None,
    }
}

/// The `name=address` pairs of a run of contract objects.
pub open spec fn contract_args_list(s: Seq<char>, spans: Seq<(int, int)>) -> Option<Seq<Seq<char>>>
    decreases spans.len(),
{
    if spans.len() == 0 {
        Some(Seq::empty())
    } else {
        match contract_pair(s, spans[0].0, spans[0].1) {
            Some(p) => match contract_args_list(s, spans.drop_first()) {
                Some(rest) => Some(seq![p] + rest),
                None => None,
            },
            None => None,
        }
    }
}

/// One `name=address` line for each entry of the manifest's `contracts`
/// array, in order, when the text is well-formed and every entry holds
/// both strings.
pub open spec fn spec_contract_args(s: Seq<char>) -> Option<Seq<Seq<char>>> {
    match top_members(s) {
        Some(ms) => match lookup(ms, seq!['c', 'o', 'n', 't', 'r', 'a', 'c', 't', 's']) {
            Some(m) => {
                if 0 <= m.start < s.len() && s[m.start] == '[' {
                    match elements(s, m.start + 1) {
                        Some((spans, e)) => {
                            if e == m.end {
                                contract_args_list(s, spans)
                            } else {
                                None
                            }
                        },
                        None => None,
                    }
                } else {
                    None
                }
            },
            None => None,
        },
        None => None,
    }
}

/// Read one contract object's `name=address` pair.
fn contract_pair_exec(s: &str, a: usize, b: usize) -> (r: Option<String>)
    ensures
        match r {
            Some(p) => contract_pair(s@, a as int, b as int) == Some(p@),
            None => contract_pair(s@, a as int, b as int) is None,
        },
{
    proof {
        reveal_strlit("name");
        reveal_strlit("address");
        reveal_strlit("=");
        assert("name"@ =~= seq!['n', 'a', 'm', 'e']);
        assert("address"@ =~= seq!['a', 'd', 'd', 'r', 'e', 's', 's']);
        assert("="@ =~= seq!['=']);
    }
    let n = s.unicode_len();
    if a < n && s.get_char(a) == '{' {
        match members_exec(s, a + 1) {
            Some((ms, e)) => {
                if e == b {
                    match lookup_exec(&ms, "name") {
                        Some(nx) => {
                            let nstart = ms[nx].start;
                            if nstart <= n {
                                match parse_string_exec(s, nstart) {
                                    Some((name, _)) => match lookup_exec(&ms, "address") {
                                        Some(ax) => {
                                            let astart = ms[ax].start;
                                            if astart <= n {
                                                match parse_string_exec(s, astart) {
                                                    Some((addr, _)) => Some(
                                                        name.concat("=").concat(addr.as_str()),
                                                    ),
                                                    None => None,
                                                }
                                            } else {
                                                None
                                            }
                                        },
                                        None => None,
                                    },
                                    None => None,
                                }
                            } else {
                                None
                            }
                        },
                        None => None,
                    }
                } else {
                    None
                }
            },
            None => None,
        }
    } else {
        None
    }
}

/// One `name=address` line for each deployed contract the manifest
/// lists. Fails when the text is not one well-formed object or any
/// entry lacks its two strings.
pub fn extract_contract_args(manifest_json: &str) -> (r: Result<Vec<String>, KeikoError>)
    ensures
        match r {
            Ok(v) => spec_contract_args(manifest_json@) == Some(v.deep_view()),
            Err(e) => spec_contract_args(manifest_json@) is None && e
                == KeikoError::SozoMigrateFailed,
        },
{
    proof {
        reveal_strlit("contracts");
        assert("contracts"@ =~= seq!['c', 'o', 'n', 't', 'r', 'a', 'c', 't', 's']);
    }
    let s = manifest_json;
    let n = s.unicode_len();
    let ms = match top_members_exec(s) {
        Some(ms) => ms,
        None => {
            return Err(KeikoError::SozoMigrateFailed);
        },
    };
    let cx = match lookup_exec(&ms, "contracts") {
        Some(cx) => cx,
        None => {
            return Err(KeikoError::SozoMigrateFailed);
        },
    };
    let start = ms[cx].start;
    let end = ms[cx].end;
    if !(start < n && s.get_char(start) == '[') {
        return Err(KeikoError::SozoMigrateFailed);
    }
    let spans = match elements_exec(s, start + 1) {
        Some((spans, e)) => {
            if e == end {
                spans
            } else {
                return Err(KeikoError::SozoMigrateFailed);
            }
        },
        None => {
            return Err(KeikoError::SozoMigrateFailed);
        },
    };
    let ghost all_spans = view_spans(spans@);
    let mut lines: Vec<String> = Vec::new();
    let mut k: usize = 0;
    proof {
        assert(all_spans.skip(0) =~= all_spans);
        assert(lines.deep_view() =~= Seq::<Seq<char>>::empty());
    }
    while k < spans.len()
        invariant
            0 <= k <= spans@.len(),
            s@ == manifest_json@,
            all_spans == view_spans(spans@),
            spec_contract_args(s@) == (match contract_args_list(s@, all_spans.skip(k as int)) {
                Some(rest) => Some(lines.deep_view() + rest),
                None => None::<Seq<Seq<char>>>,
            }),
        decreases spans@.len() - k,
    {
        let (a, b) = spans[k];
        proof {
            assert(all_spans.skip(k as int)[0] == (a as int, b as int));
            assert(all_spans.skip(k as int).drop_first() =~= all_spans.skip(k as int + 1));
        }
        match contract_pair_exec(s, a, b) {
            Some(p) => {
                let ghost lines_before = lines.deep_view();
                let ghost pv = p@;
                lines.push(p);
                proof {
                    assert(lines.deep_view() =~= lines_before.push(pv));
                    assert forall|rest: Seq<Seq<char>>|
                        lines_before + (seq![pv] + rest) =~= lines.deep_view() + rest by {
                        assert(lines.deep_view() =~= lines_before.push(pv));
                    }
                }
            },
            None => {
                proof {
                    assert(all_spans.skip(k as int).len() > 0);
                    assert(contract_args_list(s@, all_spans.skip(k as int)) is None);
                }
                return Err(KeikoError::SozoMigrateFailed);
            },
        }
        k += 1;
    }
    proof {
        assert(all_spans.skip(k as int) =~= Seq::<(int, int)>::empty());
        assert(lines.deep_view() + Seq::<Seq<char>>::empty() =~= lines.deep_view());
    }
    Ok(lines)
}

} // verus!
