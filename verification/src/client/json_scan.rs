use vstd::prelude::*;

use vstd::std_specs::iter::IteratorSpec;
use vstd::string::StrSliceExecFns;

use crate::text::push_char;

verus! {

/// The characters of `s`, in order.
pub fn chars_of(s: &str) -> (r: Vec<char>)
    ensures
        r@ == s@,
{
    let n = s.unicode_len();
    let mut it = s.chars();
    let mut v: Vec<char> = Vec::new();
    while v.len() < n
        invariant
            n == s@.len(),
            it.obeys_prophetic_iter_laws(),
            v@ + it.remaining() == s@,
        decreases n - v.len(),
    {
        let ghost before = it.remaining();
        if let Some(c) = it.next() {
            v.push(c);
            assert(v@ + it.remaining() =~= s@) by {
                assert(before =~= seq![c] + it.remaining());
            }
        }
    }
    assert(v@ =~= s@);
    v
}

/// Whether `p` occurs in `s` at position `i`.
pub open spec fn matches_at(s: Seq<char>, p: Seq<char>, i: int) -> bool {
    0 <= i && i + p.len() <= s.len() && s.subrange(i, i + p.len()) == p
}

/// The first position at or after `i` where `p` occurs in `s`.
pub open spec fn find_from(s: Seq<char>, p: Seq<char>, i: int) -> Option<int>
    decreases s.len() + 1 - i,
{
    if i < 0 || i + p.len() > s.len() {
        None
    } else if matches_at(s, p, i) {
        Some(i)
    } else {
        find_from(s, p, i + 1)
    }
}

/// The first position at or after `from` where `p` occurs in `s`.
pub fn find(s: &Vec<char>, p: &Vec<char>, from: usize) -> (r: Option<usize>)
    ensures
        r matches Some(i) ==> find_from(s@, p@, from as int) == Some(i as int),
        r is None ==> find_from(s@, p@, from as int) is None,
{
    if p.len() > s.len() {
        return None;
    }
    let mut i = from;
    while i <= s.len() - p.len()
        invariant
            from <= i,
            p.len() <= s.len(),
            find_from(s@, p@, from as int) == find_from(s@, p@, i as int),
        decreases s.len() + 1 - i,
    {
        let mut j: usize = 0;
        let mut same = true;
        assert(s@.subrange(i as int, i as int) =~= p@.subrange(0, 0));
        while j < p.len()
            invariant
                i + p.len() <= s.len(),
                j <= p.len(),
                same == (s@.subrange(i as int, i + j) == p@.subrange(0, j as int)),
            decreases p.len() - j,
        {
            if same && s[i + j] != p[j] {
                assert(s@.subrange(i as int, i + j + 1)[j as int] != p@.subrange(
                    0,
                    j + 1,
                )[j as int]);
                same = false;
            } else if same {
                assert(s@.subrange(i as int, i + j + 1) =~= s@.subrange(i as int, i + j).push(
                    s@[i + j],
                ));
                assert(p@.subrange(0, j + 1) =~= p@.subrange(0, j as int).push(p@[j as int]));
            } else {
                assert(s@.subrange(i as int, i + j) != p@.subrange(0, j as int));
                assert(s@.subrange(i as int, i + j + 1).subrange(0, j as int) =~= s@.subrange(
                    i as int,
                    i + j,
                ));
                assert(p@.subrange(0, j + 1).subrange(0, j as int) =~= p@.subrange(0, j as int));
            }
            j += 1;
        }
        assert(p@.subrange(0, p.len() as int) =~= p@);
        if same {
            return Some(i);
        }
        i += 1;
    }
    None
}

/// The characters of `s` from `a` up to `b`, as a new string.
pub fn string_of(s: &Vec<char>, a: usize, b: usize) -> (r: String)
    requires
        a <= b <= s.len(),
    ensures
        r@ == s@.subrange(a as int, b as int),
{
    let mut out = String::new();
    let mut i = a;
    while i < b
        invariant
            a <= i <= b,
            b <= s.len(),
            out@ == s@.subrange(a as int, i as int),
        decreases b - i,
    {
        push_char(&mut out, s[i]);
        assert(s@.subrange(a as int, i + 1) =~= s@.subrange(a as int, i as int).push(s@[i as int]));
        i += 1;
    }
    out
}

/// Where `find_from` finds something, `p` occurs there, at or after `i`.
pub proof fn lemma_find_from_found(s: Seq<char>, p: Seq<char>, i: int)
    ensures
        find_from(s, p, i) matches Some(k) ==> i <= k && matches_at(s, p, k),
    decreases s.len() + 1 - i,
{
    if !(i < 0 || i + p.len() > s.len()) && !matches_at(s, p, i) {
        lemma_find_from_found(s, p, i + 1);
    }
}

/// `"key":` followed by `tail`, as characters.
pub open spec fn key_pattern(key: Seq<char>, tail: Seq<char>) -> Seq<char> {
    seq!['"'] + key + seq!['"', ':'] + tail
}

fn make_key_pattern(key: &str, tail: char) -> (r: Vec<char>)
    ensures
        r@ == key_pattern(key@, seq![tail]),
{
    let mut v: Vec<char> = Vec::new();
    v.push('"');
    let k = chars_of(key);
    let mut i: usize = 0;
    while i < k.len()
        invariant
            i <= k.len(),
            k@ == key@,
            v@ == seq!['"'] + k@.subrange(0, i as int),
        decreases k.len() - i,
    {
        v.push(k[i]);
        assert(k@.subrange(0, i + 1) =~= k@.subrange(0, i as int).push(k@[i as int]));
        i += 1;
    }
    v.push('"');
    v.push(':');
    v.push(tail);
    assert(k@.subrange(0, k.len() as int) =~= k@);
    assert(v@ =~= key_pattern(key@, seq![tail]));
    v
}

/// The string value of `key` in a flat JSON text: the characters after the
/// first `"key":"` up to the next quote.
pub open spec fn spec_extract_json_string(json: Seq<char>, key: Seq<char>) -> Option<Seq<char>> {
    let pat = key_pattern(key, seq!['"']);
    match find_from(json, pat, 0) {
        None => None,
        Some(i) => {
            let start = i + pat.len();
            match find_from(json, seq!['"'], start) {
                None => None,
                Some(e) => Some(json.subrange(start, e)),
            }
        },
    }
}

pub fn extract_json_string(json: &str, key: &str) -> (r: Option<String>)
    ensures
        r matches Some(v) ==> spec_extract_json_string(json@, key@) == Some(v@),
        r is None ==> spec_extract_json_string(json@, key@) is None,
{
    let s = chars_of(json);
    let pat = make_key_pattern(key, '"');
    match find(&s, &pat, 0) {
        None => None,
        Some(i) => {
            proof {
                lemma_find_from_found(s@, pat@, 0);
            }
            assert(matches_at(s@, pat@, i as int));
            assert(i + pat@.len() <= s@.len());
            assert(i + pat.len() <= s.len());
            let start = i + pat.len();
            let quote = vec!['"'];
            assert(quote@ =~= seq!['"']);
            match find(&s, &quote, start) {
                None => None,
                Some(e) => {
                    proof {
                        lemma_find_from_found(s@, quote@, start as int);
                    }
                    Some(string_of(&s, start, e))
                },
            }
        },
    }
}

/// The first quote at or after `i` that no backslash escapes.
pub open spec fn closing_quote_from(s: Seq<char>, i: int) -> Option<int>
    decreases s.len() - i,
{
    if i < 0 || i >= s.len() {
        None
    } else if s[i] == '"' && (i == 0 || s[i - 1] != '\\') {
        Some(i)
    } else {
        closing_quote_from(s, i + 1)
    }
}

proof fn lemma_closing_quote_range(s: Seq<char>, i: int)
    ensures
        closing_quote_from(s, i) matches Some(k) ==> i <= k < s.len(),
    decreases s.len() - i,
{
    if !(i < 0 || i >= s.len()) && !(s[i] == '"' && (i == 0 || s[i - 1] != '\\')) {
        lemma_closing_quote_range(s, i + 1);
    }
}

/// The string value of `key`, which may hold escaped quotes: the characters
/// after the first `"key":"` up to the next quote without a backslash
/// before it.
pub open spec fn spec_extract_nested_string(json: Seq<char>, key: Seq<char>) -> Option<Seq<char>> {
    let pat = key_pattern(key, seq!['"']);
    match find_from(json, pat, 0) {
        None => None,
        Some(i) => {
            let start = i + pat.len();
            match closing_quote_from(json, start) {
                None => None,
                Some(e) => Some(json.subrange(start, e)),
            }
        },
    }
}

pub fn extract_nested_string(json: &str, key: &str) -> (r: Option<String>)
    ensures
        r matches Some(v) ==> spec_extract_nested_string(json@, key@) == Some(v@),
        r is None ==> spec_extract_nested_string(json@, key@) is None,
{
    let s = chars_of(json);
    let pat = make_key_pattern(key, '"');
    match find(&s, &pat, 0) {
        None => None,
        Some(i) => {
            proof {
                lemma_find_from_found(s@, pat@, 0);
            }
            assert(matches_at(s@, pat@, i as int));
            assert(i + pat.len() <= s.len());
            let start = i + pat.len();
            let mut k = start;
            while k < s.len()
                invariant
                    start <= k,
                    s@ == json@,
                    pat@ == key_pattern(key@, seq!['"']),
                    find_from(s@, pat@, 0) == Some(i as int),
                    start == i + pat.len(),
                    closing_quote_from(s@, start as int) == closing_quote_from(s@, k as int),
                decreases s.len() - k,
            {
                if s[k] == '"' && (k == 0 || s[k - 1] != '\\') {
                    assert(closing_quote_from(s@, k as int) == Some(k as int));
                    return Some(string_of(&s, start, k));
                }
                k += 1;
            }
            None
        },
    }
}

/// The characters with the Unicode White_Space property, the ones that
/// `str::trim` removes.
pub open spec fn is_white_space(c: char) -> bool {
    let u = c as u32;
    ||| 9 <= u <= 13
    ||| u == 32
    ||| u == 0x85
    ||| u == 0xA0
    ||| u == 0x1680
    ||| 0x2000 <= u <= 0x200A
    ||| u == 0x2028
    ||| u == 0x2029
    ||| u == 0x202F
    ||| u == 0x205F
    ||| u == 0x3000
}

fn white_space(c: char) -> (r: bool)
    ensures
        r == is_white_space(c),
{
    let u = c as u32;
    (9 <= u && u <= 13) || u == 32 || u == 0x85 || u == 0xA0 || u == 0x1680 || (0x2000 <= u
        && u <= 0x200A) || u == 0x2028 || u == 0x2029 || u == 0x202F || u == 0x205F || u
        == 0x3000
}

/// `s` without its leading white space.
pub open spec fn trim_front(s: Seq<char>) -> Seq<char>
    decreases s.len(),
{
    if s.len() > 0 && is_white_space(s[0]) {
        trim_front(s.drop_first())
    } else {
        s
    }
}

/// `s` without its trailing white space.
pub open spec fn trim_back(s: Seq<char>) -> Seq<char>
    decreases s.len(),
{
    if s.len() > 0 && is_white_space(s.last()) {
        trim_back(s.drop_last())
    } else {
        s
    }
}

/// `s` without leading and trailing white space, as `str::trim` gives it.
pub open spec fn trimmed(s: Seq<char>) -> Seq<char> {
    trim_back(trim_front(s))
}

/// The characters of `s[a..b]` without leading and trailing white space.
fn trim_range(v: &Vec<char>, a: usize, b: usize) -> (r: String)
    requires
        a <= b <= v.len(),
    ensures
        r@ == trimmed(v@.subrange(a as int, b as int)),
{
    let mut i = a;
    while i < b && white_space(v[i])
        invariant
            a <= i <= b,
            b <= v.len(),
            trim_front(v@.subrange(a as int, b as int)) == trim_front(
                v@.subrange(i as int, b as int),
            ),
        decreases b - i,
    {
        assert(v@.subrange(i as int, b as int).drop_first() =~= v@.subrange(i + 1, b as int));
        i += 1;
    }
    assert(trim_front(v@.subrange(i as int, b as int)) == v@.subrange(i as int, b as int));
    let mut j = b;
    while j > i && white_space(v[j - 1])
        invariant
            i <= j <= b,
            b <= v.len(),
            trim_back(v@.subrange(i as int, b as int)) == trim_back(
                v@.subrange(i as int, j as int),
            ),
        decreases j - i,
    {
        assert(v@.subrange(i as int, j as int).drop_last() =~= v@.subrange(i as int, j - 1));
        j -= 1;
    }
    assert(trim_back(v@.subrange(i as int, j as int)) == v@.subrange(i as int, j as int));
    string_of(v, i, j)
}

/// A decimal digit.
pub open spec fn is_digit(c: char) -> bool {
    '0' <= c && c <= '9'
}

/// The number that a run of decimal digits writes.
pub open spec fn digits_value(d: Seq<char>) -> int
    decreases d.len(),
{
    if d.len() == 0 {
        0
    } else {
        digits_value(d.drop_last()) * 10 + ((d.last() as u32) - 48)
    }
}

/// Every character is a decimal digit.
pub open spec fn all_digits(d: Seq<char>) -> bool {
    forall|i: int| 0 <= i < d.len() ==> is_digit(#[trigger] d[i])
}

/// The text after an optional leading `+`.
pub open spec fn unsigned_part(s: Seq<char>) -> Seq<char> {
    if s.len() > 0 && s[0] == '+' {
        s.drop_first()
    } else {
        s
    }
}

/// What `str::parse::<u8>` accepts: an optional `+` and then one or more
/// decimal digits whose value is at most 255; anything else is an error.
pub open spec fn parsed_u8(s: Seq<char>) -> Option<u8> {
    let d = unsigned_part(s);
    if d.len() > 0 && all_digits(d) && digits_value(d) <= 255 {
        Some(digits_value(d) as u8)
    } else {
        None
    }
}

/// The value of `s` read as a `u8`, as `str::parse::<u8>` reads it.
pub fn parse_u8(s: &str) -> (r: Option<u8>)
    ensures
        r == parsed_u8(s@),
{
    let v = chars_of(s);
    let start: usize = if v.len() > 0 && v[0] == '+' {
        1
    } else {
        0
    };
    let ghost d = v@.subrange(start as int, v@.len() as int);
    assert(d =~= unsigned_part(v@));
    if start == v.len() {
        return None;
    }
    let mut val: u32 = 0;
    let mut i = start;
    assert(v@.subrange(start as int, start as int) =~= Seq::<char>::empty());
    while i < v.len()
        invariant
            start <= i <= v.len(),
            v@ == s@,
            d == v@.subrange(start as int, v@.len() as int),
            d == unsigned_part(v@),
            forall|k: int| start <= k < i ==> is_digit(#[trigger] v@[k]),
            val == (if digits_value(v@.subrange(start as int, i as int)) < 256 {
                digits_value(v@.subrange(start as int, i as int))
            } else {
                256
            }),
            digits_value(v@.subrange(start as int, i as int)) >= 0,
        decreases v.len() - i,
    {
        let c = v[i];
        if !('0' <= c && c <= '9') {
            assert(!is_digit(d[i - start]));
            return None;
        }
        let ghost pre = v@.subrange(start as int, i as int);
        assert(v@.subrange(start as int, i + 1) =~= pre.push(c));
        assert(pre.push(c).drop_last() =~= pre);
        let dv = (c as u32) - 48;
        let next = val * 10 + dv;
        val = if next < 256 {
            next
        } else {
            256
        };
        i += 1;
    }
    assert(v@.subrange(start as int, i as int) =~= d);
    assert forall|k: int| 0 <= k < d.len() implies is_digit(#[trigger] d[k]) by {
        assert(d[k] == v@[start + k]);
    }
    if val <= 255 {
        Some(val as u8)
    } else {
        None
    }
}

/// The pieces of `s` between commas (one piece when there is none; an
/// empty text is one empty piece).
pub open spec fn split_commas(s: Seq<char>) -> Seq<Seq<char>>
    decreases s.len(),
{
    if s.len() == 0 {
        seq![Seq::<char>::empty()]
    } else {
        let r = split_commas(s.drop_last());
        if s.last() == ',' {
            r.push(Seq::<char>::empty())
        } else {
            r.update(r.len() - 1, r.last().push(s.last()))
        }
    }
}

proof fn lemma_split_nonempty(s: Seq<char>)
    ensures
        split_commas(s).len() >= 1,
    decreases s.len(),
{
    if s.len() > 0 {
        lemma_split_nonempty(s.drop_last());
    }
}

/// The number in a piece, once trimmed, if it reads as a `u8`.
pub open spec fn piece_number(p: Seq<char>) -> Seq<u8> {
    match parsed_u8(trimmed(p)) {
        Some(v) => seq![v],
        None => Seq::<u8>::empty(),
    }
}

/// The numbers of all pieces that read as a `u8`, in order.
pub open spec fn piece_numbers(pieces: Seq<Seq<char>>) -> Seq<u8>
    decreases pieces.len(),
{
    if pieces.len() == 0 {
        Seq::<u8>::empty()
    } else {
        piece_numbers(pieces.drop_last()) + piece_number(pieces.last())
    }
}

/// The byte array under `key`: the comma-separated pieces after the first
/// `"key":[` up to the next `]`, each trimmed and read as a `u8`; pieces
/// that do not read as one are skipped.
pub open spec fn spec_extract_json_array_u8(json: Seq<char>, key: Seq<char>) -> Option<Seq<u8>> {
    let pat = key_pattern(key, seq!['[']);
    match find_from(json, pat, 0) {
        None => None,
        Some(i) => {
            let start = i + pat.len();
            match find_from(json, seq![']'], start) {
                None => None,
                Some(e) => Some(piece_numbers(split_commas(json.subrange(start, e)))),
            }
        },
    }
}

fn push_piece_number(out: &mut Vec<u8>, piece: &String)
    ensures
        final(out)@ == old(out)@ + piece_number(piece@),
{
    let pv = chars_of(piece.as_str());
    let t = trim_range(&pv, 0, pv.len());
    assert(pv@.subrange(0, pv@.len() as int) =~= pv@);
    match parse_u8(t.as_str()) {
        Some(v) => {
            out.push(v);
            assert(final(out)@ =~= old(out)@ + piece_number(piece@));
        },
        None => {
            assert(final(out)@ =~= old(out)@ + piece_number(piece@));
        },
    }
}

/// The numbers of the comma-separated pieces of `s[a..b]`.
fn numbers_in(s: &Vec<char>, a: usize, b: usize) -> (r: Vec<u8>)
    requires
        a <= b <= s.len(),
    ensures
        r@ == piece_numbers(split_commas(s@.subrange(a as int, b as int))),
{
    let mut out: Vec<u8> = Vec::new();
    let mut current = String::new();
    let mut k = a;
    proof {
        assert(s@.subrange(a as int, a as int) =~= Seq::<char>::empty());
    }
    while k < b
        invariant
            a <= k <= b,
            b <= s.len(),
            split_commas(s@.subrange(a as int, k as int)).len() >= 1,
            out@ == piece_numbers(split_commas(s@.subrange(a as int, k as int)).drop_last()),
            current@ == split_commas(s@.subrange(a as int, k as int)).last(),
        decreases b - k,
    {
        let ghost prefix = s@.subrange(a as int, k as int);
        let ghost next = s@.subrange(a as int, k + 1);
        assert(next.drop_last() =~= prefix);
        assert(next.last() == s@[k as int]);
        let c = s[k];
        if c == ',' {
            push_piece_number(&mut out, &current);
            current = String::new();
            assert(split_commas(next).drop_last() =~= split_commas(prefix));
            assert(split_commas(prefix) =~= split_commas(prefix).drop_last().push(
                split_commas(prefix).last(),
            ));
        } else {
            push_char(&mut current, c);
            assert(split_commas(next).drop_last() =~= split_commas(prefix).drop_last());
        }
        k += 1;
    }
    let ghost all = split_commas(s@.subrange(a as int, b as int));
    push_piece_number(&mut out, &current);
    assert(all =~= all.drop_last().push(all.last()));
    out
}

pub fn extract_json_array_u8(json: &str, key: &str) -> (r: Option<Vec<u8>>)
    ensures
        r matches Some(v) ==> spec_extract_json_array_u8(json@, key@) == Some(v@),
        r is None ==> spec_extract_json_array_u8(json@, key@) is None,
{
    let s = chars_of(json);
    let pat = make_key_pattern(key, '[');
    match find(&s, &pat, 0) {
        None => None,
        Some(i) => {
            proof {
                lemma_find_from_found(s@, pat@, 0);
            }
            assert(matches_at(s@, pat@, i as int));
            assert(i + pat.len() <= s.len());
            let start = i + pat.len();
            let close = vec![']'];
            assert(close@ =~= seq![']']);
            match find(&s, &close, start) {
                None => None,
                Some(e) => {
                    proof {
                        lemma_find_from_found(s@, close@, start as int);
                    }
                    Some(numbers_in(&s, start, e))
                },
            }
        },
    }
}

/// Whether `p` occurs in `s`.
pub open spec fn has(s: Seq<char>, p: Seq<char>) -> bool {
    find_from(s, p, 0) is Some
}

/// Whether the text `p` occurs in `s`.
pub fn text_contains(s: &Vec<char>, p: &str) -> (r: bool)
    ensures
        r == has(s@, p@),
{
    let pv = chars_of(p);
    find(s, &pv, 0).is_some()
}

/// `s` with each two-character sequence `a b` replaced by `c`, scanning from
/// the left without overlaps.
pub open spec fn replace_pair(s: Seq<char>, a: char, b: char, c: char) -> Seq<char>
    decreases s.len(),
{
    if s.len() < 2 {
        s
    } else if s[0] == a && s[1] == b {
        seq![c] + replace_pair(s.subrange(2, s.len() as int), a, b, c)
    } else {
        seq![s[0]] + replace_pair(s.drop_first(), a, b, c)
    }
}

/// `replace_pair` over `s[i..]`, as a loop computes it.
proof fn lemma_replace_pair_step(s: Seq<char>, a: char, b: char, c: char, i: int)
    requires
        0 <= i < s.len(),
    ensures
        i + 1 < s.len() && s[i] == a && s[i + 1] == b ==> replace_pair(
            s.subrange(i, s.len() as int),
            a,
            b,
            c,
        ) == seq![c] + replace_pair(s.subrange(i + 2, s.len() as int), a, b, c),
        !(i + 1 < s.len() && s[i] == a && s[i + 1] == b) ==> replace_pair(
            s.subrange(i, s.len() as int),
            a,
            b,
            c,
        ) == seq![s[i]] + replace_pair(s.subrange(i + 1, s.len() as int), a, b, c),
{
    let t = s.subrange(i, s.len() as int);
    if t.len() < 2 {
        assert(s.subrange(i + 1, s.len() as int) =~= Seq::<char>::empty());
        assert(t =~= seq![s[i]]);
    } else {
        assert(t.subrange(2, t.len() as int) =~= s.subrange(i + 2, s.len() as int));
        assert(t.drop_first() =~= s.subrange(i + 1, s.len() as int));
    }
}

/// `s` with each `\n` turned into a line feed, then each `\r` into a
/// carriage return.
pub open spec fn spec_unescape_sdp(s: Seq<char>) -> Seq<char> {
    replace_pair(replace_pair(s, '\\', 'n', '\n'), '\\', 'r', '\r')
}

fn replace_pair_in(s: &Vec<char>, a: char, b: char, c: char) -> (r: Vec<char>)
    ensures
        r@ == replace_pair(s@, a, b, c),
{
    let mut out: Vec<char> = Vec::new();
    let mut i: usize = 0;
    assert(s@.subrange(0, s.len() as int) =~= s@);
    assert(out@ + replace_pair(s@, a, b, c) =~= replace_pair(s@, a, b, c));
    while i < s.len()
        invariant
            i <= s.len(),
            out@ + replace_pair(s@.subrange(i as int, s.len() as int), a, b, c) == replace_pair(
                s@,
                a,
                b,
                c,
            ),
        decreases s.len() - i,
    {
        proof {
            lemma_replace_pair_step(s@, a, b, c, i as int);
        }
        if i + 1 < s.len() && s[i] == a && s[i + 1] == b {
            out.push(c);
            i += 2;
        } else {
            out.push(s[i]);
            i += 1;
        }
        proof {
            assert(out@ + replace_pair(s@.subrange(i as int, s.len() as int), a, b, c) =~= replace_pair(s@, a, b, c));
        }
    }
    assert(s@.subrange(i as int, s.len() as int) =~= Seq::<char>::empty());
    assert(out@ + Seq::<char>::empty() =~= out@);
    out
}

/// An SDP text as it arrives escaped inside a JSON string, with its line
/// breaks restored.
pub fn unescape_sdp(s: &str) -> (r: String)
    ensures
        r@ == spec_unescape_sdp(s@),
{
    let v = chars_of(s);
    let once = replace_pair_in(&v, '\\', 'n', '\n');
    let twice = replace_pair_in(&once, '\\', 'r', '\r');
    string_of(&twice, 0, twice.len())
}

} // verus!
