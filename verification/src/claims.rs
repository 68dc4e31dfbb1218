//! Reading the JSON text of token claims, as this library writes it, back into
//! `TokenClaims`.
use vstd::prelude::*;
use vstd::string::*;
use crate::auth::{json_escape, json_escape_char, json_string, spec_claims_json, TokenClaims, TokenClaimsView};
use crate::numeric::{lemma_decimal_has_no_comma, law_decimal_round_trip, parse_i64, spec_i64_to_decimal, spec_parse_i64};
use crate::text::{chars_of, string_from_chars};

verus! {

/// The text `lit` stands in `t` at position `p`.
pub open spec fn occurs_at(t: Seq<char>, p: int, lit: Seq<char>) -> bool {
    0 <= p && p + lit.len() <= t.len() && t.subrange(p, p + lit.len()) == lit
}

/// The value of a lower-case hexadecimal digit.
pub open spec fn hex_value(c: char) -> Option<nat> {
    if '0' <= c && c <= '9' {
        Some((c as int - '0' as int) as nat)
    } else if 'a' <= c && c <= 'f' {
        Some((c as int - 'a' as int + 10) as nat)
    } else {
        None
    }
}

/// The character that a two-character escape `\x` stands for.
pub open spec fn short_escape(x: char) -> Option<char> {
    if x == '"' {
        Some('"')
    } else if x == '\\' {
        Some('\\')
    } else if x == 'b' {
        Some(8int as char)
    } else if x == 't' {
        Some(9int as char)
    } else if x == 'n' {
        Some(10int as char)
    } else if x == 'f' {
        Some(12int as char)
    } else if x == 'r' {
        Some(13int as char)
    } else {
        None
    }
}

/// Reads the body of a JSON string from `pos` up to its closing quote, decoding the escapes
/// `\"`, `\\`, `\b`, `\t`, `\n`, `\f`, `\r` and `\u00XX` (lower-case hex digits); `acc` is
/// what was decoded before `pos`. The result is the decoded text and the position after the
/// closing quote; `None` where the text ends first or holds another escape.
pub open spec fn read_string_body(t: Seq<char>, pos: int, acc: Seq<char>) -> Option<(Seq<char>, int)>
    decreases t.len() - pos,
{
    if pos < 0 || pos >= t.len() {
        None
    } else if t[pos] == '"' {
        Some((acc, pos + 1))
    } else if t[pos] == '\\' {
        if pos + 1 >= t.len() {
            None
        } else if t[pos + 1] == 'u' {
            if pos + 5 < t.len() && t[pos + 2] == '0' && t[pos + 3] == '0' && hex_value(t[pos + 4]) is Some
                && hex_value(t[pos + 5]) is Some {
                let code = hex_value(t[pos + 4])->0 * 16 + hex_value(t[pos + 5])->0;
                read_string_body(t, pos + 6, acc.push(code as char))
            } else {
                None
            }
        } else {
            match short_escape(t[pos + 1]) {
                Some(ch) => read_string_body(t, pos + 2, acc.push(ch)),
                None => None,
            }
        }
    } else {
        read_string_body(t, pos + 1, acc.push(t[pos]))
    }
}

/// Reads a JSON string starting at `pos` (its opening quote): the decoded text and the
/// position after its closing quote.
pub open spec fn read_json_string(t: Seq<char>, pos: int) -> Option<(Seq<char>, int)> {
    if 0 <= pos < t.len() && t[pos] == '"' {
        read_string_body(t, pos + 1, Seq::<char>::empty())
    } else {
        None
    }
}

/// The position of the first `,` at or after `pos` (the length of the text where there is
/// none).
pub open spec fn comma_from(t: Seq<char>, pos: int) -> int
    decreases t.len() - pos,
{
    if pos < 0 || pos >= t.len() || t[pos] == ',' {
        pos
    } else {
        comma_from(t, pos + 1)
    }
}

/// Reads an integer from `pos` up to the next `,`: its value and the position of the `,`.
pub open spec fn read_number(t: Seq<char>, pos: int) -> Option<(i64, int)> {
    let k = comma_from(t, pos);
    if pos < 0 || pos > t.len() || k >= t.len() {
        None
    } else {
        match spec_parse_i64(t.subrange(pos, k)) {
            Some(v) => Some((v, k)),
            None => None,
        }
    }
}

/// The pieces of text between the fields of the claims text.
pub open spec fn claims_key(i: int) -> Seq<char> {
    if i == 0 {
        "{\"exp\":"@
    } else if i == 1 {
        ",\"iat\":"@
    } else if i == 2 {
        ",\"iss\":"@
    } else if i == 3 {
        ",\"token_type\":"@
    } else if i == 4 {
        ",\"sub\":"@
    } else {
        "}"@
    }
}

/// Reads the claims text as this library writes it (`spec_claims_json`): the fields `exp`,
/// `iat`, `iss`, `token_type`, `sub` in this order, with no white space; `None` for any
/// other text.
pub open spec fn spec_parse_claims(t: Seq<char>) -> Option<TokenClaimsView> {
    if !occurs_at(t, 0, claims_key(0)) {
        None
    } else {
        match read_number(t, claims_key(0).len() as int) {
            None => None,
            Some((exp, p1)) => if !occurs_at(t, p1, claims_key(1)) {
                None
            } else {
                match read_number(t, p1 + claims_key(1).len()) {
                    None => None,
                    Some((iat, p2)) => if !occurs_at(t, p2, claims_key(2)) {
                        None
                    } else {
                        match read_json_string(t, p2 + claims_key(2).len()) {
                            None => None,
                            Some((iss, p3)) => if !occurs_at(t, p3, claims_key(3)) {
                                None
                            } else {
                                match read_json_string(t, p3 + claims_key(3).len()) {
                                    None => None,
                                    Some((token_type, p4)) => if !occurs_at(t, p4, claims_key(4)) {
                                        None
                                    } else {
                                        match read_json_string(t, p4 + claims_key(4).len()) {
                                            None => None,
                                            Some((sub, p5)) => if occurs_at(t, p5, claims_key(5)) && p5 + 1
                                                == t.len() {
                                                Some(TokenClaimsView { exp, iat, iss, token_type, sub })
                                            } else {
                                                None
                                            },
                                        }
                                    },
                                }
                            },
                        }
                    },
                }
            },
        }
    }
}

proof fn lemma_escape_concat(a: Seq<char>, b: Seq<char>)
    ensures
        json_escape(a + b) == json_escape(a) + json_escape(b),
    decreases b.len(),
{
    if b.len() == 0 {
        assert(a + b =~= a);
        assert(json_escape(a) + json_escape(b) =~= json_escape(a));
    } else {
        lemma_escape_concat(a, b.drop_last());
        assert((a + b).drop_last() =~= a + b.drop_last());
        assert((a + b).last() == b.last());
        assert(json_escape(a) + json_escape(b) =~= json_escape(a) + json_escape(b.drop_last()) + json_escape_char(
            b.last(),
        ));
    }
}

proof fn lemma_escape_first(s: Seq<char>)
    requires
        s.len() > 0,
    ensures
        json_escape(s) == json_escape_char(s[0]) + json_escape(s.drop_first()),
{
    assert(s =~= seq![s[0]] + s.drop_first());
    lemma_escape_concat(seq![s[0]], s.drop_first());
    assert(seq![s[0]].drop_last() =~= Seq::<char>::empty());
    assert(seq![s[0]].last() == s[0]);
    assert(json_escape(Seq::<char>::empty()) =~= Seq::<char>::empty());
    assert(json_escape(seq![s[0]]) =~= json_escape_char(s[0]));
}

proof fn lemma_hex_value(d: nat)
    requires
        d < 16,
    ensures
        hex_value(crate::numeric::digit_char(d)) == Some(d),
{
    assert('0' as int == 48);
    assert('9' as int == 57);
    assert('a' as int == 97);
    assert('f' as int == 102);
}

/// One escaped character is read back as that character.
proof fn lemma_read_escaped_char(t: Seq<char>, pos: int, c: char, acc: Seq<char>)
    requires
        0 <= pos,
        pos + json_escape_char(c).len() < t.len(),
        t.subrange(pos, pos + json_escape_char(c).len()) == json_escape_char(c),
    ensures
        read_string_body(t, pos, acc) == read_string_body(t, pos + json_escape_char(c).len(), acc.push(c)),
{
    let e = json_escape_char(c);
    assert(forall|j: int| 0 <= j < e.len() ==> t[pos + j] == #[trigger] e[j]) by {
        assert forall|j: int| 0 <= j < e.len() implies t[pos + j] == #[trigger] e[j] by {
            assert(t.subrange(pos, pos + e.len())[j] == t[pos + j]);
        }
    }
    assert(t[pos] == e[0]);
    if c == '"' || c == '\\' || c as int == 8 || c as int == 9 || c as int == 10 || c as int == 12 || c as int == 13 {
        assert(t[pos + 1] == e[1]);
        assert(8int as char as int == 8);
        assert(9int as char as int == 9);
        assert(10int as char as int == 10);
        assert(12int as char as int == 12);
        assert(13int as char as int == 13);
    } else if (c as int) < 32 {
        assert(t[pos + 1] == e[1]);
        assert(t[pos + 2] == e[2]);
        assert(t[pos + 3] == e[3]);
        assert(t[pos + 4] == e[4]);
        assert(t[pos + 5] == e[5]);
        lemma_hex_value((c as nat) / 16);
        lemma_hex_value((c as nat) % 16);
        let code = ((c as nat) / 16) * 16 + (c as nat) % 16;
        assert(code == c as nat);
        assert(code as char as int == code);
    }
}

/// The escaped body of a string followed by a quote is read back as the string.
proof fn lemma_read_string_body(t: Seq<char>, pos: int, s: Seq<char>, acc: Seq<char>)
    requires
        0 <= pos,
        pos + json_escape(s).len() + 1 <= t.len(),
        t.subrange(pos, pos + json_escape(s).len() + 1) == json_escape(s).push('"'),
    ensures
        read_string_body(t, pos, acc) == Some((acc + s, pos + json_escape(s).len() + 1)),
    decreases s.len(),
{
    let e = json_escape(s);
    if s.len() == 0 {
        assert(e =~= Seq::<char>::empty());
        assert(t[pos] == t.subrange(pos, pos + 1)[0]);
        assert(acc + s =~= acc);
    } else {
        lemma_escape_first(s);
        let e0 = json_escape_char(s[0]);
        let rest = s.drop_first();
        let er = json_escape(rest);
        assert(e == e0 + er);
        assert(e0.len() >= 1);
        assert(t.subrange(pos, pos + e0.len()) =~= e0) by {
            assert forall|j: int| 0 <= j < e0.len() implies t.subrange(pos, pos + e0.len())[j] == e0[j] by {
                assert(t.subrange(pos, pos + e.len() + 1)[j] == e.push('"')[j]);
            }
        }
        lemma_read_escaped_char(t, pos, s[0], acc);
        assert(t.subrange(pos + e0.len(), pos + e0.len() + er.len() + 1) =~= er.push('"')) by {
            assert forall|j: int| 0 <= j < er.len() + 1 implies t.subrange(pos + e0.len(), pos + e0.len() + er.len()
                + 1)[j] == er.push('"')[j] by {
                assert(t.subrange(pos, pos + e.len() + 1)[e0.len() + j] == e.push('"')[e0.len() + j]);
            }
        }
        lemma_read_string_body(t, pos + e0.len(), rest, acc.push(s[0]));
        assert(acc.push(s[0]) + rest =~= acc + s);
    }
}

/// A JSON string literal is read back as its text.
proof fn lemma_read_json_string(t: Seq<char>, pos: int, s: Seq<char>)
    requires
        occurs_at(t, pos, json_string(s)),
    ensures
        read_json_string(t, pos) == Some((s, pos + json_string(s).len())),
{
    let j = json_string(s);
    let e = json_escape(s);
    assert(j =~= seq!['"'] + e.push('"'));
    assert(t[pos] == t.subrange(pos, pos + j.len())[0]);
    assert(t.subrange(pos + 1, pos + 1 + e.len() + 1) =~= e.push('"')) by {
        assert forall|i: int| 0 <= i < e.len() + 1 implies t.subrange(pos + 1, pos + 1 + e.len() + 1)[i] == e.push(
            '"',
        )[i] by {
            assert(t.subrange(pos, pos + j.len())[1 + i] == j[1 + i]);
        }
    }
    lemma_read_string_body(t, pos + 1, s, Seq::<char>::empty());
    assert(Seq::<char>::empty() + s =~= s);
}

proof fn lemma_comma_from(t: Seq<char>, pos: int, k: int)
    requires
        0 <= pos <= k < t.len(),
        t[k] == ',',
        forall|j: int| pos <= j < k ==> t[j] != ',',
    ensures
        comma_from(t, pos) == k,
    decreases k - pos,
{
    if pos < k {
        lemma_comma_from(t, pos + 1, k);
    }
}

/// The decimal text of a number, followed by a `,`, is read back as the number.
proof fn lemma_read_number(t: Seq<char>, pos: int, x: i64)
    requires
        occurs_at(t, pos, spec_i64_to_decimal(x)),
        pos + spec_i64_to_decimal(x).len() < t.len(),
        t[pos + spec_i64_to_decimal(x).len()] == ',',
    ensures
        read_number(t, pos) == Some((x, pos + spec_i64_to_decimal(x).len())),
{
    let d = spec_i64_to_decimal(x);
    lemma_decimal_has_no_comma(x);
    assert forall|j: int| pos <= j < pos + d.len() implies t[j] != ',' by {
        assert(t.subrange(pos, pos + d.len())[j - pos] == d[j - pos]);
    }
    lemma_comma_from(t, pos, pos + d.len());
    law_decimal_round_trip(x);
}

proof fn lemma_occurs_split(t: Seq<char>, p: int, a: Seq<char>, b: Seq<char>)
    requires
        occurs_at(t, p, a + b),
    ensures
        occurs_at(t, p, a),
        occurs_at(t, p + a.len(), b),
{
    let w = t.subrange(p, p + a.len() + b.len());
    assert(w == a + b);
    assert forall|j: int| 0 <= j < a.len() implies t.subrange(p, p + a.len())[j] == a[j] by {
        assert(w[j] == t[p + j]);
        assert((a + b)[j] == a[j]);
    }
    assert(t.subrange(p, p + a.len()) =~= a);
    assert forall|j: int| 0 <= j < b.len() implies t.subrange(p + a.len(), p + a.len() + b.len())[j] == b[j] by {
        assert(w[a.len() + j] == t[p + a.len() + j]);
        assert((a + b)[a.len() + j] == b[j]);
    }
    assert(t.subrange(p + a.len(), p + a.len() + b.len()) =~= b);
}

proof fn lemma_occurs_first(t: Seq<char>, p: int, lit: Seq<char>)
    requires
        occurs_at(t, p, lit),
        lit.len() > 0,
    ensures
        t[p] == lit[0],
{
    assert(t.subrange(p, p + lit.len())[0] == t[p]);
}

/// Where the pieces of the claims text stand in it.
proof fn lemma_claims_layout(c: TokenClaimsView)
    ensures
        ({
            let t = spec_claims_json(c);
            let d1 = spec_i64_to_decimal(c.exp);
            let d2 = spec_i64_to_decimal(c.iat);
            let s1 = json_string(c.iss);
            let s2 = json_string(c.token_type);
            let s3 = json_string(c.sub);
            let p1 = claims_key(0).len() as int + d1.len();
            let p2 = p1 + claims_key(1).len() + d2.len();
            let p3 = p2 + claims_key(2).len() + s1.len();
            let p4 = p3 + claims_key(3).len() + s2.len();
            let p5 = p4 + claims_key(4).len() + s3.len();
            &&& occurs_at(t, 0, claims_key(0))
            &&& occurs_at(t, claims_key(0).len() as int, d1)
            &&& occurs_at(t, p1, claims_key(1))
            &&& occurs_at(t, p1 + claims_key(1).len(), d2)
            &&& occurs_at(t, p2, claims_key(2))
            &&& occurs_at(t, p2 + claims_key(2).len(), s1)
            &&& occurs_at(t, p3, claims_key(3))
            &&& occurs_at(t, p3 + claims_key(3).len(), s2)
            &&& occurs_at(t, p4, claims_key(4))
            &&& occurs_at(t, p4 + claims_key(4).len(), s3)
            &&& occurs_at(t, p5, claims_key(5))
            &&& p5 + claims_key(5).len() == t.len()
        }),
{
    let t = spec_claims_json(c);
    let l1 = claims_key(0) + spec_i64_to_decimal(c.exp);
    let l2 = l1 + claims_key(1);
    let l3 = l2 + spec_i64_to_decimal(c.iat);
    let l4 = l3 + claims_key(2);
    let l5 = l4 + json_string(c.iss);
    let l6 = l5 + claims_key(3);
    let l7 = l6 + json_string(c.token_type);
    let l8 = l7 + claims_key(4);
    let l9 = l8 + json_string(c.sub);
    assert(t == l9 + claims_key(5));
    assert(occurs_at(t, 0, l9 + claims_key(5))) by {
        assert(t.subrange(0, t.len() as int) =~= t);
    }
    lemma_occurs_split(t, 0, l9, claims_key(5));
    lemma_occurs_split(t, 0, l8, json_string(c.sub));
    lemma_occurs_split(t, 0, l7, claims_key(4));
    lemma_occurs_split(t, 0, l6, json_string(c.token_type));
    lemma_occurs_split(t, 0, l5, claims_key(3));
    lemma_occurs_split(t, 0, l4, json_string(c.iss));
    lemma_occurs_split(t, 0, l3, claims_key(2));
    lemma_occurs_split(t, 0, l2, spec_i64_to_decimal(c.iat));
    lemma_occurs_split(t, 0, l1, claims_key(1));
    lemma_occurs_split(t, 0, claims_key(0), spec_i64_to_decimal(c.exp));
}

/// Claims text written by this library is read back as the same claims.
pub proof fn law_claims_text_round_trip(c: TokenClaimsView)
    ensures
        spec_parse_claims(spec_claims_json(c)) == Some(c),
{
    let t = spec_claims_json(c);
    let d1 = spec_i64_to_decimal(c.exp);
    let d2 = spec_i64_to_decimal(c.iat);
    let s1 = json_string(c.iss);
    let s2 = json_string(c.token_type);
    let s3 = json_string(c.sub);
    let p1 = claims_key(0).len() as int + d1.len();
    let p2 = p1 + claims_key(1).len() + d2.len();
    let p3 = p2 + claims_key(2).len() + s1.len();
    let p4 = p3 + claims_key(3).len() + s2.len();
    let p5 = p4 + claims_key(4).len() + s3.len();
    reveal_strlit(",\"iat\":");
    reveal_strlit(",\"iss\":");
    reveal_strlit("}");
    lemma_claims_layout(c);
    lemma_occurs_first(t, p1, claims_key(1));
    lemma_read_number(t, claims_key(0).len() as int, c.exp);
    lemma_occurs_first(t, p2, claims_key(2));
    lemma_read_number(t, p1 + claims_key(1).len(), c.iat);
    lemma_read_json_string(t, p2 + claims_key(2).len(), c.iss);
    lemma_read_json_string(t, p3 + claims_key(3).len(), c.token_type);
    lemma_read_json_string(t, p4 + claims_key(4).len(), c.sub);
}

/// Claims are determined by their text: two claims with the same JSON text are the same.
pub proof fn law_claims_text_determines_claims(a: TokenClaimsView, b: TokenClaimsView)
    requires
        spec_claims_json(a) == spec_claims_json(b),
    ensures
        a == b,
{
    law_claims_text_round_trip(a);
    law_claims_text_round_trip(b);
}

/// Whether the text `lit` stands in `cs` at position `p`.
fn literal_at(cs: &Vec<char>, p: usize, lit: &str) -> (r: bool)
    ensures
        r == occurs_at(cs@, p as int, lit@),
{
    let lc = chars_of(lit);
    if lc.len() > cs.len() || p > cs.len() - lc.len() {
        return false;
    }
    let mut i: usize = 0;
    while i < lc.len()
        invariant
            i <= lc.len(),
            lc@ == lit@,
            p + lc.len() <= cs.len(),
            forall|j: int| 0 <= j < i ==> cs@[p + j] == lc@[j],
        decreases lc.len() - i,
    {
        if cs[p + i] != lc[i] {
            assert(cs@.subrange(p as int, p + lc.len())[i as int] != lit@[i as int]);
            return false;
        }
        i = i + 1;
    }
    assert(cs@.subrange(p as int, p + lc.len()) =~= lit@);
    true
}

/// The characters of `cs` from `a` up to (not including) `b`.
fn chars_between(cs: &Vec<char>, a: usize, b: usize) -> (r: Vec<char>)
    requires
        a <= b <= cs.len(),
    ensures
        r@ == cs@.subrange(a as int, b as int),
{
    let mut r: Vec<char> = Vec::new();
    let mut i: usize = a;
    while i < b
        invariant
            a <= i <= b,
            b <= cs.len(),
            r@ == cs@.subrange(a as int, i as int),
        decreases b - i,
    {
        r.push(cs[i]);
        assert(cs@.subrange(a as int, i + 1) =~= cs@.subrange(a as int, i as int).push(cs@[i as int]));
        i = i + 1;
    }
    r
}

/// Reads an integer from `pos` up to the next `,` (see `read_number`).
fn read_number_at(cs: &Vec<char>, pos: usize) -> (r: Option<(i64, usize)>)
    ensures
        match r {
            Some((v, k)) => read_number(cs@, pos as int) == Some((v, k as int)),
            None => read_number(cs@, pos as int) is None,
        },
{
    if pos > cs.len() {
        return None;
    }
    let mut k: usize = pos;
    while k < cs.len() && cs[k] != ','
        invariant
            pos <= k <= cs.len(),
            comma_from(cs@, k as int) == comma_from(cs@, pos as int),
        decreases cs.len() - k,
    {
        k = k + 1;
    }
    if k >= cs.len() {
        return None;
    }
    let piece = chars_between(cs, pos, k);
    let text = string_from_chars(&piece);
    match parse_i64(text.as_str()) {
        Some(v) => Some((v, k)),
        None => None,
    }
}

/// The value of a lower-case hexadecimal digit (see `hex_value`).
fn hex_digit_value(c: char) -> (r: Option<u32>)
    ensures
        match r {
            Some(v) => hex_value(c) == Some(v as nat) && v < 16,
            None => hex_value(c) is None,
        },
{
    if '0' <= c && c <= '9' {
        Some(c as u32 - '0' as u32)
    } else if 'a' <= c && c <= 'f' {
        Some(c as u32 - 'a' as u32 + 10)
    } else {
        None
    }
}

/// The character a two-character escape stands for (see `short_escape`).
fn short_escape_of(x: char) -> (r: Option<char>)
    ensures
        r == short_escape(x),
{
    if x == '"' {
        Some('"')
    } else if x == '\\' {
        Some('\\')
    } else if x == 'b' {
        Some(8u8 as char)
    } else if x == 't' {
        Some(9u8 as char)
    } else if x == 'n' {
        Some(10u8 as char)
    } else if x == 'f' {
        Some(12u8 as char)
    } else if x == 'r' {
        Some(13u8 as char)
    } else {
        None
    }
}

/// Reads a JSON string starting at `pos`, its opening quote (see `read_json_string`).
fn read_json_string_at(cs: &Vec<char>, pos: usize) -> (r: Option<(String, usize)>)
    ensures
        match r {
            Some((v, k)) => read_json_string(cs@, pos as int) == Some((v@, k as int)),
            None => read_json_string(cs@, pos as int) is None,
        },
{
    if pos >= cs.len() || cs[pos] != '"' {
        return None;
    }
    let start: usize = pos + 1;
    let mut at: usize = start;
    let mut out: Vec<char> = Vec::new();
    loop
        invariant
            start <= at <= cs.len(),
            start == pos + 1,
            pos < cs.len(),
            cs@[pos as int] == '"',
            read_string_body(cs@, at as int, out@) == read_string_body(cs@, start as int, Seq::<char>::empty()),
        decreases cs.len() - at,
    {
        if at >= cs.len() {
            return None;
        }
        let c = cs[at];
        if c == '"' {
            return Some((string_from_chars(&out), at + 1));
        }
        if c == '\\' {
            if at + 1 >= cs.len() {
                return None;
            }
            let x = cs[at + 1];
            if x == 'u' {
                if cs.len() - at > 5 && cs[at + 2] == '0' && cs[at + 3] == '0' {
                    let high = hex_digit_value(cs[at + 4]);
                    let low = hex_digit_value(cs[at + 5]);
                    match (high, low) {
                        (Some(h), Some(l)) => {
                            let code: u8 = (h * 16 + l) as u8;
                            out.push(code as char);
                            at = at + 6;
                        },
                        _ => {
                            return None;
                        },
                    }
                } else {
                    return None;
                }
            } else {
                match short_escape_of(x) {
                    Some(ch) => {
                        out.push(ch);
                        at = at + 2;
                    },
                    None => {
                        return None;
                    },
                }
            }
        } else {
            out.push(c);
            at = at + 1;
        }
    }
}

/// Reads the JSON text of claims as this library writes it back into `TokenClaims` (see
/// `spec_parse_claims`); `None` for any other text.
pub fn parse_claims_json(text: &str) -> (r: Option<TokenClaims>)
    ensures
        match r {
            Some(c) => spec_parse_claims(text@) == Some(c@),
            None => spec_parse_claims(text@) is None,
        },
{
    let cs = chars_of(text);
    let k0 = "{\"exp\":";
    let k1 = ",\"iat\":";
    let k2 = ",\"iss\":";
    let k3 = ",\"token_type\":";
    let k4 = ",\"sub\":";
    let k5 = "}";
    if !literal_at(&cs, 0, k0) {
        return None;
    }
    let (exp, p1) = match read_number_at(&cs, k0.unicode_len()) {
        Some(x) => x,
        None => {
            return None;
        },
    };
    if !literal_at(&cs, p1, k1) {
        return None;
    }
    let (iat, p2) = match read_number_at(&cs, p1 + k1.unicode_len()) {
        Some(x) => x,
        None => {
            return None;
        },
    };
    if !literal_at(&cs, p2, k2) {
        return None;
    }
    let (iss, p3) = match read_json_string_at(&cs, p2 + k2.unicode_len()) {
        Some(x) => x,
        None => {
            return None;
        },
    };
    if !literal_at(&cs, p3, k3) {
        return None;
    }
    let (token_type, p4) = match read_json_string_at(&cs, p3 + k3.unicode_len()) {
        Some(x) => x,
        None => {
            return None;
        },
    };
    if !literal_at(&cs, p4, k4) {
        return None;
    }
    let (sub, p5) = match read_json_string_at(&cs, p4 + k4.unicode_len()) {
        Some(x) => x,
        None => {
            return None;
        },
    };
    proof {
        reveal_strlit("}");
    }
    if !literal_at(&cs, p5, k5) {
        return None;
    }
    if p5 + 1 != cs.len() {
        return None;
    }
    Some(TokenClaims { exp, iat, iss, token_type, sub })
}

} // verus!
