use vstd::prelude::*;

verus! {

use crate::ascii::{ascii_bytes, compare_bytes, str_bytes};
use crate::decimal::{all_digits, dec_val, format_u128, is_digit, parse_u128, spec_dec};
use crate::hex_id::spec_id_hex;

/// The strict JSON subset the protocol speaks: one object per body, fields in
/// canonical order, no whitespace, string values with the escapes
/// `\" \\ \/ \n \r \t`, numbers as plain unsigned decimals.

/// What an escape code denotes.
pub open spec fn spec_unescape(b: u8) -> Option<u8> {
    if b == 110 {
        Some(10u8)
    } else if b == 114 {
        Some(13u8)
    } else if b == 116 {
        Some(9u8)
    } else if b == 34 {
        Some(34u8)
    } else if b == 92 {
        Some(92u8)
    } else if b == 47 {
        Some(47u8)
    } else {
        None
    }
}

/// How a byte is written inside a string value: quote, backslash and the
/// three known control characters are escaped, everything else stands as
/// itself.
pub open spec fn spec_escape_byte(b: u8) -> Seq<u8> {
    if b == 34 {
        seq![92u8, 34u8]
    } else if b == 92 {
        seq![92u8, 92u8]
    } else if b == 10 {
        seq![92u8, 110u8]
    } else if b == 13 {
        seq![92u8, 114u8]
    } else if b == 9 {
        seq![92u8, 116u8]
    } else {
        seq![b]
    }
}

/// The escaped form of `s` from index `i` on.
pub open spec fn spec_escape_from(s: Seq<u8>, i: int) -> Seq<u8>
    decreases s.len() - i,
{
    if i < 0 || i >= s.len() {
        Seq::empty()
    } else {
        spec_escape_byte(s[i]) + spec_escape_from(s, i + 1)
    }
}

/// The escaped form of a whole string value.
pub open spec fn spec_escape(s: Seq<u8>) -> Seq<u8> {
    spec_escape_from(s, 0)
}

/// Bytes a string value may carry: tab, newline, carriage return, and every
/// byte from space up.
pub open spec fn str_ok(s: Seq<u8>) -> bool {
    forall|i: int| 0 <= i < s.len() ==> (#[trigger] s[i] == 9 || s[i] == 10 || s[i] == 13 || s[i] >= 32)
}

/// Parse a string value from just past its opening quote: the decoded bytes
/// and the index just past the closing quote.
pub open spec fn spec_parse_string_body(s: Seq<u8>, i: int) -> Option<(Seq<u8>, int)>
    decreases s.len() - i,
    when i >= 0
{
    if i >= s.len() {
        None
    } else if s[i] == 34 {
        Some((Seq::empty(), i + 1))
    } else if s[i] == 92 {
        if i + 1 < s.len() {
            match spec_unescape(s[i + 1]) {
                None => None,
                Some(c) => match spec_parse_string_body(s, i + 2) {
                    None => None,
                    Some((rest, j)) => Some((seq![c] + rest, j)),
                },
            }
        } else {
            None
        }
    } else if s[i] < 32 {
        None
    } else {
        match spec_parse_string_body(s, i + 1) {
            None => None,
            Some((rest, j)) => Some((seq![s[i]] + rest, j)),
        }
    }
}

/// Where the run of decimal digits starting at `i` ends.
pub open spec fn spec_digits_end(s: Seq<u8>, i: int) -> int
    decreases s.len() - i,
    when i >= 0
{
    if i < s.len() && is_digit(s[i]) {
        spec_digits_end(s, i + 1)
    } else {
        i
    }
}

/// Parse an unsigned decimal number at `i`: its value and the index just past
/// its digits; `None` when no digit stands at `i` or the value overflows.
pub open spec fn spec_parse_number(s: Seq<u8>, i: int) -> Option<(u128, int)> {
    let j = spec_digits_end(s, i);
    if j == i || dec_val(s.subrange(i, j)) > u128::MAX {
        None
    } else {
        Some((dec_val(s.subrange(i, j)) as u128, j))
    }
}

/// The serialized unlock request body `{"id":"...","nonce":N}`.
pub open spec fn spec_unlock_body(id: Seq<u8>, nonce: u128) -> Seq<u8> {
    ascii_bytes("{\"id\":\""@) + spec_escape(id) + ascii_bytes("\",\"nonce\":"@) + spec_dec(
        nonce as int,
    ) + ascii_bytes("}"@)
}

/// What an unlock request body denotes, if well-formed.
pub open spec fn spec_parse_unlock_body(s: Seq<u8>) -> Option<(Seq<u8>, u128)> {
    if s.len() < 7 || s.subrange(0, 7) != ascii_bytes("{\"id\":\""@) {
        None
    } else {
        match spec_parse_string_body(s, 7) {
            None => None,
            Some((id, j)) => {
                if j + 9 <= s.len() && s.subrange(j, j + 9) == ascii_bytes(",\"nonce\":"@) {
                    match spec_parse_number(s, j + 9) {
                        None => None,
                        Some((n, k)) => {
                            if k + 1 == s.len() && s[k] == 125 {
                                Some((id, n))
                            } else {
                                None
                            }
                        },
                    }
                } else {
                    None
                }
            },
        }
    }
}

/// The serialized enrollment request body `{"code":C,"pubkey_pem":"..."}`.
pub open spec fn spec_enroll_body(code: u32, pem: Seq<u8>) -> Seq<u8> {
    ascii_bytes("{\"code\":"@) + spec_dec(code as int) + ascii_bytes(",\"pubkey_pem\":\""@)
        + spec_escape(pem) + ascii_bytes("\"}"@)
}

/// What an enrollment request body denotes, if well-formed.
pub open spec fn spec_parse_enroll_body(s: Seq<u8>) -> Option<(u32, Seq<u8>)> {
    if s.len() < 8 || s.subrange(0, 8) != ascii_bytes("{\"code\":"@) {
        None
    } else {
        match spec_parse_number(s, 8) {
            None => None,
            Some((c, j)) => {
                if c <= u32::MAX && j + 15 <= s.len() && s.subrange(j, j + 15) == ascii_bytes(
                    ",\"pubkey_pem\":\""@,
                ) {
                    match spec_parse_string_body(s, j + 15) {
                        None => None,
                        Some((pem, k)) => {
                            if k + 1 == s.len() && s[k] == 125 {
                                Some((c as u32, pem))
                            } else {
                                None
                            }
                        },
                    }
                } else {
                    None
                }
            },
        }
    }
}

/// The enrollment code announcement `{"code":C,"expires":E}`.
pub open spec fn spec_code_expires_body(code: u32, expires: i64) -> Seq<u8> {
    ascii_bytes("{\"code\":"@) + spec_dec(code as int) + ascii_bytes(",\"expires\":"@) + spec_dec(
        expires as int,
    ) + ascii_bytes("}"@)
}

/// The enrollment completion body `{"id":"<32 hex>"}`.
pub open spec fn spec_id_body(id: u128) -> Seq<u8> {
    ascii_bytes("{\"id\":\""@) + spec_id_hex(id) + ascii_bytes("\"}"@)
}

/// Escape a string value for embedding.
pub fn escape_bytes(s: &[u8]) -> (r: Vec<u8>)
    ensures
        r@ == spec_escape(s@),
{
    let mut out: Vec<u8> = Vec::new();
    let mut i: usize = 0;
    #[verifier::loop_isolation(false)]
    while i < s.len()
        invariant
            0 <= i <= s@.len(),
            out@ + spec_escape_from(s@, i as int) == spec_escape_from(s@, 0),
        decreases s@.len() - i,
    {
        let b = s[i];
        let ghost before = out@;
        if b == 34 {
            out.push(92);
            out.push(34);
        } else if b == 92 {
            out.push(92);
            out.push(92);
        } else if b == 10 {
            out.push(92);
            out.push(110);
        } else if b == 13 {
            out.push(92);
            out.push(114);
        } else if b == 9 {
            out.push(92);
            out.push(116);
        } else {
            out.push(b);
        }
        proof {
            assert(out@ =~= before + spec_escape_byte(s@[i as int]));
            assert(out@ + spec_escape_from(s@, i + 1) =~= spec_escape_from(s@, 0));
        }
        i += 1;
    }
    proof {
        assert(out@ =~= spec_escape(s@));
    }
    out
}

/// Parse a string value from just past its opening quote.
pub fn parse_string_body(s: &[u8], i: usize) -> (r: Option<(Vec<u8>, usize)>)
    requires
        i <= s@.len(),
    ensures
        r matches Some((v, j)) ==> spec_parse_string_body(s@, i as int) == Some((v@, j as int))
            && i < j <= s@.len(),
        r is None ==> spec_parse_string_body(s@, i as int) is None,
    decreases s@.len() - i,
{
    if i >= s.len() {
        return None;
    }
    let b = s[i];
    if b == 34 {
        return Some((Vec::new(), i + 1));
    }
    if b == 92 {
        if i + 1 < s.len() {
            let e = s[i + 1];
            let c: u8 = if e == 110 {
                10
            } else if e == 114 {
                13
            } else if e == 116 {
                9
            } else if e == 34 {
                34
            } else if e == 92 {
                92
            } else if e == 47 {
                47
            } else {
                return None;
            };
            match parse_string_body(s, i + 2) {
                None => None,
                Some((rest, j)) => {
                    let mut v: Vec<u8> = Vec::new();
                    v.push(c);
                    v.extend_from_slice(rest.as_slice());
                    proof {
                        assert(v@ =~= seq![c] + rest@);
                    }
                    Some((v, j))
                },
            }
        } else {
            None
        }
    } else if b < 32 {
        None
    } else {
        match parse_string_body(s, i + 1) {
            None => None,
            Some((rest, j)) => {
                let mut v: Vec<u8> = Vec::new();
                v.push(b);
                v.extend_from_slice(rest.as_slice());
                proof {
                    assert(v@ =~= seq![b] + rest@);
                }
                Some((v, j))
            },
        }
    }
}

fn digits_end(s: &[u8], start: usize) -> (r: usize)
    requires
        start <= s@.len(),
    ensures
        r == spec_digits_end(s@, start as int),
        start <= r <= s@.len(),
    {
    let mut i = start;
    while i < s.len() && 48 <= s[i] && s[i] <= 57
        invariant
            start <= i <= s@.len(),
            spec_digits_end(s@, start as int) == spec_digits_end(s@, i as int),
        decreases s@.len() - i,
    {
        i += 1;
    }
    i
}

/// Every byte in the digit run is a digit.
proof fn lemma_digits_end_all_digits(s: Seq<u8>, i: int)
    requires
        0 <= i <= s.len(),
    ensures
        i <= spec_digits_end(s, i) <= s.len(),
        all_digits(s.subrange(i, spec_digits_end(s, i))),
    decreases s.len() - i,
{
    let j = spec_digits_end(s, i);
    if i < s.len() && is_digit(s[i]) {
        lemma_digits_end_all_digits(s, i + 1);
        let sub = s.subrange(i, j);
        let sub2 = s.subrange(i + 1, j);
        assert forall|k: int| 0 <= k < sub.len() implies is_digit(#[trigger] sub[k]) by {
            if k == 0 {
                assert(sub[0] == s[i]);
            } else {
                assert(sub[k] == sub2[k - 1]);
                assert(is_digit(sub2[k - 1]));
            }
        }
    } else {
        assert(s.subrange(i, j) =~= Seq::<u8>::empty());
    }
}

/// Parse an unsigned decimal number at `start`.
pub fn parse_number_at(s: &[u8], start: usize) -> (r: Option<(u128, usize)>)
    requires
        start <= s@.len(),
    ensures
        r matches Some((v, j)) ==> spec_parse_number(s@, start as int) == Some((v, j as int))
            && start < j <= s@.len(),
        r is None ==> spec_parse_number(s@, start as int) is None,
{
    let j = digits_end(s, start);
    if j == start {
        return None;
    }
    proof {
        lemma_digits_end_all_digits(s@, start as int);
    }
    match parse_u128(&s[start..j]) {
        Some(v) => Some((v, j)),
        None => None,
    }
}

/// Write the unlock request body `{"id":"...","nonce":N}`.
pub fn unlock_body_bytes(id: &[u8], nonce: u128) -> (r: Vec<u8>)
    ensures
        r@ == spec_unlock_body(id@, nonce),
{
    proof {
        reveal_strlit("{\"id\":\"");
        reveal_strlit("\",\"nonce\":");
        reveal_strlit("}");
        assert(vstd::string::is_ascii("{\"id\":\""));
        assert(vstd::string::is_ascii("\",\"nonce\":"));
        assert(vstd::string::is_ascii("}"));
    }
    let mut out: Vec<u8> = Vec::new();
    out.extend_from_slice(str_bytes("{\"id\":\""));
    let esc = escape_bytes(id);
    out.extend_from_slice(esc.as_slice());
    out.extend_from_slice(str_bytes("\",\"nonce\":"));
    let dec = format_u128(nonce);
    out.extend_from_slice(dec.as_slice());
    out.extend_from_slice(str_bytes("}"));
    proof {
        assert(out@ =~= spec_unlock_body(id@, nonce));
    }
    out
}

/// Write the enrollment request body `{"code":C,"pubkey_pem":"..."}`.
pub fn enroll_body_bytes(code: u32, pem: &[u8]) -> (r: Vec<u8>)
    ensures
        r@ == spec_enroll_body(code, pem@),
{
    proof {
        reveal_strlit("{\"code\":");
        reveal_strlit(",\"pubkey_pem\":\"");
        reveal_strlit("\"}");
        assert(vstd::string::is_ascii("{\"code\":"));
        assert(vstd::string::is_ascii(",\"pubkey_pem\":\""));
        assert(vstd::string::is_ascii("\"}"));
    }
    let mut out: Vec<u8> = Vec::new();
    out.extend_from_slice(str_bytes("{\"code\":"));
    let dec = format_u128(code as u128);
    out.extend_from_slice(dec.as_slice());
    out.extend_from_slice(str_bytes(",\"pubkey_pem\":\""));
    let esc = escape_bytes(pem);
    out.extend_from_slice(esc.as_slice());
    out.extend_from_slice(str_bytes("\"}"));
    proof {
        assert(out@ =~= spec_enroll_body(code, pem@));
    }
    out
}

/// Write the code announcement body `{"code":C,"expires":E}`.
pub fn code_expires_body_bytes(code: u32, expires: i64) -> (r: Vec<u8>)
    requires
        expires >= 0,
    ensures
        r@ == spec_code_expires_body(code, expires),
        r@.len() <= 98,
{
    proof {
        crate::decimal::lemma_u128_dec_len(code as u128);
        crate::decimal::lemma_u128_dec_len(expires as u128);
    }
    proof {
        reveal_strlit("{\"code\":");
        reveal_strlit(",\"expires\":");
        reveal_strlit("}");
        assert(vstd::string::is_ascii("{\"code\":"));
        assert(vstd::string::is_ascii(",\"expires\":"));
        assert(vstd::string::is_ascii("}"));
    }
    let mut out: Vec<u8> = Vec::new();
    out.extend_from_slice(str_bytes("{\"code\":"));
    let dec = format_u128(code as u128);
    out.extend_from_slice(dec.as_slice());
    out.extend_from_slice(str_bytes(",\"expires\":"));
    let dec2 = format_u128(expires as u128);
    out.extend_from_slice(dec2.as_slice());
    out.extend_from_slice(str_bytes("}"));
    proof {
        assert(out@ =~= spec_code_expires_body(code, expires));
    }
    out
}

/// Write the enrollment completion body `{"id":"<32 hex>"}`.
pub fn id_body_bytes(id: u128) -> (r: Vec<u8>)
    ensures
        r@ == spec_id_body(id),
        r@.len() == 41,
{
    proof {
        reveal_strlit("{\"id\":\"");
        reveal_strlit("\"}");
        assert(vstd::string::is_ascii("{\"id\":\""));
        assert(vstd::string::is_ascii("\"}"));
    }
    let mut out: Vec<u8> = Vec::new();
    out.extend_from_slice(str_bytes("{\"id\":\""));
    let hex = crate::hex_id::id_to_hex(id);
    out.extend_from_slice(hex.as_slice());
    out.extend_from_slice(str_bytes("\"}"));
    proof {
        assert(out@ =~= spec_id_body(id));
    }
    out
}

/// Read an unlock request body, byte-exact to [`spec_parse_unlock_body`].
pub fn parse_unlock_body(s: &[u8]) -> (r: Option<(Vec<u8>, u128)>)
    ensures
        r matches Some((id, n)) ==> spec_parse_unlock_body(s@) == Some((id@, n)),
        r is None ==> spec_parse_unlock_body(s@) is None,
{
    proof {
        reveal_strlit("{\"id\":\"");
        reveal_strlit(",\"nonce\":");
        assert(vstd::string::is_ascii("{\"id\":\""));
        assert(vstd::string::is_ascii(",\"nonce\":"));
    }
    if s.len() < 7 || !compare_bytes(&s[0..7], str_bytes("{\"id\":\"")) {
        return None;
    }
    let (id, j) = match parse_string_body(s, 7) {
        Some(p) => p,
        None => {
            return None;
        },
    };
    if s.len() - j < 9 || !compare_bytes(&s[j..j + 9], str_bytes(",\"nonce\":")) {
        return None;
    }
    let (n, k) = match parse_number_at(s, j + 9) {
        Some(p) => p,
        None => {
            return None;
        },
    };
    if s.len() - k == 1 && s[k] == 125 {
        Some((id, n))
    } else {
        None
    }
}

/// Read an enrollment request body, byte-exact to
/// [`spec_parse_enroll_body`].
pub fn parse_enroll_body(s: &[u8]) -> (r: Option<(u32, Vec<u8>)>)
    ensures
        r matches Some((c, pem)) ==> spec_parse_enroll_body(s@) == Some((c, pem@)),
        r is None ==> spec_parse_enroll_body(s@) is None,
{
    proof {
        reveal_strlit("{\"code\":");
        reveal_strlit(",\"pubkey_pem\":\"");
        assert(vstd::string::is_ascii("{\"code\":"));
        assert(vstd::string::is_ascii(",\"pubkey_pem\":\""));
    }
    if s.len() < 8 || !compare_bytes(&s[0..8], str_bytes("{\"code\":")) {
        return None;
    }
    let (c, j) = match parse_number_at(s, 8) {
        Some(p) => p,
        None => {
            return None;
        },
    };
    if c > u32::MAX as u128 {
        return None;
    }
    if s.len() - j < 15 || !compare_bytes(&s[j..j + 15], str_bytes(",\"pubkey_pem\":\"")) {
        return None;
    }
    let (pem, k) = match parse_string_body(s, j + 15) {
        Some(p) => p,
        None => {
            return None;
        },
    };
    if s.len() - k == 1 && s[k] == 125 {
        Some((c as u32, pem))
    } else {
        None
    }
}


/// Two byte sequences that agree from `i` and `j` on escape identically from
/// there on.
proof fn lemma_escape_from_align(s: Seq<u8>, t: Seq<u8>, i: int, j: int)
    requires
        0 <= i <= s.len(),
        0 <= j <= t.len(),
        s.len() - i == t.len() - j,
        forall|k: int| 0 <= k < s.len() - i ==> #[trigger] s[i + k] == t[j + k],
    ensures
        spec_escape_from(s, i) == spec_escape_from(t, j),
    decreases s.len() - i,
{
    if i < s.len() {
        assert(s[i + 0] == t[j + 0]);
        assert forall|k: int| 0 <= k < s.len() - (i + 1) implies #[trigger] s[i + 1 + k] == t[j
            + 1 + k] by {
            assert(s[i + (k + 1)] == t[j + (k + 1)]);
        }
        lemma_escape_from_align(s, t, i + 1, j + 1);
    }
}

/// The escaped form starts with the first byte's escape.
proof fn lemma_escape_unfold(s: Seq<u8>)
    requires
        s.len() > 0,
    ensures
        spec_escape(s) == spec_escape_byte(s[0]) + spec_escape(s.subrange(1, s.len() as int)),
{
    let tail = s.subrange(1, s.len() as int);
    lemma_escape_from_align(s, tail, 1, 0);
}

/// Parsing inverts escaping: a string value written with the subset's escapes
/// and closed with a quote reads back exactly, the scan ending just past the
/// quote.
proof fn lemma_parse_escaped_string(full: Seq<u8>, i: int, s: Seq<u8>)
    requires
        0 <= i,
        str_ok(s),
        i + spec_escape(s).len() + 1 <= full.len(),
        full.subrange(i, i + spec_escape(s).len()) == spec_escape(s),
        full[i + spec_escape(s).len()] == 34,
    ensures
        spec_parse_string_body(full, i) == Some((s, i + spec_escape(s).len() + 1)),
    decreases s.len(),
{
    let esc = spec_escape(s);
    assert(forall|m: int| 0 <= m < esc.len() ==> full[i + m] == #[trigger] esc[m]) by {
        assert(forall|m: int|
            0 <= m < esc.len() ==> full.subrange(i, i + esc.len())[m] == #[trigger] esc[m]);
    }
    if s.len() == 0 {
        assert(full[i] == 34);
    } else {
        let b = s[0];
        let tail = s.subrange(1, s.len() as int);
        let ebl = spec_escape_byte(b);
        let etail = spec_escape(tail);
        lemma_escape_unfold(s);
        assert(esc == ebl + etail);
        assert(forall|m: int| 0 <= m < ebl.len() ==> esc[m] == #[trigger] ebl[m]);
        assert(forall|m: int|
            0 <= m < etail.len() ==> esc[ebl.len() + m] == #[trigger] etail[m]);
        let i2 = i + ebl.len();
        assert(full.subrange(i2, i2 + etail.len()) =~= etail);
        assert(full[i2 + etail.len()] == 34);
        assert(str_ok(tail));
        lemma_parse_escaped_string(full, i2, tail);
        assert(spec_parse_string_body(full, i2) == Some((tail, i + esc.len() + 1)));
        if b == 34 || b == 92 || b == 10 || b == 13 || b == 9 {
            assert(esc[0] == ebl[0] && esc[1] == ebl[1]);
            assert(full[i + 0] == esc[0] && full[i + 1] == esc[1]);
            assert(full[i] == 92);
            assert(spec_unescape(ebl[1]) == Some(b));
            assert(spec_parse_string_body(full, i) == Some((seq![b] + tail, i + esc.len() + 1)));
        } else {
            assert(esc[0] == ebl[0]);
            assert(full[i + 0] == esc[0]);
            assert(full[i] == b);
            assert(b >= 32);
            assert(b != 34 && b != 92);
            assert(spec_parse_string_body(full, i) == Some((seq![b] + tail, i + esc.len() + 1)));
        }
        assert(seq![b] + tail =~= s);
    }
}

/// A run of digits followed by a non-digit (or the end) scans to exactly its
/// own length.
proof fn lemma_digits_end_run(s: Seq<u8>, i: int, d: Seq<u8>)
    requires
        0 <= i,
        all_digits(d),
        i + d.len() <= s.len(),
        s.subrange(i, i + d.len()) == d,
        i + d.len() == s.len() || !is_digit(s[i + d.len()]),
    ensures
        spec_digits_end(s, i) == i + d.len(),
    decreases d.len(),
{
    assert(forall|m: int| 0 <= m < d.len() ==> s[i + m] == #[trigger] d[m]) by {
        assert(forall|m: int|
            0 <= m < d.len() ==> s.subrange(i, i + d.len())[m] == #[trigger] d[m]);
    }
    if d.len() == 0 {
    } else {
        assert(s[i] == d[0]);
        assert(is_digit(d[0]));
        let tail = d.subrange(1, d.len() as int);
        assert(all_digits(tail));
        assert(s.subrange(i + 1, i + 1 + tail.len()) =~= tail);
        lemma_digits_end_run(s, i + 1, tail);
    }
}

/// A written number at `i` followed by a non-digit parses back to its value.
proof fn lemma_parse_number_run(s: Seq<u8>, i: int, n: u128)
    requires
        0 <= i,
        i + spec_dec(n as int).len() <= s.len(),
        s.subrange(i, i + spec_dec(n as int).len()) == spec_dec(n as int),
        i + spec_dec(n as int).len() == s.len() || !is_digit(s[i + spec_dec(n as int).len()]),
    ensures
        spec_parse_number(s, i) == Some((n, i + spec_dec(n as int).len())),
{
    let d = spec_dec(n as int);
    crate::decimal::lemma_spec_dec_val(n as int);
    lemma_digits_end_run(s, i, d);
    assert(s.subrange(i, spec_digits_end(s, i)) == d);
}

/// Writing an unlock body and parsing it back gives the same fields: any
/// controller that serializes `(id, nonce)` with this subset is understood
/// exactly.
pub proof fn lemma_unlock_body_round_trip(id: Seq<u8>, nonce: u128)
    requires
        str_ok(id),
    ensures
        spec_parse_unlock_body(spec_unlock_body(id, nonce)) == Some((id, nonce)),
{
    proof_strlit_facts();
    let sep = ascii_bytes("\",\"nonce\":"@);
    let close = ascii_bytes("}"@);
    let esc = spec_escape(id);
    let dec = spec_dec(nonce as int);
    let el = esc.len() as int;
    let dl = dec.len() as int;
    let full = spec_unlock_body(id, nonce);
    crate::decimal::lemma_spec_dec_val(nonce as int);
    assert(full.subrange(0, 7) =~= ascii_bytes("{\"id\":\""@));
    assert(full.subrange(7, 7 + el) =~= esc);
    assert(full[7 + el] == sep[0]);
    assert(sep[0] == 34);
    lemma_parse_escaped_string(full, 7, id);
    let j: int = 7 + el + 1;
    assert(full.subrange(j, j + 9) =~= ascii_bytes(",\"nonce\":"@));
    assert(full.subrange(j + 9, j + 9 + dl) =~= dec);
    assert(full[j + 9 + dl] == close[0]);
    assert(close[0] == 125);
    assert(!is_digit(125));
    lemma_parse_number_run(full, j + 9, nonce);
    let k: int = j + 9 + dl;
    assert(k + 1 == full.len());
    assert(full[k] == 125);
}

/// Writing an enrollment body and parsing it back gives the same fields.
pub proof fn lemma_enroll_body_round_trip(code: u32, pem: Seq<u8>)
    requires
        str_ok(pem),
    ensures
        spec_parse_enroll_body(spec_enroll_body(code, pem)) == Some((code, pem)),
{
    proof_strlit_facts();
    let sep = ascii_bytes(",\"pubkey_pem\":\""@);
    let close = ascii_bytes("\"}"@);
    let esc = spec_escape(pem);
    let dec = spec_dec(code as int);
    let el = esc.len() as int;
    let dl = dec.len() as int;
    let full = spec_enroll_body(code, pem);
    crate::decimal::lemma_spec_dec_val(code as int);
    assert(full.subrange(0, 8) =~= ascii_bytes("{\"code\":"@));
    assert(full.subrange(8, 8 + dl) =~= dec);
    assert(full[8 + dl] == sep[0]);
    assert(sep[0] == 44);
    assert(!is_digit(44));
    lemma_parse_number_run(full, 8, code as u128);
    let j: int = 8 + dl;
    assert(full.subrange(j, j + 15) =~= sep);
    let q: int = j + 15;
    assert(full.subrange(q, q + el) =~= esc);
    assert(full[q + el] == close[0]);
    assert(close[0] == 34);
    lemma_parse_escaped_string(full, q, pem);
    let k: int = q + el + 1;
    assert(k + 1 == full.len());
    assert(full[k] == close[1]);
    assert(close[1] == 125);
    assert(code as u128 <= u32::MAX);
}

/// The concrete characters of the subset's framing literals.
proof fn proof_strlit_facts()
    ensures
        ascii_bytes("{\"id\":\""@).len() == 7,
        ascii_bytes("\",\"nonce\":"@).len() == 10,
        ascii_bytes(",\"nonce\":"@).len() == 9,
        ascii_bytes("{\"code\":"@).len() == 8,
        ascii_bytes(",\"pubkey_pem\":\""@).len() == 15,
        ascii_bytes("}"@).len() == 1,
        ascii_bytes("\"}"@).len() == 2,
        ascii_bytes("\",\"nonce\":"@) == seq![34u8] + ascii_bytes(",\"nonce\":"@),
        ascii_bytes("}"@)[0] == 125,
        ascii_bytes("\",\"nonce\":"@)[0] == 34,
        ascii_bytes(",\"pubkey_pem\":\""@)[0] == 44,
        ascii_bytes("\"}"@)[0] == 34,
        ascii_bytes("\"}"@)[1] == 125,
{
    reveal_strlit("{\"id\":\"");
    reveal_strlit("\",\"nonce\":");
    reveal_strlit(",\"nonce\":");
    reveal_strlit("{\"code\":");
    reveal_strlit(",\"pubkey_pem\":\"");
    reveal_strlit("}");
    reveal_strlit("\"}");
    assert(ascii_bytes("\",\"nonce\":"@) =~= seq![34u8] + ascii_bytes(",\"nonce\":"@));
}

} // verus!
