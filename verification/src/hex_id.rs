use vstd::prelude::*;

verus! {

/// An enrollment identity is a 128-bit value whose on-disk and on-wire name
/// is its lowercase 32-digit hexadecimal form.

/// The lowercase hex digit of a nibble.
pub open spec fn hex_digit(n: int) -> u8 {
    if n < 10 {
        (n + 48) as u8
    } else {
        (n + 87) as u8
    }
}

/// The low `digits` nibbles of `n` in hex, most significant first.
pub open spec fn spec_hex(n: int, digits: nat) -> Seq<u8>
    decreases digits,
{
    if digits == 0 {
        Seq::empty()
    } else {
        spec_hex(n / 16, (digits - 1) as nat).push(hex_digit(n % 16))
    }
}

/// The 32-digit lowercase hex name of an identity.
pub open spec fn spec_id_hex(id: u128) -> Seq<u8> {
    spec_hex(id as int, 32)
}

/// A hex digit, either case.
pub open spec fn is_hex_byte(b: u8) -> bool {
    (48 <= b <= 57) || (97 <= b <= 102) || (65 <= b <= 70)
}

pub open spec fn all_hex(s: Seq<u8>) -> bool {
    forall|i: int| 0 <= i < s.len() ==> is_hex_byte(#[trigger] s[i])
}

/// The nibble a hex digit denotes.
pub open spec fn hex_val(b: u8) -> int {
    if 48 <= b <= 57 {
        b - 48
    } else if 97 <= b <= 102 {
        b - 87
    } else {
        b - 55
    }
}

/// The value of a hex digit string.
pub open spec fn hex_seq_val(s: Seq<u8>) -> int
    decreases s.len(),
{
    if s.len() == 0 {
        0
    } else {
        hex_seq_val(s.drop_last()) * 16 + hex_val(s.last())
    }
}

pub open spec fn pow16(k: nat) -> int
    decreases k,
{
    if k == 0 {
        1
    } else {
        16 * pow16((k - 1) as nat)
    }
}

/// What an identity string denotes: exactly 32 hex digits, read as a 128-bit
/// value.
pub open spec fn spec_parse_id(s: Seq<u8>) -> Option<u128> {
    if s.len() == 32 && all_hex(s) {
        Some(hex_seq_val(s) as u128)
    } else {
        None
    }
}

pub proof fn lemma_pow16_32_is_u128_range()
    ensures
        pow16(32) == 0x100000000000000000000000000000000,
{
    assert(pow16(0) == 1);
    assert(pow16(1) == 0x10);
    assert(pow16(2) == 0x100);
    assert(pow16(3) == 0x1000);
    assert(pow16(4) == 0x10000);
    assert(pow16(5) == 0x100000);
    assert(pow16(6) == 0x1000000);
    assert(pow16(7) == 0x10000000);
    assert(pow16(8) == 0x100000000);
    assert(pow16(9) == 0x1000000000);
    assert(pow16(10) == 0x10000000000);
    assert(pow16(11) == 0x100000000000);
    assert(pow16(12) == 0x1000000000000);
    assert(pow16(13) == 0x10000000000000);
    assert(pow16(14) == 0x100000000000000);
    assert(pow16(15) == 0x1000000000000000);
    assert(pow16(16) == 0x10000000000000000);
    assert(pow16(17) == 0x100000000000000000);
    assert(pow16(18) == 0x1000000000000000000);
    assert(pow16(19) == 0x10000000000000000000);
    assert(pow16(20) == 0x100000000000000000000);
    assert(pow16(21) == 0x1000000000000000000000);
    assert(pow16(22) == 0x10000000000000000000000);
    assert(pow16(23) == 0x100000000000000000000000);
    assert(pow16(24) == 0x1000000000000000000000000);
    assert(pow16(25) == 0x10000000000000000000000000);
    assert(pow16(26) == 0x100000000000000000000000000);
    assert(pow16(27) == 0x1000000000000000000000000000);
    assert(pow16(28) == 0x10000000000000000000000000000);
    assert(pow16(29) == 0x100000000000000000000000000000);
    assert(pow16(30) == 0x1000000000000000000000000000000);
    assert(pow16(31) == 0x10000000000000000000000000000000);
    assert(pow16(32) == 0x100000000000000000000000000000000);
}

/// Write an identity as its 32 lowercase hex digits.
pub fn id_to_hex(id: u128) -> (r: Vec<u8>)
    ensures
        r@ == spec_id_hex(id),
        r@.len() == 32,
{
    let r = hex_rec(id, 32);
    proof {
        lemma_spec_hex_len(id as int, 32);
    }
    r
}

fn hex_rec(n: u128, digits: usize) -> (r: Vec<u8>)
    ensures
        r@ == spec_hex(n as int, digits as nat),
    decreases digits,
{
    if digits == 0 {
        let v: Vec<u8> = Vec::new();
        proof {
            assert(v@ =~= spec_hex(n as int, 0));
        }
        v
    } else {
        let mut v = hex_rec(n / 16, digits - 1);
        let d = (n % 16) as u8;
        let b = if d < 10 {
            d + 48
        } else {
            d + 87
        };
        v.push(b);
        proof {
            assert(v@ =~= spec_hex(n as int, digits as nat));
        }
        v
    }
}

proof fn lemma_spec_hex_len(n: int, digits: nat)
    ensures
        spec_hex(n, digits).len() == digits,
    decreases digits,
{
    if digits > 0 {
        lemma_spec_hex_len(n / 16, (digits - 1) as nat);
    }
}

proof fn lemma_pow16_le(i: nat, j: nat)
    requires
        i <= j,
    ensures
        0 < pow16(i) <= pow16(j),
    decreases j,
{
    if i < j {
        lemma_pow16_le(i, (j - 1) as nat);
        assert(pow16(j) == 16 * pow16((j - 1) as nat));
    } else {
        lemma_pow16_le_self(i);
    }
}

proof fn lemma_pow16_le_self(i: nat)
    ensures
        0 < pow16(i),
    decreases i,
{
    if i > 0 {
        lemma_pow16_le_self((i - 1) as nat);
    }
}

/// Read an identity: `Some` exactly on 32-hex-digit strings.
pub fn parse_id(s: &[u8]) -> (r: Option<u128>)
    ensures
        r == spec_parse_id(s@),
{
    if s.len() != 32 {
        return None;
    }
    let mut acc: u128 = 0;
    let mut i: usize = 0;
    #[verifier::loop_isolation(false)]
    while i < 32
        invariant
            0 <= i <= 32,
            s@.len() == 32,
            all_hex(s@.subrange(0, i as int)),
            acc == hex_seq_val(s@.subrange(0, i as int)),
            acc < pow16(i as nat),
        decreases 32 - i,
    {
        let b = s[i];
        let d: u8 = if 48 <= b && b <= 57 {
            b - 48
        } else if 97 <= b && b <= 102 {
            b - 87
        } else if 65 <= b && b <= 70 {
            b - 55
        } else {
            return None;
        };
        proof {
            assert(s@.subrange(0, i + 1).drop_last() =~= s@.subrange(0, i as int));
            lemma_pow16_le((i + 1) as nat, 32);
            lemma_pow16_32_is_u128_range();
            assert(acc * 16 + d < pow16((i + 1) as nat)) by (nonlinear_arith)
                requires
                    0 <= acc < pow16(i as nat),
                    0 <= d < 16,
                    pow16((i + 1) as nat) == 16 * pow16(i as nat),
            ;
        }
        acc = acc * 16 + (d as u128);
        i += 1;
    }
    proof {
        assert(s@.subrange(0, 32) =~= s@);
    }
    Some(acc)
}

/// Hex naming round-trips: the 32-digit name of any identity parses back to
/// that identity.
pub proof fn lemma_id_hex_round_trip(id: u128)
    ensures
        spec_parse_id(spec_id_hex(id)) == Some(id),
{
    lemma_spec_hex_len(id as int, 32);
    lemma_pow16_32_is_u128_range();
    lemma_spec_hex_val(id as int, 32);
    assert(id as int % pow16(32) == id as int) by {
        assert(0 <= (id as int) && (id as int) < pow16(32));
    }
}

proof fn lemma_spec_hex_val(n: int, digits: nat)
    requires
        n >= 0,
    ensures
        all_hex(spec_hex(n, digits)),
        hex_seq_val(spec_hex(n, digits)) == n % pow16(digits),
    decreases digits,
{
    if digits == 0 {
        assert(n % 1 == 0);
    } else {
        lemma_spec_hex_val(n / 16, (digits - 1) as nat);
        let s = spec_hex(n, digits);
        let p = spec_hex(n / 16, (digits - 1) as nat);
        assert(s == p.push(hex_digit(n % 16)));
        assert(s.drop_last() =~= p);
        assert(is_hex_byte(hex_digit(n % 16)));
        assert(forall|i: int| 0 <= i < s.len() ==> is_hex_byte(#[trigger] s[i])) by {
            assert(forall|i: int| 0 <= i < p.len() ==> is_hex_byte(#[trigger] p[i]));
            assert(forall|i: int|
                0 <= i < s.len() ==> s[i] == (if i < p.len() {
                    p[i]
                } else {
                    hex_digit(n % 16)
                }));
        }
        assert(hex_val(hex_digit(n % 16)) == n % 16);
        assert(hex_seq_val(s) == ((n / 16) % pow16((digits - 1) as nat)) * 16 + n % 16);
        lemma_pow16_le_self((digits - 1) as nat);
        lemma_hex_mod_step(n, pow16((digits - 1) as nat));
        assert(pow16(digits) == 16 * pow16((digits - 1) as nat));
    }
}

/// `((n / 16) % p) * 16 + n % 16 == n % (16 * p)` for positive `p`.
proof fn lemma_hex_mod_step(n: int, p: int)
    requires
        n >= 0,
        p > 0,
    ensures
        ((n / 16) % p) * 16 + n % 16 == n % (16 * p),
{
    vstd::arithmetic::div_mod::lemma_breakdown(n, 16, p);
    assert(n % (16 * p) == 16 * ((n / 16) % p) + n % 16);
}

} // verus!
