//! Argument validators: pure checks that a raw flag string conforms to a
//! domain type (hex address, hex string, decimal u64, private key, block
//! height, boolean) before a command is accepted.
//!
//! All predicates are stated over the UTF-8 bytes of the input string
//! (`str::spec_bytes`), so malformed non-ASCII input falls out as invalid
//! without any special casing.

use vstd::prelude::*;

verus! {

use vstd::string::StringSliceAdditionalSpecFns;

/// ASCII '0'
pub const B0: u8 = 48;

/// ASCII '9'
pub const B9: u8 = 57;

/// ASCII 'a'
pub const BLA: u8 = 97;

/// ASCII 'f'
pub const BLF: u8 = 102;

/// ASCII 'A'
pub const BUA: u8 = 65;

/// ASCII 'F'
pub const BUF: u8 = 70;

/// ASCII 'x'
pub const BLX: u8 = 120;

/// ASCII 'X'
pub const BUX: u8 = 88;

/// A block height is either the symbolic tip of the chain or a concrete
/// block number.
#[derive(Clone, Copy, Debug, PartialEq, Eq, Structural)]
pub enum BlockHeight {
    Latest,
    Number(u64),
}

pub open spec fn is_dec_digit(b: u8) -> bool {
    B0 <= b <= B9
}

pub open spec fn is_hex_digit(b: u8) -> bool {
    is_dec_digit(b) || (BLA <= b <= BLF) || (BUA <= b <= BUF)
}

pub open spec fn all_dec(s: Seq<u8>) -> bool {
    forall|i: int| 0 <= i < s.len() ==> is_dec_digit(#[trigger] s[i])
}

pub open spec fn all_hex(s: Seq<u8>) -> bool {
    forall|i: int| 0 <= i < s.len() ==> is_hex_digit(#[trigger] s[i])
}

/// The bytes with an optional leading "0x" or "0X" removed.
pub open spec fn strip_0x(s: Seq<u8>) -> Seq<u8> {
    if s.len() >= 2 && s[0] == B0 && (s[1] == BLX || s[1] == BUX) {
        s.skip(2)
    } else {
        s
    }
}

/// A valid address: an optional 0x prefix followed by exactly 40 hex digits
/// (20 bytes).
pub open spec fn addr_str_ok(s: Seq<u8>) -> bool {
    strip_0x(s).len() == 40 && all_hex(strip_0x(s))
}

/// A syntactically valid hex string: an optional 0x prefix followed by at
/// least one hex digit.  Length beyond that is left to the facade (function
/// selectors are 4 bytes, block hashes 32).
pub open spec fn hex_str_ok(s: Seq<u8>) -> bool {
    strip_0x(s).len() > 0 && all_hex(strip_0x(s))
}

/// The numeric value of a decimal digit string, in big-endian digit order.
pub open spec fn dec_val(s: Seq<u8>) -> int
    decreases s.len(),
{
    if s.len() == 0 {
        0
    } else {
        dec_val(s.drop_last()) * 10 + (s.last() - B0)
    }
}

/// A decimal string representable in 64 bits.
pub open spec fn u64_str_ok(s: Seq<u8>) -> bool {
    s.len() > 0 && all_dec(s) && dec_val(s) <= u64::MAX
}

/// The value the block-height validator assigns to an input, if any.
pub open spec fn height_of(s: Seq<u8>) -> Option<BlockHeight> {
    if s == "latest".spec_bytes() {
        Some(BlockHeight::Latest)
    } else if u64_str_ok(s) {
        Some(BlockHeight::Number(dec_val(s) as u64))
    } else {
        None
    }
}

/// The value the boolean validator assigns to an input, if any.
pub open spec fn bool_of(s: Seq<u8>) -> Option<bool> {
    if s == "true".spec_bytes() {
        Some(true)
    } else if s == "false".spec_bytes() {
        Some(false)
    } else {
        None
    }
}

pub open spec fn is_ascii_ws(b: u8) -> bool {
    b == 32 || b == 13 || b == 10 || b == 9
}

/// A private key accepted for either signature scheme: after removing an
/// optional lowercase "0x" prefix and ignoring ASCII whitespace, exactly 64
/// hex digits (a 32-byte key).  This is precisely the set of strings that
/// the external key parser accepts.
pub open spec fn privkey_str_ok(s: Seq<u8>) -> bool {
    let t = if s.len() >= 2 && s[0] == B0 && s[1] == BLX {
        s.skip(2)
    } else {
        s
    };
    let h = t.filter(|b: u8| !is_ascii_ws(b));
    h.len() == 64 && all_hex(h)
}

/// The two signature schemes the chain supports; selected once per process.
#[derive(Clone, Copy, Debug, PartialEq, Eq, Structural)]
pub enum HashScheme {
    Secp256k1,
    Sm2,
}

proof fn lemma_dec_val_nonneg(s: Seq<u8>)
    requires
        all_dec(s),
    ensures
        dec_val(s) >= 0,
    decreases s.len(),
{
    if s.len() > 0 {
        assert(all_dec(s.drop_last())) by {
            assert(forall|i: int| 0 <= i < s.len() - 1 ==> s.drop_last()[i] == s[i]);
        }
        lemma_dec_val_nonneg(s.drop_last());
    }
}

/// Extending a digit string to the right can only grow its value.
proof fn lemma_dec_val_prefix_le(s: Seq<u8>, i: int)
    requires
        all_dec(s),
        0 <= i <= s.len(),
    ensures
        dec_val(s.take(i)) <= dec_val(s),
    decreases s.len() - i,
{
    if i < s.len() {
        assert(s.take(i + 1).drop_last() =~= s.take(i));
        assert(all_dec(s.take(i))) by {
            assert(forall|j: int| 0 <= j < i ==> s.take(i)[j] == s[j]);
        }
        lemma_dec_val_nonneg(s.take(i));
        assert(dec_val(s.take(i + 1)) == dec_val(s.take(i)) * 10 + (s.take(i + 1).last() - B0));
        lemma_dec_val_prefix_le(s, i + 1);
    } else {
        assert(s.take(i) =~= s);
    }
}

/// Checks that two byte slices hold the same bytes.
pub fn bytes_eq(a: &[u8], b: &[u8]) -> (r: bool)
    ensures
        r == (a@ == b@),
{
    if a.len() != b.len() {
        assert(a@ != b@);
        return false;
    }
    let n: usize = a.len();
    let mut i: usize = 0;
    while i < n
        invariant
            n == a@.len() == b@.len(),
            0 <= i <= n,
            forall|j: int| 0 <= j < i ==> a@[j] == b@[j],
        decreases n - i,
    {
        if a[i] != b[i] {
            assert(a@ != b@);
            return false;
        }
        i += 1;
    }
    assert(a@ =~= b@);
    true
}

/// The address validator: an optional 0x prefix followed by exactly 40 hex
/// digits.
pub fn check_address(s: &str) -> (r: bool)
    ensures
        r == addr_str_ok(s.spec_bytes()),
{
    let b = s.as_bytes();
    let start: usize = if b.len() >= 2 && b[0] == B0 && (b[1] == BLX || b[1] == BUX) {
        2
    } else {
        0
    };
    let ghost t = strip_0x(s.spec_bytes());
    proof {
        assert(t =~= b@.skip(start as int));
    }
    if b.len() - start != 40 {
        return false;
    }
    let n: usize = b.len();
    let mut i: usize = start;
    while i < n
        invariant
            start <= i <= n,
            n == b@.len(),
            b@ == s.spec_bytes(),
            t == strip_0x(s.spec_bytes()),
            t =~= b@.skip(start as int),
            forall|j: int| start <= j < i ==> is_hex_digit(#[trigger] b@[j]),
        decreases n - i,
    {
        let c = b[i];
        if !((B0 <= c && c <= B9) || (BLA <= c && c <= BLF) || (BUA <= c && c <= BUF)) {
            assert(t[i - start as int] == b@[i as int]);
            assert(!is_hex_digit(t[i - start as int]));
            return false;
        }
        i += 1;
    }
    assert(forall|j: int| 0 <= j < t.len() ==> is_hex_digit(#[trigger] t[j]));
    true
}

/// The hex validator: an optional 0x prefix followed by at least one hex
/// digit.
pub fn check_hex(s: &str) -> (r: bool)
    ensures
        r == hex_str_ok(s.spec_bytes()),
{
    let b = s.as_bytes();
    let start: usize = if b.len() >= 2 && b[0] == B0 && (b[1] == BLX || b[1] == BUX) {
        2
    } else {
        0
    };
    let ghost t = strip_0x(s.spec_bytes());
    proof {
        assert(t =~= b@.skip(start as int));
    }
    if b.len() == start {
        return false;
    }
    let n: usize = b.len();
    let mut i: usize = start;
    while i < n
        invariant
            start <= i <= n,
            n == b@.len(),
            b@ == s.spec_bytes(),
            t == strip_0x(s.spec_bytes()),
            t =~= b@.skip(start as int),
            forall|j: int| start <= j < i ==> is_hex_digit(#[trigger] b@[j]),
        decreases n - i,
    {
        let c = b[i];
        if !((B0 <= c && c <= B9) || (BLA <= c && c <= BLF) || (BUA <= c && c <= BUF)) {
            assert(t[i - start as int] == b@[i as int]);
            assert(!is_hex_digit(t[i - start as int]));
            return false;
        }
        i += 1;
    }
    assert(forall|j: int| 0 <= j < t.len() ==> is_hex_digit(#[trigger] t[j]));
    true
}

/// The u64 validator: parses a decimal string, rejecting anything that is
/// not a plain base-10 number representable in 64 bits.
pub fn parse_u64_str(s: &str) -> (r: Option<u64>)
    ensures
        match r {
            Some(v) => u64_str_ok(s.spec_bytes()) && v == dec_val(s.spec_bytes()),
            None => !u64_str_ok(s.spec_bytes()),
        },
{
    let b = s.as_bytes();
    let n: usize = b.len();
    if n == 0 {
        return None;
    }
    let mut acc: u64 = 0;
    let mut i: usize = 0;
    while i < n
        invariant
            0 <= i <= n,
            n == b@.len(),
            b@ == s.spec_bytes(),
            all_dec(b@.take(i as int)),
            acc == dec_val(b@.take(i as int)),
            dec_val(b@.take(i as int)) <= u64::MAX,
        decreases n - i,
    {
        let c = b[i];
        if !(B0 <= c && c <= B9) {
            assert(!all_dec(b@));
            return None;
        }
        let d: u64 = (c - B0) as u64;
        proof {
            assert(b@.take(i + 1).drop_last() =~= b@.take(i as int));
            assert(b@.take(i + 1).last() == b@[i as int]);
            assert(all_dec(b@.take(i + 1)));
            assert(dec_val(b@.take(i + 1)) == acc * 10 + d);
        }
        if acc > 1844674407370955161u64 || (acc == 1844674407370955161u64 && d > 5) {
            proof {
                assert(dec_val(b@.take(i + 1)) > u64::MAX);
                if all_dec(b@) {
                    lemma_dec_val_prefix_le(b@, i + 1);
                }
            }
            return None;
        }
        assert(acc * 10 + d <= u64::MAX);
        acc = acc * 10 + d;
        i += 1;
    }
    proof {
        assert(b@.take(n as int) =~= b@);
    }
    Some(acc)
}

/// The block-height validator: the literal "latest" or a decimal number.
pub fn parse_height(s: &str) -> (r: Option<BlockHeight>)
    ensures
        r == height_of(s.spec_bytes()),
{
    if bytes_eq(s.as_bytes(), "latest".as_bytes()) {
        return Some(BlockHeight::Latest);
    }
    match parse_u64_str(s) {
        Some(v) => Some(BlockHeight::Number(v)),
        None => None,
    }
}

/// The boolean validator: the literal "true" or "false".
pub fn parse_bool_str(s: &str) -> (r: Option<bool>)
    ensures
        r == bool_of(s.spec_bytes()),
{
    if bytes_eq(s.as_bytes(), "true".as_bytes()) {
        Some(true)
    } else if bytes_eq(s.as_bytes(), "false".as_bytes()) {
        Some(false)
    } else {
        None
    }
}

/// Relies on `cita_tool::PrivateKey::from_str`: for either scheme the key
/// type is a 32-byte fixed hash, whose `FromStr` strips an optional
/// lowercase "0x" prefix and then decodes exactly 64 hex digits, skipping
/// ASCII whitespace.  The accepted set does not depend on the scheme.
#[verifier::external_body]
fn privkey_parses(s: &str, scheme: HashScheme) -> (r: bool)
    ensures
        r == privkey_str_ok(s.spec_bytes()),
{
    let encryption = match scheme {
        HashScheme::Secp256k1 => cita_tool::crypto::Encryption::Secp256k1,
        HashScheme::Sm2 => cita_tool::crypto::Encryption::Sm2,
    };
    cita_tool::PrivateKey::from_str(s, encryption).is_ok()
}

/// The private-key validator for the active signature scheme.
pub fn check_privkey(s: &str, scheme: HashScheme) -> (r: bool)
    ensures
        r == privkey_str_ok(s.spec_bytes()),
{
    privkey_parses(s, scheme)
}

} // verus!
