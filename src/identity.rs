//! Device identity: a fixed-format name derived from the hardware address.
use vstd::prelude::*;
use vstd::string::*;

verus! {

/// The sixteen upper-case hexadecimal digits, by value.
pub open spec fn hex_digits() -> Seq<char> {
    seq!['0', '1', '2', '3', '4', '5', '6', '7', '8', '9', 'A', 'B', 'C', 'D', 'E', 'F']
}

/// Two upper-case digits for one byte, high nibble first.
pub open spec fn hex_pair(b: u8) -> Seq<char> {
    seq![hex_digits()[(b / 16) as int], hex_digits()[(b % 16) as int]]
}

/// Upper-case hexadecimal of a byte sequence, two digits per byte, no separators.
pub open spec fn hex_upper(bytes: Seq<u8>) -> Seq<char>
    decreases bytes.len(),
{
    if bytes.len() == 0 {
        Seq::empty()
    } else {
        hex_upper(bytes.drop_last()) + hex_pair(bytes.last())
    }
}

/// The text that every device identifier starts with.
pub open spec fn id_prefix() -> Seq<char> {
    seq!['E', 'S', 'P', '3', '2', '_']
}

/// The identifier of the device whose hardware address is `mac`.
pub open spec fn device_id_of(mac: Seq<u8>) -> Seq<char> {
    id_prefix() + hex_upper(mac)
}

fn hex_digit(n: u8) -> (r: &'static str)
    requires
        n < 16,
    ensures
        r@ == seq![hex_digits()[n as int]],
{
    let digits = "0123456789ABCDEF";
    proof {
        reveal_strlit("0123456789ABCDEF");
    }
    let r = digits.substring_char(n as usize, n as usize + 1);
    assert(r@ =~= seq![hex_digits()[n as int]]);
    r
}

/// Derives the device identifier `ESP32_<hex>` from a six-byte hardware address.
pub fn device_id_from_mac(mac: [u8; 6]) -> (r: String)
    ensures
        r@ == device_id_of(mac@),
{
    let prefix = "ESP32_";
    proof {
        reveal_strlit("ESP32_");
    }
    let mut id = String::from_str(prefix);
    assert(id@ =~= id_prefix() + hex_upper(mac@.subrange(0, 0)));
    let mut i: usize = 0;
    while i < 6
        invariant
            i <= 6,
            mac@.len() == 6,
            id@ == id_prefix() + hex_upper(mac@.subrange(0, i as int)),
        decreases 6 - i,
    {
        let b = mac[i];
        id.append(hex_digit(b / 16));
        id.append(hex_digit(b % 16));
        assert(mac@.subrange(0, i + 1).drop_last() =~= mac@.subrange(0, i as int));
        assert(id@ =~= id_prefix() + hex_upper(mac@.subrange(0, i + 1)));
        i = i + 1;
    }
    assert(mac@.subrange(0, 6) =~= mac@);
    id
}

/// The eight bytes of `v`, most significant first.
pub open spec fn be_bytes(v: u64) -> Seq<u8> {
    Seq::new(8, |i: int| (v >> ((56 - 8 * i) as u64)) as u8)
}

/// The identifier derived from a 64-bit hardware value: the prefix, then the
/// value's eight bytes, most significant first, two upper-case digits each.
pub open spec fn fallback_id_of(v: u64) -> Seq<char> {
    id_prefix() + hex_upper(be_bytes(v))
}

/// Derives the device identifier from a 64-bit hardware value, for hardware
/// that reports its address as one number: `ESP32_` and sixteen upper-case
/// hexadecimal digits.
pub fn make_device_id(mac: u64) -> (r: String)
    ensures
        r@ == fallback_id_of(mac),
{
    let mut id = String::from_str("ESP32_");
    proof {
        reveal_strlit("ESP32_");
    }
    let ghost bytes = be_bytes(mac);
    assert(id@ =~= id_prefix() + hex_upper(bytes.subrange(0, 0)));
    let mut i: u64 = 0;
    while i < 8
        invariant
            i <= 8,
            bytes == be_bytes(mac),
            id@ == id_prefix() + hex_upper(bytes.subrange(0, i as int)),
        decreases 8 - i,
    {
        let b = (mac >> (56 - 8 * i)) as u8;
        assert(b == bytes[i as int]);
        id.append(hex_digit(b / 16));
        id.append(hex_digit(b % 16));
        assert(bytes.subrange(0, i + 1).drop_last() =~= bytes.subrange(0, i as int));
        assert(id@ =~= id_prefix() + hex_upper(bytes.subrange(0, i + 1)));
        i = i + 1;
    }
    assert(bytes.subrange(0, 8) =~= bytes);
    id
}

/// The identifier is a function of the hardware address alone: the same
/// address gives the same identifier on every derivation.
pub proof fn lemma_device_id_deterministic(a: [u8; 6], b: [u8; 6])
    requires
        a@ == b@,
    ensures
        device_id_of(a@) == device_id_of(b@),
{
}

/// The value of an upper-case hexadecimal digit.
pub open spec fn digit_value(c: char) -> int {
    if c <= '9' {
        c as u32 as int - '0' as u32 as int
    } else {
        c as u32 as int - 'A' as u32 as int + 10
    }
}

proof fn lemma_digit_value(k: int)
    requires
        0 <= k < 16,
    ensures
        digit_value(hex_digits()[k]) == k,
{
    let d = hex_digits();
    assert(d[0] == '0' && d[1] == '1' && d[2] == '2' && d[3] == '3' && d[4] == '4' && d[5] == '5'
        && d[6] == '6' && d[7] == '7' && d[8] == '8' && d[9] == '9' && d[10] == 'A' && d[11] == 'B'
        && d[12] == 'C' && d[13] == 'D' && d[14] == 'E' && d[15] == 'F');
    assert(k == 0 || k == 1 || k == 2 || k == 3 || k == 4 || k == 5 || k == 6 || k == 7 || k == 8
        || k == 9 || k == 10 || k == 11 || k == 12 || k == 13 || k == 14 || k == 15);
}

proof fn lemma_hex_pair_injective(x: u8, y: u8)
    requires
        hex_pair(x) == hex_pair(y),
    ensures
        x == y,
{
    assert(hex_pair(x)[0] == hex_pair(y)[0]);
    assert(hex_pair(x)[1] == hex_pair(y)[1]);
    lemma_digit_value((x / 16) as int);
    lemma_digit_value((y / 16) as int);
    lemma_digit_value((x % 16) as int);
    lemma_digit_value((y % 16) as int);
}

proof fn lemma_hex_upper_len(bytes: Seq<u8>)
    ensures
        hex_upper(bytes).len() == 2 * bytes.len(),
    decreases bytes.len(),
{
    if bytes.len() > 0 {
        lemma_hex_upper_len(bytes.drop_last());
    }
}

proof fn lemma_hex_upper_injective(a: Seq<u8>, b: Seq<u8>)
    requires
        a.len() == b.len(),
        hex_upper(a) == hex_upper(b),
    ensures
        a == b,
    decreases a.len(),
{
    if a.len() > 0 {
        let n = a.len() as int;
        lemma_hex_upper_len(a.drop_last());
        lemma_hex_upper_len(b.drop_last());
        let ha = hex_upper(a.drop_last());
        let hb = hex_upper(b.drop_last());
        assert(hex_upper(a).subrange(0, 2 * n - 2) =~= ha);
        assert(hex_upper(b).subrange(0, 2 * n - 2) =~= hb);
        assert(hex_upper(a).subrange(2 * n - 2, 2 * n) =~= hex_pair(a.last()));
        assert(hex_upper(b).subrange(2 * n - 2, 2 * n) =~= hex_pair(b.last()));
        lemma_hex_upper_injective(a.drop_last(), b.drop_last());
        lemma_hex_pair_injective(a.last(), b.last());
        assert(a =~= a.drop_last().push(a.last()));
        assert(b =~= b.drop_last().push(b.last()));
    }
}

/// Different hardware addresses give different identifiers: the identifier
/// determines the address it was derived from.
pub proof fn lemma_device_id_injective(a: [u8; 6], b: [u8; 6])
    requires
        device_id_of(a@) == device_id_of(b@),
    ensures
        a@ == b@,
{
    assert(device_id_of(a@).subrange(6, device_id_of(a@).len() as int) =~= hex_upper(a@));
    assert(device_id_of(b@).subrange(6, device_id_of(b@).len() as int) =~= hex_upper(b@));
    lemma_hex_upper_injective(a@, b@);
}

/// Different 64-bit hardware values give different identifiers.
pub proof fn lemma_fallback_id_injective(a: u64, b: u64)
    requires
        fallback_id_of(a) == fallback_id_of(b),
    ensures
        a == b,
{
    assert(fallback_id_of(a).subrange(6, fallback_id_of(a).len() as int) =~= hex_upper(be_bytes(a)));
    assert(fallback_id_of(b).subrange(6, fallback_id_of(b).len() as int) =~= hex_upper(be_bytes(b)));
    lemma_hex_upper_injective(be_bytes(a), be_bytes(b));
    assert(be_bytes(a)[0] == be_bytes(b)[0] && be_bytes(a)[1] == be_bytes(b)[1]
        && be_bytes(a)[2] == be_bytes(b)[2] && be_bytes(a)[3] == be_bytes(b)[3]
        && be_bytes(a)[4] == be_bytes(b)[4] && be_bytes(a)[5] == be_bytes(b)[5]
        && be_bytes(a)[6] == be_bytes(b)[6] && be_bytes(a)[7] == be_bytes(b)[7]);
    assert(((a >> 56u64) as u8 == (b >> 56u64) as u8 && (a >> 48u64) as u8 == (b >> 48u64) as u8
        && (a >> 40u64) as u8 == (b >> 40u64) as u8 && (a >> 32u64) as u8 == (b >> 32u64) as u8
        && (a >> 24u64) as u8 == (b >> 24u64) as u8 && (a >> 16u64) as u8 == (b >> 16u64) as u8
        && (a >> 8u64) as u8 == (b >> 8u64) as u8 && (a >> 0u64) as u8 == (b >> 0u64) as u8) ==> a
        == b) by (bit_vector);
}

} // verus!
