//! Hexadecimal text.
use vstd::prelude::*;

verus! {

/// The lower-case hexadecimal digit of `n`.
pub open spec fn digit(n: int) -> char
    recommends
        0 <= n < 16,
{
    if n < 10 {
        ('0' as int + n) as char
    } else {
        ('a' as int + n - 10) as char
    }
}

/// Whether `c` is a lower-case hexadecimal digit.
pub open spec fn is_digit(c: char) -> bool {
    '0' <= c <= '9' || 'a' <= c <= 'f'
}

/// Two digits for each byte, the high one first.
pub open spec fn encoded(bytes: Seq<u8>) -> Seq<char> {
    Seq::new(
        2 * bytes.len(),
        |i: int| digit(if i % 2 == 0 { bytes[i / 2] as int / 16 } else { bytes[i / 2] as int % 16 }),
    )
}

fn digit_of(n: u8) -> (c: char)
    requires
        n < 16,
    ensures
        c == digit(n as int),
{
    if n < 10 {
        (48 + n) as char
    } else {
        (87 + n) as char
    }
}

/// The bytes as hexadecimal text, two digits for each.
pub fn encode(bytes: &[u8]) -> (res: String)
    ensures
        res@ == encoded(bytes@),
{
    let mut out = String::new();
    for i in 0..bytes.len()
        invariant
            out@ == encoded(bytes@.take(i as int)),
    {
        let b = bytes[i];
        out.push(digit_of(b / 16));
        out.push(digit_of(b % 16));
        assert(out@ == encoded(bytes@.take(i + 1))) by {
            let next = encoded(bytes@.take(i + 1));
            assert forall|j: int| 0 <= j < 2 * i implies next[j] == encoded(bytes@.take(i as int))[j] by {
                assert(bytes@.take(i + 1)[j / 2] == bytes@.take(i as int)[j / 2]);
            }
        }
    }
    assert(bytes@.take(bytes@.len() as int) == bytes@);
    out
}

/// Hexadecimal text has two lower-case digits for each byte, and nothing else.
pub proof fn encoded_is_hexadecimal(bytes: Seq<u8>)
    ensures
        encoded(bytes).len() == 2 * bytes.len(),
        forall|i: int| 0 <= i < encoded(bytes).len() ==> is_digit(#[trigger] encoded(bytes)[i]),
{
}

/// Bytes that differ have different hexadecimal texts.
pub proof fn encoding_is_injective(a: Seq<u8>, b: Seq<u8>)
    requires
        encoded(a) == encoded(b),
    ensures
        a == b,
{
    assert(encoded(a).len() == 2 * a.len() && encoded(b).len() == 2 * b.len());
    assert forall|i: int| 0 <= i < a.len() implies a[i] == b[i] by {
        let k = 2 * i;
        assert(k / 2 == i && (k + 1) / 2 == i && k % 2 == 0 && (k + 1) % 2 == 1);
        assert(encoded(a)[k] == digit(a[i] as int / 16));
        assert(encoded(b)[k] == digit(b[i] as int / 16));
        assert(encoded(a)[k + 1] == digit(a[i] as int % 16));
        assert(encoded(b)[k + 1] == digit(b[i] as int % 16));
        assert(digit(a[i] as int / 16) == digit(b[i] as int / 16));
        assert(digit(a[i] as int % 16) == digit(b[i] as int % 16));
    }
    assert(a =~= b);
}

/// The number that a hexadecimal digit stands for.
pub open spec fn digit_value(c: char) -> int {
    if '0' <= c <= '9' {
        c as int - 48
    } else {
        c as int - 87
    }
}

/// The two digits of a byte give it back, the first as its high half and the second as its low half.
pub proof fn digits_give_the_byte_back(bytes: Seq<u8>, i: int)
    requires
        0 <= i < bytes.len(),
    ensures
        is_digit(encoded(bytes)[2 * i]),
        is_digit(encoded(bytes)[2 * i + 1]),
        digit_value(encoded(bytes)[2 * i]) * 16 + digit_value(encoded(bytes)[2 * i + 1])
            == bytes[i] as int,
{
    let k = 2 * i;
    assert(k / 2 == i && (k + 1) / 2 == i && k % 2 == 0 && (k + 1) % 2 == 1);
    assert(encoded(bytes)[k] == digit(bytes[i] as int / 16));
    assert(encoded(bytes)[k + 1] == digit(bytes[i] as int % 16));
}

} // verus!
