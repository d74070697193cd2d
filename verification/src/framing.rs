//! The frame of an NMEA 0183 sentence: start sign, checksum and line end.
use crate::text::join;
use vstd::prelude::*;
use vstd::string::*;
use vstd::utf8::encode_utf8;

verus! {

/// The exclusive or of some bytes.
pub open spec fn xor_all(bytes: Seq<u8>) -> u8
    decreases bytes.len(),
{
    if bytes.len() == 0 {
        0
    } else {
        xor_all(bytes.drop_last()) ^ bytes.last()
    }
}

/// The checksum of the text between start sign and asterisk.
pub open spec fn checksum_of(body: Seq<char>) -> u8 {
    xor_all(encode_utf8(body))
}

/// The checksum of the text between start sign and asterisk.
pub fn checksum(body: &str) -> (r: u8)
    ensures
        r == checksum_of(body@),
{
    let bytes = body.as_bytes();
    let mut sum: u8 = 0;
    let mut i: usize = 0;
    assert(bytes@.take(0) =~= Seq::empty());
    while i < bytes.len()
        invariant
            i <= bytes@.len(),
            sum == xor_all(bytes@.take(i as int)),
        decreases bytes@.len() - i,
    {
        assert(bytes@.take(i + 1).drop_last() =~= bytes@.take(i as int));
        assert(bytes@.take(i + 1).last() == bytes@[i as int]);
        sum = sum ^ bytes[i];
        i += 1;
    }
    assert(bytes@.take(i as int) =~= bytes@);
    sum
}

/// A hexadecimal digit in upper case.
pub open spec fn hex_digit(n: nat) -> char {
    if n < 10 {
        ('0' as int + n) as char
    } else {
        ('A' as int + (n - 10)) as char
    }
}

/// A byte in two hexadecimal digits.
pub open spec fn hex_byte(b: u8) -> Seq<char> {
    seq![hex_digit((b / 16) as nat), hex_digit((b % 16) as nat)]
}

fn hex_text(n: u8) -> (r: &'static str)
    requires
        n < 16,
    ensures
        r@ == seq![hex_digit(n as nat)],
{
    proof {
        reveal_strlit("0");
        reveal_strlit("1");
        reveal_strlit("2");
        reveal_strlit("3");
        reveal_strlit("4");
        reveal_strlit("5");
        reveal_strlit("6");
        reveal_strlit("7");
        reveal_strlit("8");
        reveal_strlit("9");
        reveal_strlit("A");
        reveal_strlit("B");
        reveal_strlit("C");
        reveal_strlit("D");
        reveal_strlit("E");
        reveal_strlit("F");
    }
    let r = match n {
        0 => "0",
        1 => "1",
        2 => "2",
        3 => "3",
        4 => "4",
        5 => "5",
        6 => "6",
        7 => "7",
        8 => "8",
        9 => "9",
        10 => "A",
        11 => "B",
        12 => "C",
        13 => "D",
        14 => "E",
        _ => "F",
    };
    assert(r@ =~= seq![hex_digit(n as nat)]);
    r
}

/// A complete sentence around a body.
pub open spec fn framed(body: Seq<char>) -> Seq<char> {
    "$"@ + body + "*"@ + hex_byte(checksum_of(body)) + "\r\n"@
}

/// A complete sentence around a body.
pub fn sentence(body: &str) -> (r: String)
    ensures
        r@ == framed(body@),
{
    let sum = checksum(body);
    let mut s = join("$", body);
    s.append("*");
    s.append(hex_text(sum / 16));
    s.append(hex_text(sum % 16));
    s.append("\r\n");
    assert(s@ =~= framed(body@));
    s
}

/// Complete sentences around some bodies.
pub fn sentences(bodies: &Vec<String>) -> (out: Vec<String>)
    ensures
        out@.len() == bodies@.len(),
        forall|i: int| 0 <= i < bodies@.len() ==> (#[trigger] out@[i])@ == framed(bodies@[i]@),
{
    let mut out: Vec<String> = Vec::new();
    let mut i: usize = 0;
    while i < bodies.len()
        invariant
            i <= bodies@.len(),
            out@.len() == i,
            forall|k: int| 0 <= k < i ==> (#[trigger] out@[k])@ == framed(bodies@[k]@),
        decreases bodies@.len() - i,
    {
        out.push(sentence(bodies[i].as_str()));
        i += 1;
    }
    out
}

/// A change of a single byte changes the checksum.
pub proof fn checksum_detects_one_change(bytes: Seq<u8>, at: int, b: u8)
    requires
        0 <= at < bytes.len(),
        b != bytes[at],
    ensures
        xor_all(bytes.update(at, b)) != xor_all(bytes),
    decreases bytes.len(),
{
    let changed = bytes.update(at, b);
    let n = bytes.len() - 1;
    if at == n {
        assert(changed.drop_last() =~= bytes.drop_last());
        let x = xor_all(bytes.drop_last());
        let a = bytes[at];
        assert((x ^ b) != (x ^ a)) by (bit_vector)
            requires
                a != b,
        ;
    } else {
        checksum_detects_one_change(bytes.drop_last(), at, b);
        assert(changed.drop_last() =~= bytes.drop_last().update(at, b));
        let x = xor_all(bytes.drop_last());
        let y = xor_all(changed.drop_last());
        let c = bytes.last();
        assert((y ^ c) != (x ^ c)) by (bit_vector)
            requires
                x != y,
        ;
    }
}

/// The checksum of two texts together is the exclusive or of theirs.
pub proof fn checksum_of_parts(a: Seq<u8>, b: Seq<u8>)
    ensures
        xor_all(a + b) == xor_all(a) ^ xor_all(b),
    decreases b.len(),
{
    if b.len() == 0 {
        assert(a + b =~= a);
        let x = xor_all(a);
        assert(x ^ 0u8 == x) by (bit_vector);
    } else {
        checksum_of_parts(a, b.drop_last());
        assert((a + b).drop_last() =~= a + b.drop_last());
        let x = xor_all(a);
        let y = xor_all(b.drop_last());
        let c = b.last();
        assert((x ^ y) ^ c == x ^ (y ^ c)) by (bit_vector);
    }
}

/// The value of a hexadecimal digit in upper case.
pub open spec fn hex_value(c: char) -> int {
    if c as int <= '9' as int {
        c as int - '0' as int
    } else {
        c as int - 'A' as int + 10
    }
}

/// A sentence is a dollar sign, the body, an asterisk, two hexadecimal digits with the checksum of
/// the body's bytes, and a line end.
pub proof fn sentence_carries_its_checksum(body: Seq<char>)
    ensures
        ({
            let n = body.len() as int;
            let s = framed(body);
            &&& s.len() == n + 6
            &&& s[0] == '$'
            &&& s.subrange(1, n + 1) == body
            &&& s[n + 1] == '*'
            &&& 16 * hex_value(s[n + 2]) + hex_value(s[n + 3]) == xor_all(encode_utf8(body))
            &&& forall|k: int|
                n + 2 <= k < n + 4 ==> '0' as int <= (#[trigger] s[k]) as int <= '9' as int
                    || 'A' as int <= s[k] as int <= 'F' as int
            &&& s[n + 4] == '\r'
            &&& s[n + 5] == '\n'
        }),
{
    reveal_strlit("$");
    reveal_strlit("*");
    reveal_strlit("\r\n");
    let sum = checksum_of(body);
    let n = body.len() as int;
    let s = framed(body);
    assert(s.subrange(1, n + 1) =~= body);
    assert(s[n + 2] == hex_digit((sum / 16) as nat));
    assert(s[n + 3] == hex_digit((sum % 16) as nat));
    assert(s[n + 4] == "\r\n"@[0]);
    assert(s[n + 5] == "\r\n"@[1]);
    digit_has_its_value((sum / 16) as nat);
    digit_has_its_value((sum % 16) as nat);
}

/// A digit has the value that it was made of.
proof fn digit_has_its_value(n: nat)
    requires
        n < 16,
    ensures
        hex_value(hex_digit(n)) == n,
        '0' as int <= hex_digit(n) as int <= '9' as int || 'A' as int <= hex_digit(n) as int
            <= 'F' as int,
{
}

/// The checksum of a single byte is the byte.
pub proof fn checksum_of_one_byte(b: u8)
    ensures
        xor_all(seq![b]) == b,
{
    assert(seq![b].drop_last() =~= Seq::<u8>::empty());
    assert(xor_all(seq![b].drop_last()) == 0u8);
    assert(0u8 ^ b == b) by (bit_vector);
}

} // verus!
