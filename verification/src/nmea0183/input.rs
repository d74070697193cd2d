//! What is done with a received line.
use crate::nmea0183::ais_decode::{decoded_ais, takes_in, AisDecoder};
use crate::nmea0183::dsc::{decoded_dsc, try_decode_dsc, DscCall};
use crate::nmea0183::parse::{nmea_parsed, reads_as, Parsed};
use crate::nmea0183::{sentence_to_delta, text_delta, Sentence};
use crate::signalk::{Delta, DeltaView};
use crate::text::chars_of;
use vstd::prelude::*;
use vstd::string::*;
use vstd::utf8::encode_utf8;

verus! {

/// The character is white space as Unicode has it.
#[verifier::allow_in_spec]
pub fn is_white(c: char) -> (r: bool)
    returns
        ({
            ||| 0x09 <= c as u32 && c as u32 <= 0x0D
            ||| c as u32 == 0x20
            ||| c as u32 == 0x85
            ||| c as u32 == 0xA0
            ||| c as u32 == 0x1680
            ||| 0x2000 <= c as u32 && c as u32 <= 0x200A
            ||| c as u32 == 0x2028
            ||| c as u32 == 0x2029
            ||| c as u32 == 0x202F
            ||| c as u32 == 0x205F
            ||| c as u32 == 0x3000
        }),
{
    let n: u32 = c as u32;
    (0x09 <= n && n <= 0x0D) || n == 0x20 || n == 0x85 || n == 0xA0 || n == 0x1680 || (0x2000 <= n
        && n <= 0x200A) || n == 0x2028 || n == 0x2029 || n == 0x202F || n == 0x205F || n == 0x3000
}

/// A text without leading white space.
pub open spec fn trimmed_front(s: Seq<char>) -> Seq<char>
    decreases s.len(),
{
    if s.len() > 0 && is_white(s[0]) {
        trimmed_front(s.skip(1))
    } else {
        s
    }
}

/// A text without trailing white space.
pub open spec fn trimmed_back(s: Seq<char>) -> Seq<char>
    decreases s.len(),
{
    if s.len() > 0 && is_white(s.last()) {
        trimmed_back(s.drop_last())
    } else {
        s
    }
}

/// A text without white space around it.
pub open spec fn trimmed(s: Seq<char>) -> Seq<char> {
    trimmed_back(trimmed_front(s))
}

/// A text without white space around it.
pub fn trim(s: &str) -> (r: &str)
    ensures
        r@ == trimmed(s@),
{
    let chars = chars_of(s);
    let mut from: usize = 0;
    assert(s@.skip(0) =~= s@);
    while from < chars.len() && is_white(chars[from])
        invariant
            chars@ == s@,
            from <= chars@.len(),
            trimmed_front(s@) == trimmed_front(s@.skip(from as int)),
        decreases chars@.len() - from,
    {
        assert(s@.skip(from as int).skip(1) =~= s@.skip(from + 1));
        from += 1;
    }
    let ghost front = s@.skip(from as int);
    assert(trimmed_front(s@) == front);
    let mut to: usize = chars.len();
    assert(s@.subrange(from as int, to as int) =~= front);
    while to > from && is_white(chars[to - 1])
        invariant
            chars@ == s@,
            from <= to <= chars@.len(),
            trimmed_back(front) == trimmed_back(s@.subrange(from as int, to as int)),
        decreases to,
    {
        assert(s@.subrange(from as int, to as int).drop_last() =~= s@.subrange(
            from as int,
            to - 1,
        ));
        to -= 1;
    }
    s.substring_char(from, to)
}

/// The delta that AIS gives for a trimmed line.
pub open spec fn ais_delta(
    lines: Seq<Seq<u8>>,
    s: Seq<char>,
    ais_label: Seq<char>,
) -> Option<DeltaView> {
    if takes_in(lines, s) {
        decoded_ais(lines, s, ais_label)
    } else {
        None
    }
}

/// The deltas of a line: those of AIS, else those of a radio call, else that of a
/// standard sentence, of which the parser read `parsed`. A blank line has none.
pub open spec fn line_deltas(
    lines: Seq<Seq<u8>>,
    ais_label: Seq<char>,
    line: Seq<char>,
    call: Option<DscCall>,
    parsed: Option<Parsed>,
    read: Option<Sentence>,
    label: Seq<char>,
) -> Seq<DeltaView> {
    let s = trimmed(line);
    if s.len() == 0 {
        Seq::empty()
    } else {
        match ais_delta(lines, s, ais_label) {
            Some(d) => seq![d],
            None => match decoded_dsc(s, call, label) {
                Some(deltas) => deltas,
                None => match text_delta(s, parsed, read, label) {
                    Some(d) => seq![d],
                    None => Seq::empty(),
                },
            },
        }
    }
}

/// The lines that an AIS decoder took in after one more line.
pub open spec fn lines_after(lines: Seq<Seq<u8>>, line: Seq<char>) -> Seq<Seq<u8>> {
    let s = trimmed(line);
    if s.len() > 0 && takes_in(lines, s) {
        lines.push(encode_utf8(s))
    } else {
        lines
    }
}

/// Handles a received line. `call` is what was read from the line, if it is a radio call.
/// `read` is what a reader of further kinds of sentences made of it; it counts where the
/// parser reads nothing.
pub fn handle_line(
    decoder: &mut AisDecoder,
    line: &str,
    call: Option<&DscCall>,
    read: Option<&Sentence>,
    source_label: &str,
) -> (out: Vec<Delta>)
    ensures
        exists|parsed: Option<Parsed>| #[trigger]
            reads_as(trimmed(line@), parsed) && out@.map_values(|d: Delta| d@) == line_deltas(
                old(decoder).lines(),
                old(decoder).label(),
                line@,
                match call {
                    Some(c) => Some(*c),
                    None => None,
                },
                parsed,
                match read {
                    Some(s) => Some(*s),
                    None => None,
                },
                source_label@,
            ),
        final(decoder).lines() == lines_after(old(decoder).lines(), line@),
        final(decoder).label() == old(decoder).label(),
{
    let sentence = trim(line);
    assert(reads_as(sentence@, nmea_parsed(sentence@)));
    let mut out: Vec<Delta> = Vec::new();
    if sentence.is_empty() {
        assert(out@.map_values(|d: Delta| d@) =~= Seq::empty());
        return out;
    }
    if let Some(delta) = decoder.try_decode(sentence) {
        out.push(delta);
        assert(out@.map_values(|d: Delta| d@) =~= seq![delta@]);
        return out;
    }
    if let Some(deltas) = try_decode_dsc(sentence, call, source_label) {
        return deltas;
    }
    if let Some(delta) = sentence_to_delta(sentence, read, source_label) {
        out.push(delta);
        assert(out@.map_values(|d: Delta| d@) =~= seq![delta@]);
        return out;
    }
    assert(out@.map_values(|d: Delta| d@) =~= Seq::empty());
    out
}

} // verus!
