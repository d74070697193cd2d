//! AIS decoder: from sentences to deltas of other vessels.
use crate::nmea0183::ais_parse::{
    ais_message_of, ais_part_of, decode, feed, follows, last_fragment, new_parser, parser_lines,
    read_fragment_fields,
};
use crate::nmea0183::ais_report::{message_contact, message_to_contact};
use crate::signalk::{nmea0183_source, opt_delta, Delta, DeltaView, Source};
use crate::text::{contains, occurs_in};
use ais::AisParser;
use vstd::prelude::*;
use vstd::utf8::encode_utf8;

verus! {

/// Decoder of AIS sentences. A message can come in several sentences, so the decoder
/// keeps the fragments of an unfinished one.
pub struct AisDecoder {
    parser: AisParser,
    source_label: String,
    last: u8,
}

/// The sentence is one of AIS.
pub open spec fn mentions_ais(sentence: Seq<char>) -> bool {
    occurs_in(sentence, "VDM"@) || occurs_in(sentence, "VDO"@)
}

/// A decoder that took in the given lines takes in this sentence.
pub open spec fn takes_in(lines: Seq<Seq<u8>>, sentence: Seq<char>) -> bool {
    mentions_ais(sentence) && follows(encode_utf8(sentence), last_fragment(lines))
}

/// What comes of a sentence that was taken in after the given lines: the delta of a vessel,
/// if it completes a message of a kind that is understood.
pub open spec fn decoded_ais(
    lines: Seq<Seq<u8>>,
    sentence: Seq<char>,
    label: Seq<char>,
) -> Option<DeltaView> {
    match ais_part_of(lines, encode_utf8(sentence)) {
        Some(part) => if part.complete {
            match ais_message_of(part.data, part.fill_bit_count) {
                Some(m) => Some(message_contact(m).delta(nmea0183_source(label, "AI"@))),
                None => None,
            }
        } else {
            None
        },
        None => None,
    }
}

impl AisDecoder {
    /// The lines that the decoder took in, in order.
    pub closed spec fn lines(&self) -> Seq<Seq<u8>> {
        parser_lines(self.parser)
    }

    /// The label of the source.
    pub closed spec fn label(&self) -> Seq<char> {
        self.source_label@
    }

    /// The decoder knows the number of the last fragment.
    #[verifier::type_invariant]
    spec fn well_formed(self) -> bool {
        self.last == last_fragment(parser_lines(self.parser))
    }

    pub fn new(source_label: &str) -> (r: Self)
        ensures
            r.lines() == Seq::<Seq<u8>>::empty(),
            r.label() == source_label@,
    {
        AisDecoder { parser: new_parser(), source_label: source_label.to_string(), last: 0 }
    }

    /// Takes in a sentence. A delta comes back when it completes a message of a kind that
    /// is understood. Sentences that are not of AIS, or whose fragment number falls back
    /// behind the last one, are passed over.
    pub fn try_decode(&mut self, sentence: &str) -> (r: Option<Delta>)
        ensures
            final(self).label() == old(self).label(),
            if takes_in(old(self).lines(), sentence@) {
                &&& final(self).lines() == old(self).lines().push(encode_utf8(sentence@))
                &&& opt_delta(r) == decoded_ais(old(self).lines(), sentence@, old(self).label())
            } else {
                &&& final(self).lines() == old(self).lines()
                &&& r is None
            },
    {
        proof {
            use_type_invariant(&*self);
        }
        if !contains(sentence, "VDM") && !contains(sentence, "VDO") {
            return None;
        }
        let line = sentence.as_bytes();
        if let Some((count, n)) = read_fragment_fields(line) {
            if !(n >= self.last || (n >= 1 && count == 1) || (n == 1 && count > 1)) {
                return None;
            }
        }
        let mut decoder = AisDecoder::new("");
        std::mem::swap(self, &mut decoder);
        let AisDecoder { mut parser, source_label, mut last } = decoder;
        let ghost before = parser_lines(parser);
        let fed = feed(&mut parser, line);
        proof {
            assert(parser_lines(parser).drop_last() =~= before);
            assert(parser_lines(parser).last() == line@);
        }
        if let Some(part) = &fed {
            if !(part.complete && part.num_fragments == 1) {
                last = part.fragment_number;
            }
        }
        *self = AisDecoder { parser, source_label, last };
        let part = match fed {
            Some(p) => p,
            None => {
                return None;
            },
        };
        if !part.complete {
            return None;
        }
        match decode(part.data.as_slice(), part.fill_bit_count) {
            Some(m) => {
                let contact = message_to_contact(&m);
                Some(contact.to_delta(Source::nmea0183(self.source_label.as_str(), "AI")))
            },
            None => None,
        }
    }
}

/// A fragment that does not complete its message gives nothing.
pub proof fn incomplete_gives_nothing(
    lines: Seq<Seq<u8>>,
    sentence: Seq<char>,
    label: Seq<char>,
)
    requires
        ais_part_of(lines, encode_utf8(sentence)) matches Some(part) && !part.complete,
    ensures
        decoded_ais(lines, sentence, label) is None,
{
}

} // verus!
