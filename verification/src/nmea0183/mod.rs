//! NMEA 0183 input: sentences, radio calls and AIS messages.
pub mod ais_report;
pub mod ais_decode;
pub mod ais_parse;
pub mod dsc;
pub mod input;
pub mod laws;
pub mod parse;

use crate::nmea0183::parse::{dbs_parsed, parse, parse_dbs, reads_as, Parsed};
use crate::sentences::course::{
    bod_entries, bwc_entries, from_bod, from_bwc, from_rmb, from_xte, rmb_entries, xte_entries,
    BodData, BwcData, RmbData, XteData,
};
use crate::sentences::depth::{
    dbk_entries, dbs_entries, dbt_entries, dpt_entries, from_dbk, from_dbs, from_dbt, from_dpt,
    DbkData, DbsData, DbtData, DptData,
};
use crate::sentences::environment::{
    from_mda, from_mtw, from_vdr, from_vlw, mda_entries, mtw_entries, vdr_entries, vlw_entries,
    MdaData, MtwData, VdrData, VlwData,
};
use crate::sentences::gnss::{
    from_gns, from_gsa, from_zda, gns_entries, gsa_entries, zda_entries, GnsData, GsaData, ZdaData,
};
use crate::sentences::heading::{
    from_hdg, from_hdm, from_hdt, from_rot, from_vhw, hdg_entries, hdm_entries, hdt_entries,
    rot_entries, vhw_entries, HdgData, HdmData, HdtData, RotData, VhwData,
};
use crate::sentences::position::{
    from_gga, from_gll, from_rmc, from_vtg, gga_entries, gll_entries, rmc_entries, vtg_entries,
    GgaData, GllData, RmcData, VtgData,
};
use crate::sentences::propulsion::{
    from_rpm, from_rsa, rpm_entries, rsa_entries, RpmData, RsaData,
};
use crate::sentences::wind::{
    from_mwd, from_mwv, from_vwr, from_vwt, mwd_entries, mwv_entries, vwr_entries, vwt_entries,
    MwdData, MwvData, VwrData, VwtData,
};
use crate::signalk::{
    entries, nmea0183_source, opt_delta, self_delta_view, Delta, DeltaView, Entry, PathValue,
    Source,
};
use crate::text::{after, chars_of, strip_prefix};
use crate::xdr::{from_xdr, xdr_entries, XdrData};
use vstd::prelude::*;
use vstd::string::*;

verus! {

// ---------------------------------------------------------------------------
// Configuration
// ---------------------------------------------------------------------------

/// Configuration of the TCP input.
#[derive(Debug, Clone)]
pub struct TcpConfig {
    /// Bind address (host:port).
    pub addr: String,
    /// Source label of the deltas.
    pub source_label: String,
}

impl Default for TcpConfig {
    fn default() -> (r: Self)
        ensures
            r.addr@ == "0.0.0.0:10110"@,
            r.source_label@ == "nmea0183-tcp"@,
    {
        TcpConfig { addr: default_tcp_addr(), source_label: default_tcp_source_label() }
    }
}

pub fn default_tcp_addr() -> (r: String)
    ensures
        r@ == "0.0.0.0:10110"@,
{
    "0.0.0.0:10110".to_string()
}

pub fn default_tcp_source_label() -> (r: String)
    ensures
        r@ == "nmea0183-tcp"@,
{
    "nmea0183-tcp".to_string()
}

/// Configuration of the serial input.
#[derive(Debug, Clone)]
pub struct SerialConfig {
    /// Path of the serial device.
    pub path: String,
    /// Baud rate: 4800 by the standard, 38400 for fast multiplexers.
    pub baud_rate: u32,
    /// Source label of the deltas.
    pub source_label: String,
}

pub fn default_baud_rate() -> (r: u32)
    ensures
        r == 4800,
{
    4800
}

pub fn default_serial_source_label() -> (r: String)
    ensures
        r@ == "nmea0183-serial"@,
{
    "nmea0183-serial".to_string()
}

// ---------------------------------------------------------------------------
// Sentences
// ---------------------------------------------------------------------------

/// A sentence that is understood.
#[derive(Debug)]
pub enum Sentence {
    Rmc(RmcData),
    Gga(GgaData),
    Vtg(VtgData),
    Hdt(HdtData),
    Mwv(MwvData),
    Dpt(DptData),
    Hdg(HdgData),
    Hdm(HdmData),
    Vhw(VhwData),
    Mtw(MtwData),
    Rot(RotData),
    Mda(MdaData),
    Mwd(MwdData),
    Rsa(RsaData),
    Rpm(RpmData),
    Gll(GllData),
    Dbt(DbtData),
    Dbs(DbsData),
    Dbk(DbkData),
    Vdr(VdrData),
    Vlw(VlwData),
    Vwr(VwrData),
    Vwt(VwtData),
    Rmb(RmbData),
    Bwc(BwcData),
    Bod(BodData),
    Xte(XteData),
    Gsa(GsaData),
    Gns(GnsData),
    Zda(ZdaData),
    Xdr(XdrData),
}

/// The sentence that was parsed. `depths` are those of a DBS sentence.
pub open spec fn as_sentence(p: Parsed, depths: Option<DbsData>) -> Option<Sentence> {
    match p {
        Parsed::Rmc(d) => Some(Sentence::Rmc(d)),
        Parsed::Gga(d) => Some(Sentence::Gga(d)),
        Parsed::Vtg(d) => Some(Sentence::Vtg(d)),
        Parsed::Hdt(d) => Some(Sentence::Hdt(d)),
        Parsed::Mwv(d) => Some(Sentence::Mwv(d)),
        Parsed::Dpt(d) => Some(Sentence::Dpt(d)),
        Parsed::Vhw(d) => Some(Sentence::Vhw(d)),
        Parsed::Mtw(d) => Some(Sentence::Mtw(d)),
        Parsed::Mda(d) => Some(Sentence::Mda(d)),
        Parsed::Gll(d) => Some(Sentence::Gll(d)),
        Parsed::Dbk(d) => Some(Sentence::Dbk(d)),
        Parsed::Bwc(d) => Some(Sentence::Bwc(d)),
        Parsed::Bod(d) => Some(Sentence::Bod(d)),
        Parsed::Gsa(d) => Some(Sentence::Gsa(d)),
        Parsed::Gns(d) => Some(Sentence::Gns(d)),
        Parsed::Zda(d) => Some(Sentence::Zda(d)),
        Parsed::Dbs => match depths {
            Some(d) => Some(Sentence::Dbs(d)),
            None => None,
        },
    }
}

/// The sentence that was parsed. `depths` are those of a DBS sentence.
pub fn sentence_of(p: Parsed, depths: Option<DbsData>) -> (r: Option<Sentence>)
    ensures
        r == as_sentence(p, depths),
{
    match p {
        Parsed::Rmc(d) => Some(Sentence::Rmc(d)),
        Parsed::Gga(d) => Some(Sentence::Gga(d)),
        Parsed::Vtg(d) => Some(Sentence::Vtg(d)),
        Parsed::Hdt(d) => Some(Sentence::Hdt(d)),
        Parsed::Mwv(d) => Some(Sentence::Mwv(d)),
        Parsed::Dpt(d) => Some(Sentence::Dpt(d)),
        Parsed::Vhw(d) => Some(Sentence::Vhw(d)),
        Parsed::Mtw(d) => Some(Sentence::Mtw(d)),
        Parsed::Mda(d) => Some(Sentence::Mda(d)),
        Parsed::Gll(d) => Some(Sentence::Gll(d)),
        Parsed::Dbk(d) => Some(Sentence::Dbk(d)),
        Parsed::Bwc(d) => Some(Sentence::Bwc(d)),
        Parsed::Bod(d) => Some(Sentence::Bod(d)),
        Parsed::Gsa(d) => Some(Sentence::Gsa(d)),
        Parsed::Gns(d) => Some(Sentence::Gns(d)),
        Parsed::Zda(d) => Some(Sentence::Zda(d)),
        Parsed::Dbs => match depths {
            Some(d) => Some(Sentence::Dbs(d)),
            None => None,
        },
    }
}

/// What a sentence says, as Signal K data.
pub open spec fn sentence_entries(s: Sentence) -> Seq<Entry> {
    match s {
        Sentence::Rmc(d) => rmc_entries(d),
        Sentence::Gga(d) => gga_entries(d),
        Sentence::Vtg(d) => vtg_entries(d),
        Sentence::Hdt(d) => hdt_entries(d),
        Sentence::Mwv(d) => mwv_entries(d),
        Sentence::Dpt(d) => dpt_entries(d),
        Sentence::Hdg(d) => hdg_entries(d),
        Sentence::Hdm(d) => hdm_entries(d),
        Sentence::Vhw(d) => vhw_entries(d),
        Sentence::Mtw(d) => mtw_entries(d),
        Sentence::Rot(d) => rot_entries(d),
        Sentence::Mda(d) => mda_entries(d),
        Sentence::Mwd(d) => mwd_entries(d),
        Sentence::Rsa(d) => rsa_entries(d),
        Sentence::Rpm(d) => rpm_entries(d),
        Sentence::Gll(d) => gll_entries(d),
        Sentence::Dbt(d) => dbt_entries(d),
        Sentence::Dbs(d) => dbs_entries(d),
        Sentence::Dbk(d) => dbk_entries(d),
        Sentence::Vdr(d) => vdr_entries(d),
        Sentence::Vlw(d) => vlw_entries(d),
        Sentence::Vwr(d) => vwr_entries(d),
        Sentence::Vwt(d) => vwt_entries(d),
        Sentence::Rmb(d) => rmb_entries(d),
        Sentence::Bwc(d) => bwc_entries(d),
        Sentence::Bod(d) => bod_entries(d),
        Sentence::Xte(d) => xte_entries(d),
        Sentence::Gsa(d) => gsa_entries(d),
        Sentence::Gns(d) => gns_entries(d),
        Sentence::Zda(d) => zda_entries(d),
        Sentence::Xdr(d) => xdr_entries(d@),
    }
}

/// What a sentence says, as Signal K data.
pub fn from_sentence(s: &Sentence) -> (out: Vec<PathValue>)
    ensures
        entries(out@) == sentence_entries(*s),
{
    match s {
        Sentence::Rmc(d) => from_rmc(d),
        Sentence::Gga(d) => from_gga(d),
        Sentence::Vtg(d) => from_vtg(d),
        Sentence::Hdt(d) => from_hdt(d),
        Sentence::Mwv(d) => from_mwv(d),
        Sentence::Dpt(d) => from_dpt(d),
        Sentence::Hdg(d) => from_hdg(d),
        Sentence::Hdm(d) => from_hdm(d),
        Sentence::Vhw(d) => from_vhw(d),
        Sentence::Mtw(d) => from_mtw(d),
        Sentence::Rot(d) => from_rot(d),
        Sentence::Mda(d) => from_mda(d),
        Sentence::Mwd(d) => from_mwd(d),
        Sentence::Rsa(d) => from_rsa(d),
        Sentence::Rpm(d) => from_rpm(d),
        Sentence::Gll(d) => from_gll(d),
        Sentence::Dbt(d) => from_dbt(d),
        Sentence::Dbs(d) => from_dbs(d),
        Sentence::Dbk(d) => from_dbk(d),
        Sentence::Vdr(d) => from_vdr(d),
        Sentence::Vlw(d) => from_vlw(d),
        Sentence::Vwr(d) => from_vwr(d),
        Sentence::Vwt(d) => from_vwt(d),
        Sentence::Rmb(d) => from_rmb(d),
        Sentence::Bwc(d) => from_bwc(d),
        Sentence::Bod(d) => from_bod(d),
        Sentence::Xte(d) => from_xte(d),
        Sentence::Gsa(d) => from_gsa(d),
        Sentence::Gns(d) => from_gns(d),
        Sentence::Zda(d) => from_zda(d),
        Sentence::Xdr(d) => from_xdr(d),
    }
}

/// Bytes that a character takes in UTF-8.
#[verifier::allow_in_spec]
pub fn width(c: char) -> (r: usize)
    returns
        (if (c as u32) < 0x80 {
            1usize
        } else if (c as u32) < 0x800 {
            2usize
        } else if (c as u32) < 0x1_0000 {
            3usize
        } else {
            4usize
        }),
{
    if (c as u32) < 0x80 {
        1
    } else if (c as u32) < 0x800 {
        2
    } else if (c as u32) < 0x1_0000 {
        3
    } else {
        4
    }
}

/// The characters that make up the first two bytes of a text, if some do.
pub open spec fn first_two_bytes(s: Seq<char>) -> Option<Seq<char>> {
    if s.len() >= 1 && width(s[0]) == 2 {
        Some(s.take(1))
    } else if s.len() >= 2 && width(s[0]) == 1 && width(s[1]) == 1 {
        Some(s.take(2))
    } else {
        None
    }
}

/// The talker of a sentence: the two letters after the dollar sign, or `UN`.
pub open spec fn talker_of(raw: Seq<char>) -> Seq<char> {
    match after(raw, "$"@) {
        Some(rest) => match first_two_bytes(rest) {
            Some(t) => t,
            None => "UN"@,
        },
        None => "UN"@,
    }
}

/// The talker of a sentence: the two letters after the dollar sign, or `UN`.
pub fn talker(raw: &str) -> (r: String)
    ensures
        r@ == talker_of(raw@),
{
    let rest = match strip_prefix(raw, "$") {
        Some(rest) => rest,
        None => {
            return "UN".to_string();
        },
    };
    let chars = chars_of(rest);
    if chars.len() >= 1 && width(chars[0]) == 2 {
        let t = rest.substring_char(0, 1);
        assert(t@ =~= rest@.take(1));
        t.to_string()
    } else if chars.len() >= 2 && width(chars[0]) == 1 && width(chars[1]) == 1 {
        let t = rest.substring_char(0, 2);
        assert(t@ =~= rest@.take(2));
        t.to_string()
    } else {
        "UN".to_string()
    }
}

/// The delta of a sentence that was read from `raw`. A sentence that says nothing has
/// none.
pub open spec fn sentence_delta(
    s: Sentence,
    raw: Seq<char>,
    label: Seq<char>,
) -> Option<DeltaView> {
    let values = sentence_entries(s);
    if values.len() == 0 {
        None
    } else {
        Some(self_delta_view(nmea0183_source(label, talker_of(raw)), values))
    }
}

/// The delta of a sentence that was read from `raw`.
pub fn parsed_to_delta(sentence: &Sentence, raw: &str, source_label: &str) -> (r: Option<Delta>)
    ensures
        opt_delta(r) == sentence_delta(*sentence, raw@, source_label@),
{
    let values = from_sentence(sentence);
    assert(entries(values@).len() == values@.len());
    if values.len() == 0 {
        return None;
    }
    let t = talker(raw);
    Some(Delta::self_vessel(Source::nmea0183(source_label, t.as_str()), values))
}

/// The sentence that the parser read from a text, or else the one that was read otherwise.
pub open spec fn sentence_read(
    parsed: Option<Parsed>,
    depths: Option<DbsData>,
    read: Option<Sentence>,
) -> Option<Sentence> {
    match parsed {
        Some(p) => match as_sentence(p, depths) {
            Some(s) => Some(s),
            None => read,
        },
        None => read,
    }
}

/// The delta of a text. There is none where no sentence was read or it says nothing.
pub open spec fn text_delta(
    raw: Seq<char>,
    parsed: Option<Parsed>,
    read: Option<Sentence>,
    label: Seq<char>,
) -> Option<DeltaView> {
    match sentence_read(parsed, dbs_parsed(raw), read) {
        Some(s) => sentence_delta(s, raw, label),
        None => None,
    }
}

/// Parses a sentence and gives its delta. `read` is what a reader of further kinds of
/// sentences made of the text; it counts where the parser reads nothing. There is no delta
/// where neither reads a sentence or it says nothing.
pub fn sentence_to_delta(raw: &str, read: Option<&Sentence>, source_label: &str) -> (r: Option<
    Delta,
>)
    ensures
        exists|parsed: Option<Parsed>| #[trigger]
            reads_as(raw@, parsed) && opt_delta(r) == text_delta(
                raw@,
                parsed,
                match read {
                    Some(s) => Some(*s),
                    None => None,
                },
                source_label@,
            ),
{
    let parsed = parse(raw);
    assert(reads_as(raw@, parsed));
    if let Some(p) = parsed {
        let depths = match p {
            Parsed::Dbs => match parse_dbs(raw) {
                Some(d) => Some(d.canonical()),
                None => None,
            },
            _ => None,
        };
        if let Some(s) = sentence_of(p, depths) {
            return parsed_to_delta(&s, raw, source_label);
        }
    }
    match read {
        Some(s) => parsed_to_delta(s, raw, source_label),
        None => None,
    }
}

} // verus!
