//! The European Transparency and Consent Framework section, version 1.
//!
//! See the "Consent string and vendor list formats v1.1" of the framework.
use vstd::prelude::*;
use std::collections::BTreeSet;
use crate::encoding::{DataReader, ReadError};
use crate::encoding::ranges::{bitfield_set, chars_at, ids_to_set, spec_read_fixed_bitfield, spec_read_integer_range};
use crate::sections::{DecodableSection, SectionId, parse_base64_str, spec_parse_base64_str, 
    FromDataReader, IdSet, SectionDecodeError, SectionDecodeErrorView, SectionStep, bits_at, lift, lift_step, read_version,
    signed_seconds, signed_seconds_at, spec_read_version, u16_at, u8_at,
};

verus! {

broadcast use {vstd::laws_cmp::group_laws_cmp, vstd::std_specs::btree::group_btree_axioms};

/// The European TCF section of version 1.
#[derive(Debug, Eq, PartialEq)]
pub struct TcfEuV1 {
    pub created: i64,
    pub last_updated: i64,
    pub cmp_id: u16,
    pub cmp_version: u16,
    pub consent_screen: u8,
    pub consent_language: String,
    pub vendor_list_version: u16,
    pub purposes_allowed: IdSet,
    pub vendor_consents: IdSet,
}

/// A decoded section, its text and sets as mathematical values.
pub struct TcfEuV1View {
    pub created: i64,
    pub last_updated: i64,
    pub cmp_id: u16,
    pub cmp_version: u16,
    pub consent_screen: u8,
    pub consent_language: Seq<char>,
    pub vendor_list_version: u16,
    pub purposes_allowed: Set<u16>,
    pub vendor_consents: Set<u16>,
}

impl View for TcfEuV1 {
    type V = TcfEuV1View;

    open spec fn view(&self) -> TcfEuV1View {
        TcfEuV1View {
            created: self.created,
            last_updated: self.last_updated,
            cmp_id: self.cmp_id,
            cmp_version: self.cmp_version,
            consent_screen: self.consent_screen,
            consent_language: self.consent_language@,
            vendor_list_version: self.vendor_list_version,
            purposes_allowed: self.purposes_allowed@,
            vendor_consents: self.vendor_consents@,
        }
    }
}

/// The vendors from 1 to `max_vendor_id` that consent: those listed when
/// consent is not given by default, those not listed when it is.
pub open spec fn consenting_vendors(max_vendor_id: nat, default_consent: bool, listed: Set<u16>) -> Set<u16> {
    Set::new(|id: u16| 1 <= id <= max_vendor_id && (default_consent != listed.contains(id)))
}

/// Reading the vendor consents: the highest vendor identifier (16 bits) and
/// a bit choosing the encoding; either a bit field with one bit per vendor,
/// or a default consent bit followed by an integer range of the vendors that
/// do not follow the default.
pub open spec fn spec_read_vendor_consents(bits: Seq<bool>, end: ReadError, pos: int) -> SectionStep<Set<u16>> {
    if pos + 17 > bits.len() {
        Err(SectionDecodeErrorView::Read(end))
    } else {
        let max_vendor_id = bits_at(bits, pos, 16);
        if !bits[pos + 16] {
            lift_step(spec_read_fixed_bitfield(bits, end, pos + 17, max_vendor_id as int))
        } else if pos + 18 > bits.len() {
            Err(SectionDecodeErrorView::Read(end))
        } else {
            match lift_step(spec_read_integer_range(bits, end, pos + 18)) {
                Err(e) => Err(e),
                Ok((ids, p)) => Ok((consenting_vendors(max_vendor_id, bits[pos + 17], ids.to_set()), p)),
            }
        }
    }
}

/// Reads the vendor consents.
pub fn parse_vendor_consents(r: &mut DataReader) -> (res: Result<IdSet, SectionDecodeError>)
    requires
        old(r).wf(),
    ensures
        final(r).wf(),
        final(r).spec_bits() == old(r).spec_bits(),
        final(r).spec_end() == old(r).spec_end(),
        match spec_read_vendor_consents(old(r).spec_bits(), old(r).spec_end(), old(r).spec_pos()) {
            Ok((v, p)) => res matches Ok(x) && x@ == v && final(r).spec_pos() == p,
            Err(e) => res matches Err(x) && x@ == e,
        },
{
    let max_vendor_id = r.read_u16_field(16)?;
    let is_range = lift(r.read_bool())?;
    if is_range {
        // range section
        let default_consent = lift(r.read_bool())?;
        let listed = lift(r.read_integer_range())?;
        let ids = ids_to_set(&listed);
        // only the vendors who consent, depending on the default consent
        let mut result: BTreeSet<u16> = BTreeSet::new();
        let mut id: u32 = 1;
        while id <= max_vendor_id as u32
            invariant
                1 <= id <= max_vendor_id + 1,
                max_vendor_id <= 0xffff,
                result@ == Set::new(|v: u16| 1 <= v < id && (default_consent != ids@.contains(v))),
            decreases max_vendor_id + 1 - id,
        {
            let v = id as u16;
            if default_consent != ids.contains(&v) {
                result.insert(v);
            }
            proof {
                assert(result@ =~= Set::new(|x: u16| 1 <= x < id + 1 && (default_consent != ids@.contains(x))));
            }
            id = id + 1;
        }
        proof {
            assert(result@ =~= consenting_vendors(max_vendor_id as nat, default_consent, ids@));
        }
        Ok(result)
    } else {
        // bitfield section
        lift(r.read_fixed_bitfield(max_vendor_id as usize))
    }
}

impl FromDataReader for TcfEuV1 {
    /// The version (1); fixed-size fields over 150 bits: two timestamps, the
    /// CMP identifier and version, the consent screen, a two-letter language,
    /// the vendor list version and a bit field of the allowed purposes; then
    /// the vendor consents.
    open spec fn spec_read(bits: Seq<bool>, end: ReadError, pos: int) -> SectionStep<TcfEuV1View> {
        match spec_read_version(bits, end, pos, 1) {
            Err(e) => Err(e),
            Ok((_, p)) => if p + 150 > bits.len() {
                Err(SectionDecodeErrorView::Read(end))
            } else {
                match spec_read_vendor_consents(bits, end, p + 150) {
                    Err(e) => Err(e),
                    Ok((vendors, q)) => Ok(
                        (
                            TcfEuV1View {
                                created: signed_seconds_at(bits, p),
                                last_updated: signed_seconds_at(bits, p + 36),
                                cmp_id: u16_at(bits, p + 72, 12),
                                cmp_version: u16_at(bits, p + 84, 12),
                                consent_screen: u8_at(bits, p + 96, 6),
                                consent_language: chars_at(bits, p + 102, 2),
                                vendor_list_version: u16_at(bits, p + 114, 12),
                                purposes_allowed: bitfield_set(bits, p + 126, 24),
                                vendor_consents: vendors,
                            },
                            q,
                        ),
                    ),
                }
            },
        }
    }

    proof fn lemma_read_supported(bits: Seq<bool>, end: ReadError, pos: int) {
    }

    fn from_data_reader(r: &mut DataReader) -> (res: Result<TcfEuV1, SectionDecodeError>) {
        read_version(r, 1)?;
        let created = lift(r.read_datetime_as_unix_timestamp())?;
        let last_updated = lift(r.read_datetime_as_unix_timestamp())?;
        let cmp_id = r.read_u16_field(12)?;
        let cmp_version = r.read_u16_field(12)?;
        let consent_screen = r.read_u8_field(6)?;
        let consent_language = lift(r.read_string(2))?;
        let vendor_list_version = r.read_u16_field(12)?;
        let purposes_allowed = lift(r.read_fixed_bitfield(24))?;
        let vendor_consents = parse_vendor_consents(r)?;
        Ok(TcfEuV1 {
            created: signed_seconds(created),
            last_updated: signed_seconds(last_updated),
            cmp_id,
            cmp_version,
            consent_screen,
            consent_language,
            vendor_list_version,
            purposes_allowed,
            vendor_consents,
        })
    }
}

impl DecodableSection for TcfEuV1 {
    const ID: SectionId = SectionId::TcfEuV1;

    open spec fn spec_decode(s: Seq<char>) -> Result<TcfEuV1View, SectionDecodeErrorView> {
        spec_parse_base64_str::<TcfEuV1>(s)
    }

    proof fn lemma_decode_supported(s: Seq<char>) {
        crate::sections::lemma_base64_supported::<TcfEuV1>(s);
    }

    fn decode_str(s: &str) -> (r: Result<TcfEuV1, SectionDecodeError>) {
        parse_base64_str(s)
    }
}

impl std::str::FromStr for TcfEuV1 {
    type Err = SectionDecodeError;

    fn from_str(s: &str) -> (r: Result<TcfEuV1, SectionDecodeError>)
        ensures
            crate::sections::result_view(r) == TcfEuV1::spec_decode(s@),
    {
        TcfEuV1::decode_str(s)
    }
}

/// Where each field of a TCF EU v1 section read at `pos` comes from: after
/// the 6-bit version (1), the fixed-size fields at their places over the next
/// 150 bits, then the vendor consents.
pub proof fn lemma_section_layout(bits: Seq<bool>, end: ReadError, pos: int)
    requires
        0 <= pos,
        TcfEuV1::spec_read(bits, end, pos) is Ok,
    ensures
        ({
            let v = TcfEuV1::spec_read(bits, end, pos)->Ok_0.0;
            let p = pos + 6;
            &&& bits_at(bits, pos, 6) == 1
            &&& v.created == signed_seconds_at(bits, p)
            &&& v.last_updated == signed_seconds_at(bits, p + 36)
            &&& v.cmp_id == u16_at(bits, p + 72, 12)
            &&& v.cmp_version == u16_at(bits, p + 84, 12)
            &&& v.consent_screen == u8_at(bits, p + 96, 6)
            &&& v.consent_language == chars_at(bits, p + 102, 2)
            &&& v.vendor_list_version == u16_at(bits, p + 114, 12)
            &&& v.purposes_allowed == bitfield_set(bits, p + 126, 24)
            &&& spec_read_vendor_consents(bits, end, p + 150) is Ok
            &&& v.vendor_consents == spec_read_vendor_consents(bits, end, p + 150)->Ok_0.0
        }),
{
}

} // verus!
