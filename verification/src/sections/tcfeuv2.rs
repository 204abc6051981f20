//! The European Transparency and Consent Framework section, version 2.
use vstd::prelude::*;
use crate::encoding::{DataReader, ReadError};
use crate::encoding::ranges::{GenericRange, Range, bitfield_set, chars_at, ranges_view, spec_read_optimized_integer_range, spec_read_ranges};
use crate::sections::{DecodableSection, SectionId, parse_segmented_str, spec_parse_segmented_str, 
    FromDataReader, IdSet, OptionalSegmentParser, SectionDecodeError, SectionDecodeErrorView, SectionStep, bits_at, lift,
    lift_step, read_version, sread, seconds_at, spec_read_version, u16_at, u8_at,
};

verus! {

broadcast use {vstd::laws_cmp::group_laws_cmp, vstd::std_specs::btree::group_btree_axioms};

/// The European TCF section: its core segment and the optional disclosed
/// vendors, allowed vendors and publisher purposes segments.
#[derive(Debug, Eq, PartialEq)]
pub struct TcfEuV2 {
    pub core: Core,
    pub disclosed_vendors: Option<IdSet>,
    pub allowed_vendors: Option<IdSet>,
    pub publisher_purposes: Option<PublisherPurposes>,
}

/// The core segment.
#[derive(Debug, Eq, PartialEq)]
pub struct Core {
    pub created: u64,
    pub last_updated: u64,
    pub cmp_id: u16,
    pub cmp_version: u16,
    pub consent_screen: u8,
    pub consent_language: String,
    pub vendor_list_version: u16,
    pub policy_version: u8,
    pub is_service_specific: bool,
    pub use_non_standard_stacks: bool,
    pub special_feature_optins: IdSet,
    pub purpose_consents: IdSet,
    pub purpose_legitimate_interests: IdSet,
    pub purpose_one_treatment: bool,
    pub publisher_country_code: String,
    pub vendor_consents: IdSet,
    pub vendor_legitimate_interests: IdSet,
    pub publisher_restrictions: Vec<PublisherRestriction>,
}

/// A restriction that the publisher puts on the vendors for one purpose.
#[derive(Debug, Eq, PartialEq)]
pub struct PublisherRestriction {
    pub purpose_id: u8,
    pub restriction_type: RestrictionType,
    pub restricted_vendor_ids: IdSet,
}

/// The kind of a publisher restriction.
#[derive(Clone, Copy, Debug, Eq, PartialEq, Structural)]
pub enum RestrictionType {
    NotAllowed,
    RequireConsent,
    RequireLegitimateInterest,
    Undefined,
}

/// The purposes of the publisher itself.
#[derive(Debug, Eq, PartialEq)]
pub struct PublisherPurposes {
    pub consents: IdSet,
    pub legitimate_interests: IdSet,
    pub custom_consents: IdSet,
    pub custom_legitimate_interests: IdSet,
}

/// A decoded European TCF section, its text and sets as mathematical values.
pub struct TcfEuV2View {
    pub core: CoreView,
    pub disclosed_vendors: Option<Set<u16>>,
    pub allowed_vendors: Option<Set<u16>>,
    pub publisher_purposes: Option<PublisherPurposesView>,
}

/// A decoded core segment, its text and sets as mathematical values.
pub struct CoreView {
    pub created: u64,
    pub last_updated: u64,
    pub cmp_id: u16,
    pub cmp_version: u16,
    pub consent_screen: u8,
    pub consent_language: Seq<char>,
    pub vendor_list_version: u16,
    pub policy_version: u8,
    pub is_service_specific: bool,
    pub use_non_standard_stacks: bool,
    pub special_feature_optins: Set<u16>,
    pub purpose_consents: Set<u16>,
    pub purpose_legitimate_interests: Set<u16>,
    pub purpose_one_treatment: bool,
    pub publisher_country_code: Seq<char>,
    pub vendor_consents: Set<u16>,
    pub vendor_legitimate_interests: Set<u16>,
    pub publisher_restrictions: Seq<PublisherRestrictionView>,
}

/// A publisher restriction with its vendors as a set.
pub struct PublisherRestrictionView {
    pub purpose_id: u8,
    pub restriction_type: RestrictionType,
    pub restricted_vendor_ids: Set<u16>,
}

/// The publisher purposes as sets.
pub struct PublisherPurposesView {
    pub consents: Set<u16>,
    pub legitimate_interests: Set<u16>,
    pub custom_consents: Set<u16>,
    pub custom_legitimate_interests: Set<u16>,
}

impl View for PublisherRestriction {
    type V = PublisherRestrictionView;

    open spec fn view(&self) -> PublisherRestrictionView {
        PublisherRestrictionView {
            purpose_id: self.purpose_id,
            restriction_type: self.restriction_type,
            restricted_vendor_ids: self.restricted_vendor_ids@,
        }
    }
}

/// The views of a sequence of publisher restrictions.
pub open spec fn restrictions_view(s: Seq<PublisherRestriction>) -> Seq<PublisherRestrictionView> {
    s.map_values(|r: PublisherRestriction| r@)
}

impl View for Core {
    type V = CoreView;

    open spec fn view(&self) -> CoreView {
        CoreView {
            created: self.created,
            last_updated: self.last_updated,
            cmp_id: self.cmp_id,
            cmp_version: self.cmp_version,
            consent_screen: self.consent_screen,
            consent_language: self.consent_language@,
            vendor_list_version: self.vendor_list_version,
            policy_version: self.policy_version,
            is_service_specific: self.is_service_specific,
            use_non_standard_stacks: self.use_non_standard_stacks,
            special_feature_optins: self.special_feature_optins@,
            purpose_consents: self.purpose_consents@,
            purpose_legitimate_interests: self.purpose_legitimate_interests@,
            purpose_one_treatment: self.purpose_one_treatment,
            publisher_country_code: self.publisher_country_code@,
            vendor_consents: self.vendor_consents@,
            vendor_legitimate_interests: self.vendor_legitimate_interests@,
            publisher_restrictions: restrictions_view(self.publisher_restrictions@),
        }
    }
}

impl View for PublisherPurposes {
    type V = PublisherPurposesView;

    open spec fn view(&self) -> PublisherPurposesView {
        PublisherPurposesView {
            consents: self.consents@,
            legitimate_interests: self.legitimate_interests@,
            custom_consents: self.custom_consents@,
            custom_legitimate_interests: self.custom_legitimate_interests@,
        }
    }
}

impl View for TcfEuV2 {
    type V = TcfEuV2View;

    open spec fn view(&self) -> TcfEuV2View {
        TcfEuV2View {
            core: self.core@,
            disclosed_vendors: match self.disclosed_vendors {
                Some(s) => Some(s@),
                None => None,
            },
            allowed_vendors: match self.allowed_vendors {
                Some(s) => Some(s@),
                None => None,
            },
            publisher_purposes: match self.publisher_purposes {
                Some(p) => Some(p@),
                None => None,
            },
        }
    }
}

impl RestrictionType {
    /// The restriction type of a 2-bit code; any other code is undefined.
    pub open spec fn spec_from_code(c: nat) -> RestrictionType {
        if c == 0 {
            RestrictionType::NotAllowed
        } else if c == 1 {
            RestrictionType::RequireConsent
        } else if c == 2 {
            RestrictionType::RequireLegitimateInterest
        } else {
            RestrictionType::Undefined
        }
    }

    /// The restriction type of a 2-bit code.
    pub fn from_code(c: u8) -> (r: RestrictionType)
        ensures
            r == Self::spec_from_code(c as nat),
    {
        if c == 0 {
            RestrictionType::NotAllowed
        } else if c == 1 {
            RestrictionType::RequireConsent
        } else if c == 2 {
            RestrictionType::RequireLegitimateInterest
        } else {
            RestrictionType::Undefined
        }
    }
}

/// The publisher restriction that a range read from the data stands for.
pub open spec fn restriction_of(g: (u8, u8, Set<u16>)) -> PublisherRestrictionView {
    PublisherRestrictionView {
        purpose_id: g.0,
        restriction_type: RestrictionType::spec_from_code(g.1 as nat),
        restricted_vendor_ids: g.2,
    }
}

impl From<GenericRange<u8, u8>> for PublisherRestriction {
    fn from(r: GenericRange<u8, u8>) -> (res: PublisherRestriction) {
        PublisherRestriction {
            purpose_id: r.key,
            restriction_type: RestrictionType::from_code(r.range_type),
            restricted_vendor_ids: r.ids,
        }
    }
}

impl vstd::std_specs::convert::FromSpecImpl<GenericRange<u8, u8>> for PublisherRestriction {
    open spec fn obeys_from_spec() -> bool {
        true
    }

    open spec fn from_spec(r: GenericRange<u8, u8>) -> PublisherRestriction {
        PublisherRestriction {
            purpose_id: r.key,
            restriction_type: RestrictionType::spec_from_code(r.range_type as nat),
            restricted_vendor_ids: r.ids,
        }
    }
}

/// Reading the publisher restrictions: an array of ranges, each with an
/// optimized integer range of vendors.
pub open spec fn spec_read_publisher_restrictions(bits: Seq<bool>, end: ReadError, pos: int) -> SectionStep<Seq<PublisherRestrictionView>> {
    match spec_read_ranges(bits, end, pos, 6, 2, true) {
        Ok((v, p)) => Ok((v.map_values(|g: (u8, u8, Set<u16>)| restriction_of(g)), p)),
        Err(e) => Err(SectionDecodeErrorView::Read(e)),
    }
}

/// Reads the publisher restrictions.
pub fn parse_publisher_restrictions(r: &mut DataReader) -> (res: Result<Vec<PublisherRestriction>, SectionDecodeError>)
    requires
        old(r).wf(),
    ensures
        final(r).wf(),
        final(r).spec_bits() == old(r).spec_bits(),
        final(r).spec_end() == old(r).spec_end(),
        match spec_read_publisher_restrictions(old(r).spec_bits(), old(r).spec_end(), old(r).spec_pos()) {
            Ok((v, p)) => res matches Ok(x) && restrictions_view(x@) == v && final(r).spec_pos() == p,
            Err(e) => res matches Err(x) && x@ == e,
        },
{
    let ranges: Vec<Range> = lift(r.read_array_of_ranges())?;
    let ghost gs = ranges_view(ranges@);
    let mut out: Vec<PublisherRestriction> = Vec::new();
    let mut i: usize = 0;
    while i < ranges.len()
        invariant
            i <= ranges@.len(),
            gs == ranges_view(ranges@),
            out@.len() == i,
            forall|j: int| 0 <= j < i ==> #[trigger] out@[j]@ == restriction_of(gs[j]),
        decreases ranges@.len() - i,
    {
        let g = &ranges[i];
        let copy = GenericRange { key: g.key, range_type: g.range_type, ids: g.ids.clone() };
        out.push(PublisherRestriction::from(copy));
        i = i + 1;
    }
    proof {
        assert(restrictions_view(out@) =~= gs.map_values(|g: (u8, u8, Set<u16>)| restriction_of(g)));
    }
    Ok(out)
}

impl FromDataReader for Core {
    /// The version (2); fixed-size fields over 207 bits: two timestamps, the
    /// CMP identifier and version, the consent screen, a two-letter language,
    /// the vendor list and policy versions, two flags, three bit fields, a
    /// flag and a two-letter country code; then two optimized integer ranges
    /// and the publisher restrictions.
    open spec fn spec_read(bits: Seq<bool>, end: ReadError, pos: int) -> SectionStep<CoreView> {
        match spec_read_version(bits, end, pos, 2) {
            Err(e) => Err(e),
            Ok((_, p)) => if p + 207 > bits.len() {
                Err(SectionDecodeErrorView::Read(end))
            } else {
                match lift_step(spec_read_optimized_integer_range(bits, end, p + 207)) {
                    Err(e) => Err(e),
                    Ok((consents, q1)) => match lift_step(spec_read_optimized_integer_range(bits, end, q1)) {
                        Err(e) => Err(e),
                        Ok((interests, q2)) => match spec_read_publisher_restrictions(bits, end, q2) {
                            Err(e) => Err(e),
                            Ok((restrictions, q3)) => Ok(
                                (
                                    CoreView {
                                        created: seconds_at(bits, p),
                                        last_updated: seconds_at(bits, p + 36),
                                        cmp_id: u16_at(bits, p + 72, 12),
                                        cmp_version: u16_at(bits, p + 84, 12),
                                        consent_screen: u8_at(bits, p + 96, 6),
                                        consent_language: chars_at(bits, p + 102, 2),
                                        vendor_list_version: u16_at(bits, p + 114, 12),
                                        policy_version: u8_at(bits, p + 126, 6),
                                        is_service_specific: bits[p + 132],
                                        use_non_standard_stacks: bits[p + 133],
                                        special_feature_optins: bitfield_set(bits, p + 134, 12),
                                        purpose_consents: bitfield_set(bits, p + 146, 24),
                                        purpose_legitimate_interests: bitfield_set(bits, p + 170, 24),
                                        purpose_one_treatment: bits[p + 194],
                                        publisher_country_code: chars_at(bits, p + 195, 2),
                                        vendor_consents: consents,
                                        vendor_legitimate_interests: interests,
                                        publisher_restrictions: restrictions,
                                    },
                                    q3,
                                ),
                            ),
                        },
                    },
                }
            },
        }
    }

    proof fn lemma_read_supported(bits: Seq<bool>, end: ReadError, pos: int) {
    }

    fn from_data_reader(r: &mut DataReader) -> (res: Result<Core, SectionDecodeError>)
        ensures
            match sread(old(r).spec_bits(), old(r).spec_end(), old(r).spec_pos(), 6) {
                Ok((v, p)) => v != 2 ==> final(r).spec_pos() == p,
                Err(_) => true,
            },
    {
        let ghost start = *r;
        read_version(r, 2)?;
        proof {
            assert(sread(start.spec_bits(), start.spec_end(), start.spec_pos(), 6) matches Ok((v, _)) && v == 2);
        }
        let created = lift(r.read_datetime_as_unix_timestamp())?;
        let last_updated = lift(r.read_datetime_as_unix_timestamp())?;
        let cmp_id = r.read_u16_field(12)?;
        let cmp_version = r.read_u16_field(12)?;
        let consent_screen = r.read_u8_field(6)?;
        let consent_language = lift(r.read_string(2))?;
        let vendor_list_version = r.read_u16_field(12)?;
        let policy_version = r.read_u8_field(6)?;
        let is_service_specific = lift(r.read_bool())?;
        let use_non_standard_stacks = lift(r.read_bool())?;
        let special_feature_optins = lift(r.read_fixed_bitfield(12))?;
        let purpose_consents = lift(r.read_fixed_bitfield(24))?;
        let purpose_legitimate_interests = lift(r.read_fixed_bitfield(24))?;
        let purpose_one_treatment = lift(r.read_bool())?;
        let publisher_country_code = lift(r.read_string(2))?;
        let vendor_consents = lift(r.read_optimized_integer_range())?;
        let vendor_legitimate_interests = lift(r.read_optimized_integer_range())?;
        let publisher_restrictions = parse_publisher_restrictions(r)?;
        Ok(Core {
            created,
            last_updated,
            cmp_id,
            cmp_version,
            consent_screen,
            consent_language,
            vendor_list_version,
            policy_version,
            is_service_specific,
            use_non_standard_stacks,
            special_feature_optins,
            purpose_consents,
            purpose_legitimate_interests,
            purpose_one_treatment,
            publisher_country_code,
            vendor_consents,
            vendor_legitimate_interests,
            publisher_restrictions,
        })
    }
}

impl FromDataReader for PublisherPurposes {
    /// Two bit fields of 24 bits, a 6-bit count `n`, then two bit fields of
    /// `n` bits.
    open spec fn spec_read(bits: Seq<bool>, end: ReadError, pos: int) -> SectionStep<PublisherPurposesView> {
        if pos + 54 > bits.len() {
            Err(SectionDecodeErrorView::Read(end))
        } else {
            let n = bits_at(bits, pos + 48, 6);
            if pos + 54 + 2 * n > bits.len() {
                Err(SectionDecodeErrorView::Read(end))
            } else {
                Ok(
                    (
                        PublisherPurposesView {
                            consents: bitfield_set(bits, pos, 24),
                            legitimate_interests: bitfield_set(bits, pos + 24, 24),
                            custom_consents: bitfield_set(bits, pos + 54, n),
                            custom_legitimate_interests: bitfield_set(bits, pos + 54 + n, n),
                        },
                        pos + 54 + 2 * n,
                    ),
                )
            }
        }
    }

    proof fn lemma_read_supported(bits: Seq<bool>, end: ReadError, pos: int) {
    }

    fn from_data_reader(r: &mut DataReader) -> (res: Result<PublisherPurposes, SectionDecodeError>) {
        let consents = lift(r.read_fixed_bitfield(24))?;
        let legitimate_interests = lift(r.read_fixed_bitfield(24))?;
        let n = r.read_u8_field(6)?;
        let custom_consents = lift(r.read_fixed_bitfield(n as usize))?;
        let custom_legitimate_interests = lift(r.read_fixed_bitfield(n as usize))?;
        Ok(PublisherPurposes { consents, legitimate_interests, custom_consents, custom_legitimate_interests })
    }
}

impl FromDataReader for TcfEuV2 {
    /// The core segment; no optional segment yet.
    open spec fn spec_read(bits: Seq<bool>, end: ReadError, pos: int) -> SectionStep<TcfEuV2View> {
        match Core::spec_read(bits, end, pos) {
            Err(e) => Err(e),
            Ok((core, p)) => Ok((TcfEuV2View { core, disclosed_vendors: None, allowed_vendors: None, publisher_purposes: None }, p)),
        }
    }

    proof fn lemma_read_supported(bits: Seq<bool>, end: ReadError, pos: int) {
    }

    fn from_data_reader(r: &mut DataReader) -> (res: Result<TcfEuV2, SectionDecodeError>) {
        let core: Core = r.parse()?;
        Ok(TcfEuV2 { core, disclosed_vendors: None, allowed_vendors: None, publisher_purposes: None })
    }
}

impl OptionalSegmentParser for TcfEuV2 {
    open spec fn spec_segment_type_bits() -> int {
        3
    }

    /// Type 1 holds the disclosed vendors and type 2 the allowed vendors, as
    /// optimized integer ranges; type 3 holds the publisher purposes; no
    /// other type is known.
    open spec fn spec_segment(t: u8, bits: Seq<bool>, end: ReadError, pos: int, into: TcfEuV2View) -> Result<TcfEuV2View, SectionDecodeErrorView> {
        if t == 1 {
            match lift_step(spec_read_optimized_integer_range(bits, end, pos)) {
                Ok((s, _)) => Ok(TcfEuV2View { disclosed_vendors: Some(s), ..into }),
                Err(e) => Err(e),
            }
        } else if t == 2 {
            match lift_step(spec_read_optimized_integer_range(bits, end, pos)) {
                Ok((s, _)) => Ok(TcfEuV2View { allowed_vendors: Some(s), ..into }),
                Err(e) => Err(e),
            }
        } else if t == 3 {
            match PublisherPurposes::spec_read(bits, end, pos) {
                Ok((p, _)) => Ok(TcfEuV2View { publisher_purposes: Some(p), ..into }),
                Err(e) => Err(e),
            }
        } else {
            Err(SectionDecodeErrorView::UnknownSegmentType { segment_type: t })
        }
    }

    proof fn lemma_segment_supported(t: u8, bits: Seq<bool>, end: ReadError, pos: int, into: TcfEuV2View) {
    }

    proof fn lemma_segments_commute(
        t1: u8,
        bits1: Seq<bool>,
        end1: ReadError,
        pos1: int,
        t2: u8,
        bits2: Seq<bool>,
        end2: ReadError,
        pos2: int,
        acc: TcfEuV2View,
    ) {
    }

    fn read_segment_type(r: &mut DataReader) -> (res: Result<u8, SectionDecodeError>) {
        r.read_u8_field(3)
    }

    fn parse_optional_segment(segment_type: u8, r: &mut DataReader, into: &mut TcfEuV2) -> (res: Result<(), SectionDecodeError>) {
        if segment_type == 1 {
            let s = lift(r.read_optimized_integer_range())?;
            into.disclosed_vendors = Some(s);
            Ok(())
        } else if segment_type == 2 {
            let s = lift(r.read_optimized_integer_range())?;
            into.allowed_vendors = Some(s);
            Ok(())
        } else if segment_type == 3 {
            let p: PublisherPurposes = r.parse()?;
            into.publisher_purposes = Some(p);
            Ok(())
        } else {
            Err(SectionDecodeError::UnknownSegmentType { segment_type })
        }
    }
}

impl DecodableSection for TcfEuV2 {
    const ID: SectionId = SectionId::TcfEuV2;

    open spec fn spec_decode(s: Seq<char>) -> Result<TcfEuV2View, SectionDecodeErrorView> {
        spec_parse_segmented_str::<TcfEuV2>(s)
    }

    proof fn lemma_decode_supported(s: Seq<char>) {
        crate::sections::lemma_segmented_supported::<TcfEuV2>(s);
    }

    fn decode_str(s: &str) -> (r: Result<TcfEuV2, SectionDecodeError>) {
        parse_segmented_str(s)
    }
}

impl std::str::FromStr for TcfEuV2 {
    type Err = SectionDecodeError;

    fn from_str(s: &str) -> (r: Result<TcfEuV2, SectionDecodeError>)
        ensures
            crate::sections::result_view(r) == TcfEuV2::spec_decode(s@),
    {
        TcfEuV2::decode_str(s)
    }
}

/// Where each field of a TCF EU v2 core read at `pos` comes from: after the
/// 6-bit version (2), the fixed-size fields at their places over the next 207
/// bits, then the vendor consents as the optimized integer range read right
/// there, and the vendor legitimate interests as the optimized integer range
/// that follows it.
pub proof fn lemma_core_layout(bits: Seq<bool>, end: ReadError, pos: int)
    requires
        0 <= pos,
        Core::spec_read(bits, end, pos) is Ok,
    ensures
        ({
            let c = Core::spec_read(bits, end, pos)->Ok_0.0;
            let p = pos + 6;
            let consents = spec_read_optimized_integer_range(bits, end, p + 207);
            let interests = spec_read_optimized_integer_range(bits, end, consents->Ok_0.1);
            &&& bits_at(bits, pos, 6) == 2
            &&& c.created == seconds_at(bits, p)
            &&& c.last_updated == seconds_at(bits, p + 36)
            &&& c.cmp_id == u16_at(bits, p + 72, 12)
            &&& c.cmp_version == u16_at(bits, p + 84, 12)
            &&& c.consent_screen == u8_at(bits, p + 96, 6)
            &&& c.consent_language == chars_at(bits, p + 102, 2)
            &&& c.vendor_list_version == u16_at(bits, p + 114, 12)
            &&& c.policy_version == u8_at(bits, p + 126, 6)
            &&& c.is_service_specific == bits[p + 132]
            &&& c.use_non_standard_stacks == bits[p + 133]
            &&& c.special_feature_optins == bitfield_set(bits, p + 134, 12)
            &&& c.purpose_consents == bitfield_set(bits, p + 146, 24)
            &&& c.purpose_legitimate_interests == bitfield_set(bits, p + 170, 24)
            &&& c.purpose_one_treatment == bits[p + 194]
            &&& c.publisher_country_code == chars_at(bits, p + 195, 2)
            &&& consents is Ok
            &&& c.vendor_consents == consents->Ok_0.0
            &&& interests is Ok
            &&& c.vendor_legitimate_interests == interests->Ok_0.0
        }),
{
}

/// Where each field of publisher purposes read at `pos` comes from: two
/// 24-bit fields of consents then legitimate interests, a 6-bit count `n`,
/// then `n` bits of custom consents and `n` bits of custom legitimate
/// interests.
pub proof fn lemma_publisher_purposes_layout(bits: Seq<bool>, end: ReadError, pos: int)
    requires
        PublisherPurposes::spec_read(bits, end, pos) is Ok,
    ensures
        ({
            let v = PublisherPurposes::spec_read(bits, end, pos)->Ok_0.0;
            let n = bits_at(bits, pos + 48, 6);
            &&& v.consents == bitfield_set(bits, pos, 24)
            &&& v.legitimate_interests == bitfield_set(bits, pos + 24, 24)
            &&& v.custom_consents == bitfield_set(bits, pos + 54, n)
            &&& v.custom_legitimate_interests == bitfield_set(bits, pos + 54 + n, n)
        }),
{
}

/// The optional segments: type 1 holds the disclosed vendors, type 2 the
/// allowed vendors, both as optimized integer ranges, and type 3 the publisher
/// purposes; each fills its own part and leaves the rest as it was.
pub proof fn lemma_segment_types(t: u8, bits: Seq<bool>, end: ReadError, pos: int, into: TcfEuV2View)
    requires
        TcfEuV2::spec_segment(t, bits, end, pos, into) is Ok,
    ensures
        ({
            let v = TcfEuV2::spec_segment(t, bits, end, pos, into)->Ok_0;
            &&& 1 <= t <= 3
            &&& v.core == into.core
            &&& t == 1 ==> v.disclosed_vendors == Some(spec_read_optimized_integer_range(bits, end, pos)->Ok_0.0)
                && v.allowed_vendors == into.allowed_vendors && v.publisher_purposes == into.publisher_purposes
            &&& t == 2 ==> v.allowed_vendors == Some(spec_read_optimized_integer_range(bits, end, pos)->Ok_0.0)
                && v.disclosed_vendors == into.disclosed_vendors && v.publisher_purposes == into.publisher_purposes
            &&& t == 3 ==> v.publisher_purposes == Some(PublisherPurposes::spec_read(bits, end, pos)->Ok_0.0)
                && v.disclosed_vendors == into.disclosed_vendors && v.allowed_vendors == into.allowed_vendors
        }),
{
}

} // verus!
