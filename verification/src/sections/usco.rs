//! The US Colorado section.
use vstd::prelude::*;
use crate::encoding::{DataReader, ReadError};
use crate::sections::{DecodableSection, SectionId, parse_segmented_str, spec_parse_segmented_str, FromDataReader, read_version, spec_read_version, OptionalSegmentParser, SectionDecodeErrorView, SectionDecodeError, SectionStep};
use crate::sections::us_common::{
    Consent, Disagreement, MspaMode, Notice, OptOut, ValidationError, flag, is_notice_and_opt_out_combination_ok,
    push_if, read_core_fields, read_gpc_segment, spec_gpc_segment, spec_notice_and_opt_out_ok,
    spec_read_core_fields, validation_outcome, validation_result, views,
};

verus! {

/// The Colorado section: its core segment and the optional Global Privacy
/// Control segment.
#[derive(Clone, Copy, Debug, PartialEq, Eq, Structural)]
pub struct UsCo {
    pub core: Core,
    pub gpc: Option<bool>,
}

/// The core segment.
#[derive(Clone, Copy, Debug, PartialEq, Eq, Structural)]
pub struct Core {
    pub sharing_notice: Notice,
    pub sale_opt_out_notice: Notice,
    pub targeted_advertising_opt_out_notice: Notice,
    pub sale_opt_out: OptOut,
    pub targeted_advertising_opt_out: OptOut,
    pub sensitive_data_processing: SensitiveDataProcessing,
    pub known_child_sensitive_data_consents: Consent,
    pub mspa_covered_transaction: bool,
    pub mspa_opt_out_option_mode: MspaMode,
    pub mspa_service_provider_mode: MspaMode,
}

/// Consents to the processing of sensitive data.
#[derive(Clone, Copy, Debug, PartialEq, Eq, Structural)]
pub struct SensitiveDataProcessing {
    pub racial_or_ethnic_origin: Consent,
    pub religious_beliefs: Consent,
    pub health_condition_or_diagnosis: Consent,
    pub sex_life_or_sexual_orientation: Consent,
    pub citizenship_data: Consent,
    pub genetic_unique_identification: Consent,
    pub biometric_unique_identification: Consent,
}

impl View for UsCo {
    type V = UsCo;

    open spec fn view(&self) -> UsCo {
        *self
    }
}

impl View for Core {
    type V = Core;

    open spec fn view(&self) -> Core {
        *self
    }
}

impl SensitiveDataProcessing {
    /// The values of the 7 codes from index `at`.
    pub open spec fn spec_from_codes(c: Seq<u8>, at: int) -> SensitiveDataProcessing {
        SensitiveDataProcessing {
            racial_or_ethnic_origin: Consent::spec_from_code(c[at] as nat),
            religious_beliefs: Consent::spec_from_code(c[at + 1] as nat),
            health_condition_or_diagnosis: Consent::spec_from_code(c[at + 2] as nat),
            sex_life_or_sexual_orientation: Consent::spec_from_code(c[at + 3] as nat),
            citizenship_data: Consent::spec_from_code(c[at + 4] as nat),
            genetic_unique_identification: Consent::spec_from_code(c[at + 5] as nat),
            biometric_unique_identification: Consent::spec_from_code(c[at + 6] as nat),
        }
    }

    /// The values of the 7 codes from index `at`.
    pub fn from_codes(c: &Vec<u8>, at: usize) -> (r: SensitiveDataProcessing)
        requires
            at + 7 <= c.len(),
        ensures
            r == Self::spec_from_codes(c@, at as int),
    {
        SensitiveDataProcessing {
            racial_or_ethnic_origin: Consent::from_code(c[at]),
            religious_beliefs: Consent::from_code(c[at + 1]),
            health_condition_or_diagnosis: Consent::from_code(c[at + 2]),
            sex_life_or_sexual_orientation: Consent::from_code(c[at + 3]),
            citizenship_data: Consent::from_code(c[at + 4]),
            genetic_unique_identification: Consent::from_code(c[at + 5]),
            biometric_unique_identification: Consent::from_code(c[at + 6]),
        }
    }
}

impl Core {
    /// The core made of the 13 codes `a` before the covered transaction
    /// field, that field `covered`, and the 2 codes `b` after it.
    pub open spec fn spec_from_codes(a: Seq<u8>, covered: bool, b: Seq<u8>) -> Core {
        Core {
            sharing_notice: Notice::spec_from_code(a[0] as nat),
            sale_opt_out_notice: Notice::spec_from_code(a[1] as nat),
            targeted_advertising_opt_out_notice: Notice::spec_from_code(a[2] as nat),
            sale_opt_out: OptOut::spec_from_code(a[3] as nat),
            targeted_advertising_opt_out: OptOut::spec_from_code(a[4] as nat),
            sensitive_data_processing: SensitiveDataProcessing::spec_from_codes(a, 5),
            known_child_sensitive_data_consents: Consent::spec_from_code(a[12] as nat),
            mspa_covered_transaction: covered,
            mspa_opt_out_option_mode: MspaMode::spec_from_code(b[0] as nat),
            mspa_service_provider_mode: MspaMode::spec_from_code(b[1] as nat),
        }
    }

    /// The core made of the codes `a`, the covered transaction field and the codes `b`.
    pub fn from_codes(a: &Vec<u8>, covered: bool, b: &Vec<u8>) -> (r: Core)
        requires
            a.len() == 13,
            b.len() == 2,
        ensures
            r == Self::spec_from_codes(a@, covered, b@),
    {
        Core {
            sharing_notice: Notice::from_code(a[0]),
            sale_opt_out_notice: Notice::from_code(a[1]),
            targeted_advertising_opt_out_notice: Notice::from_code(a[2]),
            sale_opt_out: OptOut::from_code(a[3]),
            targeted_advertising_opt_out: OptOut::from_code(a[4]),
            sensitive_data_processing: SensitiveDataProcessing::from_codes(&a, 5),
            known_child_sensitive_data_consents: Consent::from_code(a[12]),
            mspa_covered_transaction: covered,
            mspa_opt_out_option_mode: MspaMode::from_code(b[0]),
            mspa_service_provider_mode: MspaMode::from_code(b[1]),
        }
    }
}

impl FromDataReader for Core {
    /// The version (1), 13 codes, the covered transaction field and 2
    /// more codes.
    open spec fn spec_read(bits: Seq<bool>, end: ReadError, pos: int) -> SectionStep<Core> {
        match spec_read_version(bits, end, pos, 1) {
            Err(e) => Err(e),
            Ok((_, p)) => match spec_read_core_fields(bits, end, p, 13, 2) {
                Err(e) => Err(e),
                Ok(((a, covered, b), q)) => Ok((Core::spec_from_codes(a, covered, b), q)),
            },
        }
    }

    proof fn lemma_read_supported(bits: Seq<bool>, end: ReadError, pos: int) {
    }

    fn from_data_reader(r: &mut DataReader) -> (res: Result<Core, SectionDecodeError>) {
        read_version(r, 1)?;
        let (a, covered, b) = read_core_fields(r, 13, 2)?;
        Ok(Core::from_codes(&a, covered, &b))
    }
}

impl FromDataReader for UsCo {
    /// The core segment; no optional segment yet.
    open spec fn spec_read(bits: Seq<bool>, end: ReadError, pos: int) -> SectionStep<UsCo> {
        match Core::spec_read(bits, end, pos) {
            Err(e) => Err(e),
            Ok((core, p)) => Ok((UsCo { core, gpc: None }, p)),
        }
    }

    proof fn lemma_read_supported(bits: Seq<bool>, end: ReadError, pos: int) {
    }

    fn from_data_reader(r: &mut DataReader) -> (res: Result<UsCo, SectionDecodeError>) {
        let core: Core = r.parse()?;
        Ok(UsCo { core, gpc: None })
    }
}

impl OptionalSegmentParser for UsCo {
    open spec fn spec_segment_type_bits() -> int {
        2
    }

    /// The segment of type 1 is the Global Privacy Control flag.
    open spec fn spec_segment(t: u8, bits: Seq<bool>, end: ReadError, pos: int, into: UsCo) -> Result<UsCo, SectionDecodeErrorView> {
        match spec_gpc_segment(t, bits, end, pos) {
            Ok(b) => Ok(UsCo { gpc: Some(b), ..into }),
            Err(e) => Err(e),
        }
    }

    proof fn lemma_segment_supported(t: u8, bits: Seq<bool>, end: ReadError, pos: int, into: UsCo) {
    }

    proof fn lemma_segments_commute(
        t1: u8,
        bits1: Seq<bool>,
        end1: ReadError,
        pos1: int,
        t2: u8,
        bits2: Seq<bool>,
        end2: ReadError,
        pos2: int,
        acc: UsCo,
    ) {
    }

    fn read_segment_type(r: &mut DataReader) -> (res: Result<u8, SectionDecodeError>) {
        r.read_u8_field(2)
    }

    fn parse_optional_segment(segment_type: u8, r: &mut DataReader, into: &mut UsCo) -> (res: Result<(), SectionDecodeError>) {
        let b = read_gpc_segment(segment_type, r)?;
        into.gpc = Some(b);
        Ok(())
    }
}

impl UsCo {
    /// The disagreements between the fields of this section, in the order in
    /// which [`UsCo::validate`] reports them.
    pub open spec fn spec_violations(&self) -> Seq<Disagreement> {
        let c = self.core;
        let sp = c.mspa_service_provider_mode;
        let oo = c.mspa_opt_out_option_mode;
        let by_sp = |field: Seq<char>, v: u8| ("mspa_service_provider_mode"@, sp.spec_code(), field, v);
        let notices = |s: Seq<Disagreement>|
            s
                + flag(c.sale_opt_out_notice != Notice::NotApplicable, by_sp("sale_opt_out_notice"@, c.sale_opt_out_notice.spec_code()));
        let base = Seq::empty()
            + flag(
            !spec_notice_and_opt_out_ok(c.sale_opt_out_notice, c.sale_opt_out),
            ("sale_opt_out_notice"@, c.sale_opt_out_notice.spec_code(), "sale_opt_out"@, c.sale_opt_out.spec_code()),
        )
            + flag(
            !spec_notice_and_opt_out_ok(c.targeted_advertising_opt_out_notice, c.targeted_advertising_opt_out),
            ("targeted_advertising_opt_out_notice"@, c.targeted_advertising_opt_out_notice.spec_code(), "targeted_advertising_opt_out_opt_out"@, c.targeted_advertising_opt_out.spec_code()),
        );
        if sp == MspaMode::NotApplicable {
            notices(base)
        } else if sp == MspaMode::Yes {
            notices(base + flag(oo != MspaMode::No, by_sp("mspa_opt_out_option_mode"@, oo.spec_code())))
        } else {
            base + flag(oo != MspaMode::Yes, by_sp("mspa_opt_out_option_mode"@, oo.spec_code()))
        }
    }

    /// Checks the consistency of values in the already populated fields.
    ///
    /// While CMPs shouldn't be able to generate invalid combinations, the binary wire format
    /// does not prevent it.
    pub fn validate(&self) -> (r: Result<(), Vec<ValidationError>>)
        ensures
            validation_result(r, self.spec_violations()),
    {
        let c = &self.core;
        let sp = c.mspa_service_provider_mode;
        let oo = c.mspa_opt_out_option_mode;
        let mut errors: Vec<ValidationError> = Vec::new();
        proof {
            assert(views(errors@) =~= Seq::empty());
        }
        push_if(
            &mut errors,
            !is_notice_and_opt_out_combination_ok(&c.sale_opt_out_notice, &c.sale_opt_out),
            "sale_opt_out_notice",
            c.sale_opt_out_notice.to_u8(),
            "sale_opt_out",
            c.sale_opt_out.to_u8(),
        );
        push_if(
            &mut errors,
            !is_notice_and_opt_out_combination_ok(&c.targeted_advertising_opt_out_notice, &c.targeted_advertising_opt_out),
            "targeted_advertising_opt_out_notice",
            c.targeted_advertising_opt_out_notice.to_u8(),
            "targeted_advertising_opt_out_opt_out",
            c.targeted_advertising_opt_out.to_u8(),
        );
        if sp == MspaMode::No {
            push_if(&mut errors, oo != MspaMode::Yes, "mspa_service_provider_mode", sp.to_u8(), "mspa_opt_out_option_mode", oo.to_u8());
        } else {
            if sp == MspaMode::Yes {
                push_if(&mut errors, oo != MspaMode::No, "mspa_service_provider_mode", sp.to_u8(), "mspa_opt_out_option_mode", oo.to_u8());
            }
            push_if(
                &mut errors,
                c.sale_opt_out_notice != Notice::NotApplicable,
                "mspa_service_provider_mode",
                sp.to_u8(),
                "sale_opt_out_notice",
                c.sale_opt_out_notice.to_u8(),
            );
        }
        validation_outcome(errors)
    }
}

impl DecodableSection for UsCo {
    const ID: SectionId = SectionId::UsCo;

    open spec fn spec_decode(s: Seq<char>) -> Result<UsCo, SectionDecodeErrorView> {
        spec_parse_segmented_str::<UsCo>(s)
    }

    proof fn lemma_decode_supported(s: Seq<char>) {
        crate::sections::lemma_segmented_supported::<UsCo>(s);
    }

    fn decode_str(s: &str) -> (r: Result<UsCo, SectionDecodeError>) {
        parse_segmented_str(s)
    }
}

impl std::str::FromStr for UsCo {
    type Err = SectionDecodeError;

    fn from_str(s: &str) -> (r: Result<UsCo, SectionDecodeError>)
        ensures
            crate::sections::result_view(r) == UsCo::spec_decode(s@),
    {
        UsCo::decode_str(s)
    }
}

/// Where each field of a core read at `pos` comes from: after the 6-bit
/// version, the fields hold the 2-bit codes that follow, in field order, and
/// the covered transaction field, after the first 13 codes, holds exactly
/// when its two bits hold 1.
pub proof fn lemma_core_layout(bits: Seq<bool>, end: ReadError, pos: int)
    requires
        0 <= pos,
        Core::spec_read(bits, end, pos) is Ok,
    ensures
        crate::sections::bits_at(bits, pos, 6) == 1,
        Core::spec_read(bits, end, pos)->Ok_0.0.sharing_notice == Notice::spec_from_code(crate::sections::bits_at(bits, pos + 6, 2)),
        Core::spec_read(bits, end, pos)->Ok_0.0.sale_opt_out_notice == Notice::spec_from_code(crate::sections::bits_at(bits, pos + 8, 2)),
        Core::spec_read(bits, end, pos)->Ok_0.0.targeted_advertising_opt_out_notice == Notice::spec_from_code(crate::sections::bits_at(bits, pos + 10, 2)),
        Core::spec_read(bits, end, pos)->Ok_0.0.sale_opt_out == OptOut::spec_from_code(crate::sections::bits_at(bits, pos + 12, 2)),
        Core::spec_read(bits, end, pos)->Ok_0.0.targeted_advertising_opt_out == OptOut::spec_from_code(crate::sections::bits_at(bits, pos + 14, 2)),
        Core::spec_read(bits, end, pos)->Ok_0.0.sensitive_data_processing.racial_or_ethnic_origin == Consent::spec_from_code(crate::sections::bits_at(bits, pos + 16, 2)),
        Core::spec_read(bits, end, pos)->Ok_0.0.sensitive_data_processing.religious_beliefs == Consent::spec_from_code(crate::sections::bits_at(bits, pos + 18, 2)),
        Core::spec_read(bits, end, pos)->Ok_0.0.sensitive_data_processing.health_condition_or_diagnosis == Consent::spec_from_code(crate::sections::bits_at(bits, pos + 20, 2)),
        Core::spec_read(bits, end, pos)->Ok_0.0.sensitive_data_processing.sex_life_or_sexual_orientation == Consent::spec_from_code(crate::sections::bits_at(bits, pos + 22, 2)),
        Core::spec_read(bits, end, pos)->Ok_0.0.sensitive_data_processing.citizenship_data == Consent::spec_from_code(crate::sections::bits_at(bits, pos + 24, 2)),
        Core::spec_read(bits, end, pos)->Ok_0.0.sensitive_data_processing.genetic_unique_identification == Consent::spec_from_code(crate::sections::bits_at(bits, pos + 26, 2)),
        Core::spec_read(bits, end, pos)->Ok_0.0.sensitive_data_processing.biometric_unique_identification == Consent::spec_from_code(crate::sections::bits_at(bits, pos + 28, 2)),
        Core::spec_read(bits, end, pos)->Ok_0.0.known_child_sensitive_data_consents == Consent::spec_from_code(crate::sections::bits_at(bits, pos + 30, 2)),
        Core::spec_read(bits, end, pos)->Ok_0.0.mspa_covered_transaction == (crate::sections::bits_at(bits, pos + 32, 2) == 1),
        Core::spec_read(bits, end, pos)->Ok_0.0.mspa_opt_out_option_mode == MspaMode::spec_from_code(crate::sections::bits_at(bits, pos + 34, 2)),
        Core::spec_read(bits, end, pos)->Ok_0.0.mspa_service_provider_mode == MspaMode::spec_from_code(crate::sections::bits_at(bits, pos + 36, 2)),
        Core::spec_read(bits, end, pos)->Ok_0.1 == pos + 38,
{
    crate::sections::us_common::lemma_core_fields_bits(bits, end, pos + 6, 13, 2);
}

} // verus!
