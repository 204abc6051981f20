//! The US California section.
use vstd::prelude::*;
use crate::encoding::{DataReader, ReadError};
use crate::sections::{DecodableSection, SectionId, parse_segmented_str, spec_parse_segmented_str, FromDataReader, read_version, spec_read_version, OptionalSegmentParser, SectionDecodeErrorView, SectionDecodeError, SectionStep};
use crate::sections::us_common::{
    Disagreement, flag, is_notice_and_opt_out_combination_ok, push_if,
    read_core_fields, read_gpc_segment, spec_gpc_segment, spec_notice_and_opt_out_ok,
    spec_read_core_fields, validation_outcome, validation_result, views,
};
pub use crate::sections::us_common::{MspaMode, Notice, OptOut, Consent, ValidationError};

verus! {

/// The California section: its core segment and the optional Global
/// Privacy Control segment.
#[derive(Clone, Copy, Debug, PartialEq, Eq, Structural)]
pub struct UsCa {
    pub core: Core,
    pub gpc: Option<bool>,
}

/// The core sub-section must always be present. Where terms are capitalized in the ‘description’
/// field they are defined terms in Cal. Civ. Code 1798.140.
#[derive(Clone, Copy, Debug, PartialEq, Eq, Structural)]
pub struct Core {
    pub sale_opt_out_notice: Notice,
    pub sharing_opt_out_notice: Notice,
    pub sensitive_data_limit_use_notice: Notice,
    pub sale_opt_out: OptOut,
    pub sharing_opt_out: OptOut,
    pub sensitive_data_processing: SensitiveDataProcessing,
    pub known_child_sensitive_data_consents: KnownChildSensitiveDataConsents,
    pub personal_data_consent: Consent,
    pub mspa_covered_transaction: bool,
    pub mspa_opt_out_option_mode: MspaMode,
    pub mspa_service_provider_mode: MspaMode,
}

/// Opt-outs of the use of sensitive personal information.
#[derive(Clone, Copy, Debug, PartialEq, Eq, Structural)]
pub struct SensitiveDataProcessing {
    /// Opt-Out of the Use or Disclosure of the Consumer's Sensitive Personal Information Which
    /// Reveals a Consumer's Social Security, Driver's License, State Identification Card, or
    /// Passport Number.
    pub identification_documents: OptOut,
    /// Opt-Out of the Use or Disclosure of the Consumer's Sensitive Personal Information Which
    /// Reveals a Consumer's Account Log-In, Financial Account, Debit Card, or Credit Card Number in
    /// Combination with Any Required Security or Access Code, Password, or Credentials Allowing
    /// Access to an Account.
    pub financial_data: OptOut,
    pub precise_geolocation: OptOut,
    pub origin_beliefs_or_union: OptOut,
    pub mail_email_or_text_messages: OptOut,
    pub genetic_data: OptOut,
    pub biometric_unique_identification: OptOut,
    pub health_data: OptOut,
    pub sex_life_or_sexual_orientation: OptOut,
}

/// Consents about the personal information of known children.
#[derive(Clone, Copy, Debug, PartialEq, Eq, Structural)]
pub struct KnownChildSensitiveDataConsents {
    pub sell_personal_information: Consent,
    pub share_personal_information: Consent,
}

impl View for UsCa {
    type V = UsCa;

    open spec fn view(&self) -> UsCa {
        *self
    }
}

impl View for Core {
    type V = Core;

    open spec fn view(&self) -> Core {
        *self
    }
}

impl SensitiveDataProcessing {
    /// The values of the 9 codes from index `at`.
    pub open spec fn spec_from_codes(c: Seq<u8>, at: int) -> SensitiveDataProcessing {
        SensitiveDataProcessing {
            identification_documents: OptOut::spec_from_code(c[at] as nat),
            financial_data: OptOut::spec_from_code(c[at + 1] as nat),
            precise_geolocation: OptOut::spec_from_code(c[at + 2] as nat),
            origin_beliefs_or_union: OptOut::spec_from_code(c[at + 3] as nat),
            mail_email_or_text_messages: OptOut::spec_from_code(c[at + 4] as nat),
            genetic_data: OptOut::spec_from_code(c[at + 5] as nat),
            biometric_unique_identification: OptOut::spec_from_code(c[at + 6] as nat),
            health_data: OptOut::spec_from_code(c[at + 7] as nat),
            sex_life_or_sexual_orientation: OptOut::spec_from_code(c[at + 8] as nat),
        }
    }

    /// The values of the 9 codes from index `at`.
    pub fn from_codes(c: &Vec<u8>, at: usize) -> (r: SensitiveDataProcessing)
        requires
            at + 9 <= c.len(),
        ensures
            r == Self::spec_from_codes(c@, at as int),
    {
        SensitiveDataProcessing {
            identification_documents: OptOut::from_code(c[at]),
            financial_data: OptOut::from_code(c[at + 1]),
            precise_geolocation: OptOut::from_code(c[at + 2]),
            origin_beliefs_or_union: OptOut::from_code(c[at + 3]),
            mail_email_or_text_messages: OptOut::from_code(c[at + 4]),
            genetic_data: OptOut::from_code(c[at + 5]),
            biometric_unique_identification: OptOut::from_code(c[at + 6]),
            health_data: OptOut::from_code(c[at + 7]),
            sex_life_or_sexual_orientation: OptOut::from_code(c[at + 8]),
        }
    }
}

impl KnownChildSensitiveDataConsents {
    /// The values of the 2 codes from index `at`.
    pub open spec fn spec_from_codes(c: Seq<u8>, at: int) -> KnownChildSensitiveDataConsents {
        KnownChildSensitiveDataConsents {
            sell_personal_information: Consent::spec_from_code(c[at] as nat),
            share_personal_information: Consent::spec_from_code(c[at + 1] as nat),
        }
    }

    /// The values of the 2 codes from index `at`.
    pub fn from_codes(c: &Vec<u8>, at: usize) -> (r: KnownChildSensitiveDataConsents)
        requires
            at + 2 <= c.len(),
        ensures
            r == Self::spec_from_codes(c@, at as int),
    {
        KnownChildSensitiveDataConsents {
            sell_personal_information: Consent::from_code(c[at]),
            share_personal_information: Consent::from_code(c[at + 1]),
        }
    }
}

impl Core {
    /// The core made of the 17 codes `a` before the covered transaction
    /// field, that field `covered`, and the 2 codes `b` after it.
    pub open spec fn spec_from_codes(a: Seq<u8>, covered: bool, b: Seq<u8>) -> Core {
        Core {
            sale_opt_out_notice: Notice::spec_from_code(a[0] as nat),
            sharing_opt_out_notice: Notice::spec_from_code(a[1] as nat),
            sensitive_data_limit_use_notice: Notice::spec_from_code(a[2] as nat),
            sale_opt_out: OptOut::spec_from_code(a[3] as nat),
            sharing_opt_out: OptOut::spec_from_code(a[4] as nat),
            sensitive_data_processing: SensitiveDataProcessing::spec_from_codes(a, 5),
            known_child_sensitive_data_consents: KnownChildSensitiveDataConsents::spec_from_codes(a, 14),
            personal_data_consent: Consent::spec_from_code(a[16] as nat),
            mspa_covered_transaction: covered,
            mspa_opt_out_option_mode: MspaMode::spec_from_code(b[0] as nat),
            mspa_service_provider_mode: MspaMode::spec_from_code(b[1] as nat),
        }
    }

    /// The core made of the codes `a`, the covered transaction field and the codes `b`.
    pub fn from_codes(a: &Vec<u8>, covered: bool, b: &Vec<u8>) -> (r: Core)
        requires
            a.len() == 17,
            b.len() == 2,
        ensures
            r == Self::spec_from_codes(a@, covered, b@),
    {
        Core {
            sale_opt_out_notice: Notice::from_code(a[0]),
            sharing_opt_out_notice: Notice::from_code(a[1]),
            sensitive_data_limit_use_notice: Notice::from_code(a[2]),
            sale_opt_out: OptOut::from_code(a[3]),
            sharing_opt_out: OptOut::from_code(a[4]),
            sensitive_data_processing: SensitiveDataProcessing::from_codes(&a, 5),
            known_child_sensitive_data_consents: KnownChildSensitiveDataConsents::from_codes(&a, 14),
            personal_data_consent: Consent::from_code(a[16]),
            mspa_covered_transaction: covered,
            mspa_opt_out_option_mode: MspaMode::from_code(b[0]),
            mspa_service_provider_mode: MspaMode::from_code(b[1]),
        }
    }
}

impl FromDataReader for Core {
    /// The version (1), 17 codes, the covered transaction field and 2
    /// more codes.
    open spec fn spec_read(bits: Seq<bool>, end: ReadError, pos: int) -> SectionStep<Core> {
        match spec_read_version(bits, end, pos, 1) {
            Err(e) => Err(e),
            Ok((_, p)) => match spec_read_core_fields(bits, end, p, 17, 2) {
                Err(e) => Err(e),
                Ok(((a, covered, b), q)) => Ok((Core::spec_from_codes(a, covered, b), q)),
            },
        }
    }

    proof fn lemma_read_supported(bits: Seq<bool>, end: ReadError, pos: int) {
    }

    fn from_data_reader(r: &mut DataReader) -> (res: Result<Core, SectionDecodeError>) {
        read_version(r, 1)?;
        let (a, covered, b) = read_core_fields(r, 17, 2)?;
        Ok(Core::from_codes(&a, covered, &b))
    }
}

impl FromDataReader for UsCa {
    /// The core segment; no optional segment yet.
    open spec fn spec_read(bits: Seq<bool>, end: ReadError, pos: int) -> SectionStep<UsCa> {
        match Core::spec_read(bits, end, pos) {
            Err(e) => Err(e),
            Ok((core, p)) => Ok((UsCa { core, gpc: None }, p)),
        }
    }

    proof fn lemma_read_supported(bits: Seq<bool>, end: ReadError, pos: int) {
    }

    fn from_data_reader(r: &mut DataReader) -> (res: Result<UsCa, SectionDecodeError>) {
        let core: Core = r.parse()?;
        Ok(UsCa { core, gpc: None })
    }
}

impl OptionalSegmentParser for UsCa {
    open spec fn spec_segment_type_bits() -> int {
        2
    }

    /// The segment of type 1 is the Global Privacy Control flag.
    open spec fn spec_segment(t: u8, bits: Seq<bool>, end: ReadError, pos: int, into: UsCa) -> Result<UsCa, SectionDecodeErrorView> {
        match spec_gpc_segment(t, bits, end, pos) {
            Ok(b) => Ok(UsCa { gpc: Some(b), ..into }),
            Err(e) => Err(e),
        }
    }

    proof fn lemma_segment_supported(t: u8, bits: Seq<bool>, end: ReadError, pos: int, into: UsCa) {
    }

    proof fn lemma_segments_commute(
        t1: u8,
        bits1: Seq<bool>,
        end1: ReadError,
        pos1: int,
        t2: u8,
        bits2: Seq<bool>,
        end2: ReadError,
        pos2: int,
        acc: UsCa,
    ) {
    }

    fn read_segment_type(r: &mut DataReader) -> (res: Result<u8, SectionDecodeError>) {
        r.read_u8_field(2)
    }

    fn parse_optional_segment(segment_type: u8, r: &mut DataReader, into: &mut UsCa) -> (res: Result<(), SectionDecodeError>) {
        let b = read_gpc_segment(segment_type, r)?;
        into.gpc = Some(b);
        Ok(())
    }
}

impl UsCa {
    /// Whether a notice and the matching opt-out agree.
    pub fn is_notice_and_opt_out_combination_ok(notice: &Notice, opt_out: &OptOut) -> (r: bool)
        ensures
            r == spec_notice_and_opt_out_ok(*notice, *opt_out),
    {
        is_notice_and_opt_out_combination_ok(notice, opt_out)
    }

    /// The disagreements between the fields of this section, in the order in
    /// which [`UsCa::validate`] reports them.
    pub open spec fn spec_violations(&self) -> Seq<Disagreement> {
        let c = self.core;
        let sp = c.mspa_service_provider_mode;
        let oo = c.mspa_opt_out_option_mode;
        let by_sp = |field: Seq<char>, v: u8| ("mspa_service_provider_mode"@, sp.spec_code(), field, v);
        let notices = |s: Seq<Disagreement>|
            s + flag(c.sale_opt_out_notice != Notice::NotApplicable, by_sp("sale_opt_out_notice"@, c.sale_opt_out_notice.spec_code()))
                + flag(c.sharing_opt_out_notice != Notice::NotApplicable, by_sp("sharing_opt_out_notice"@, c.sharing_opt_out_notice.spec_code()))
                + flag(
                c.sensitive_data_limit_use_notice != Notice::NotApplicable,
                by_sp("sensitive_data_limit_use_notice"@, c.sensitive_data_limit_use_notice.spec_code()),
            );
        let base = Seq::empty() + flag(
            !spec_notice_and_opt_out_ok(c.sharing_opt_out_notice, c.sharing_opt_out),
            ("sharing_opt_out_notice"@, c.sharing_opt_out_notice.spec_code(), "sharing_opt_out"@, c.sharing_opt_out.spec_code()),
        ) + flag(
            !spec_notice_and_opt_out_ok(c.sale_opt_out_notice, c.sale_opt_out),
            ("sale_opt_out_notice"@, c.sale_opt_out_notice.spec_code(), "sale_opt_out"@, c.sale_opt_out.spec_code()),
        );
        if sp == MspaMode::NotApplicable {
            notices(base)
        } else if sp == MspaMode::Yes {
            notices(base + flag(oo != MspaMode::No, by_sp("mspa_opt_out_option_mode"@, oo.spec_code())))
        } else {
            base + flag(oo != MspaMode::Yes, by_sp("mspa_opt_out_option_mode"@, oo.spec_code()))
        }
    }

    /// Checks the consistency of values in the already populated fields.
    ///
    /// While CMPs shouldn't be able to generate invalid combinations, the binary wire format
    /// does not prevent it.
    pub fn validate(&self) -> (r: Result<(), Vec<ValidationError>>)
        ensures
            validation_result(r, self.spec_violations()),
    {
        let c = &self.core;
        let sp = c.mspa_service_provider_mode;
        let oo = c.mspa_opt_out_option_mode;
        let mut errors: Vec<ValidationError> = Vec::new();
        proof {
            assert(views(errors@) =~= Seq::empty());
        }
        push_if(
            &mut errors,
            !is_notice_and_opt_out_combination_ok(&c.sharing_opt_out_notice, &c.sharing_opt_out),
            "sharing_opt_out_notice",
            c.sharing_opt_out_notice.to_u8(),
            "sharing_opt_out",
            c.sharing_opt_out.to_u8(),
        );
        push_if(
            &mut errors,
            !is_notice_and_opt_out_combination_ok(&c.sale_opt_out_notice, &c.sale_opt_out),
            "sale_opt_out_notice",
            c.sale_opt_out_notice.to_u8(),
            "sale_opt_out",
            c.sale_opt_out.to_u8(),
        );
        if sp == MspaMode::No {
            push_if(&mut errors, oo != MspaMode::Yes, "mspa_service_provider_mode", sp.to_u8(), "mspa_opt_out_option_mode", oo.to_u8());
        } else {
            if sp == MspaMode::Yes {
                push_if(&mut errors, oo != MspaMode::No, "mspa_service_provider_mode", sp.to_u8(), "mspa_opt_out_option_mode", oo.to_u8());
            }
            push_if(
                &mut errors,
                c.sale_opt_out_notice != Notice::NotApplicable,
                "mspa_service_provider_mode",
                sp.to_u8(),
                "sale_opt_out_notice",
                c.sale_opt_out_notice.to_u8(),
            );
            push_if(
                &mut errors,
                c.sharing_opt_out_notice != Notice::NotApplicable,
                "mspa_service_provider_mode",
                sp.to_u8(),
                "sharing_opt_out_notice",
                c.sharing_opt_out_notice.to_u8(),
            );
            push_if(
                &mut errors,
                c.sensitive_data_limit_use_notice != Notice::NotApplicable,
                "mspa_service_provider_mode",
                sp.to_u8(),
                "sensitive_data_limit_use_notice",
                c.sensitive_data_limit_use_notice.to_u8(),
            );
        }
        validation_outcome(errors)
    }
}

impl DecodableSection for UsCa {
    const ID: SectionId = SectionId::UsCa;

    open spec fn spec_decode(s: Seq<char>) -> Result<UsCa, SectionDecodeErrorView> {
        spec_parse_segmented_str::<UsCa>(s)
    }

    proof fn lemma_decode_supported(s: Seq<char>) {
        crate::sections::lemma_segmented_supported::<UsCa>(s);
    }

    fn decode_str(s: &str) -> (r: Result<UsCa, SectionDecodeError>) {
        parse_segmented_str(s)
    }
}

impl std::str::FromStr for UsCa {
    type Err = SectionDecodeError;

    fn from_str(s: &str) -> (r: Result<UsCa, SectionDecodeError>)
        ensures
            crate::sections::result_view(r) == UsCa::spec_decode(s@),
    {
        UsCa::decode_str(s)
    }
}

/// Where each field of a core read at `pos` comes from: after the 6-bit
/// version, the fields hold the 2-bit codes that follow, in field order, and
/// the covered transaction field, after the first 17 codes, holds exactly
/// when its two bits hold 1.
pub proof fn lemma_core_layout(bits: Seq<bool>, end: ReadError, pos: int)
    requires
        0 <= pos,
        Core::spec_read(bits, end, pos) is Ok,
    ensures
        crate::sections::bits_at(bits, pos, 6) == 1,
        Core::spec_read(bits, end, pos)->Ok_0.0.sale_opt_out_notice == Notice::spec_from_code(crate::sections::bits_at(bits, pos + 6, 2)),
        Core::spec_read(bits, end, pos)->Ok_0.0.sharing_opt_out_notice == Notice::spec_from_code(crate::sections::bits_at(bits, pos + 8, 2)),
        Core::spec_read(bits, end, pos)->Ok_0.0.sensitive_data_limit_use_notice == Notice::spec_from_code(crate::sections::bits_at(bits, pos + 10, 2)),
        Core::spec_read(bits, end, pos)->Ok_0.0.sale_opt_out == OptOut::spec_from_code(crate::sections::bits_at(bits, pos + 12, 2)),
        Core::spec_read(bits, end, pos)->Ok_0.0.sharing_opt_out == OptOut::spec_from_code(crate::sections::bits_at(bits, pos + 14, 2)),
        Core::spec_read(bits, end, pos)->Ok_0.0.sensitive_data_processing.identification_documents == OptOut::spec_from_code(crate::sections::bits_at(bits, pos + 16, 2)),
        Core::spec_read(bits, end, pos)->Ok_0.0.sensitive_data_processing.financial_data == OptOut::spec_from_code(crate::sections::bits_at(bits, pos + 18, 2)),
        Core::spec_read(bits, end, pos)->Ok_0.0.sensitive_data_processing.precise_geolocation == OptOut::spec_from_code(crate::sections::bits_at(bits, pos + 20, 2)),
        Core::spec_read(bits, end, pos)->Ok_0.0.sensitive_data_processing.origin_beliefs_or_union == OptOut::spec_from_code(crate::sections::bits_at(bits, pos + 22, 2)),
        Core::spec_read(bits, end, pos)->Ok_0.0.sensitive_data_processing.mail_email_or_text_messages == OptOut::spec_from_code(crate::sections::bits_at(bits, pos + 24, 2)),
        Core::spec_read(bits, end, pos)->Ok_0.0.sensitive_data_processing.genetic_data == OptOut::spec_from_code(crate::sections::bits_at(bits, pos + 26, 2)),
        Core::spec_read(bits, end, pos)->Ok_0.0.sensitive_data_processing.biometric_unique_identification == OptOut::spec_from_code(crate::sections::bits_at(bits, pos + 28, 2)),
        Core::spec_read(bits, end, pos)->Ok_0.0.sensitive_data_processing.health_data == OptOut::spec_from_code(crate::sections::bits_at(bits, pos + 30, 2)),
        Core::spec_read(bits, end, pos)->Ok_0.0.sensitive_data_processing.sex_life_or_sexual_orientation == OptOut::spec_from_code(crate::sections::bits_at(bits, pos + 32, 2)),
        Core::spec_read(bits, end, pos)->Ok_0.0.known_child_sensitive_data_consents.sell_personal_information == Consent::spec_from_code(crate::sections::bits_at(bits, pos + 34, 2)),
        Core::spec_read(bits, end, pos)->Ok_0.0.known_child_sensitive_data_consents.share_personal_information == Consent::spec_from_code(crate::sections::bits_at(bits, pos + 36, 2)),
        Core::spec_read(bits, end, pos)->Ok_0.0.personal_data_consent == Consent::spec_from_code(crate::sections::bits_at(bits, pos + 38, 2)),
        Core::spec_read(bits, end, pos)->Ok_0.0.mspa_covered_transaction == (crate::sections::bits_at(bits, pos + 40, 2) == 1),
        Core::spec_read(bits, end, pos)->Ok_0.0.mspa_opt_out_option_mode == MspaMode::spec_from_code(crate::sections::bits_at(bits, pos + 42, 2)),
        Core::spec_read(bits, end, pos)->Ok_0.0.mspa_service_provider_mode == MspaMode::spec_from_code(crate::sections::bits_at(bits, pos + 44, 2)),
        Core::spec_read(bits, end, pos)->Ok_0.1 == pos + 46,
{
    crate::sections::us_common::lemma_core_fields_bits(bits, end, pos + 6, 17, 2);
}

} // verus!
