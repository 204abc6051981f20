//! The US National section, in its two versions.
use vstd::prelude::*;
use crate::encoding::{DataReader, ReadError};
use crate::sections::{DecodableSection, SectionId, parse_segmented_str, spec_parse_segmented_str, FromDataReader, OptionalSegmentParser, SectionDecodeError, SectionDecodeErrorView, SectionStep, sread};
use crate::sections::us_common::{
    Consent, Disagreement, MspaMode, Notice, OptOut, ValidationError, flag, is_notice_and_opt_out_combination_ok,
    push_if, read_core_fields, read_gpc_segment, spec_gpc_segment, spec_notice_and_opt_out_ok,
    spec_read_core_fields, validation_outcome, validation_result, views,
};

verus! {

/// The National section: its core segment, in either version, and the
/// optional Global Privacy Control segment.
#[derive(Clone, Copy, Debug, PartialEq, Eq, Structural)]
pub struct UsNat {
    pub core: Core,
    pub gpc: Option<bool>,
}

/// The core segment, whose layout depends on its version.
#[derive(Clone, Copy, Debug, PartialEq, Eq, Structural)]
pub enum Core {
    V1(CoreV1),
    V2(CoreV2),
}

/// The core segment of version 1.
#[derive(Clone, Copy, Debug, PartialEq, Eq, Structural)]
pub struct CoreV1 {
    pub sharing_notice: Notice,
    pub sale_opt_out_notice: Notice,
    pub sharing_opt_out_notice: Notice,
    pub targeted_advertising_opt_out_notice: Notice,
    pub sensitive_data_processing_opt_out_notice: Notice,
    pub sensitive_data_limit_use_notice: Notice,
    pub sale_opt_out: OptOut,
    pub sharing_opt_out: OptOut,
    pub targeted_advertising_opt_out: OptOut,
    pub sensitive_data_processing: SensitiveDataProcessingV1,
    pub known_child_sensitive_data_consents: KnownChildSensitiveDataConsentsV1,
    pub personal_data_consent: Consent,
    pub mspa_covered_transaction: bool,
    pub mspa_opt_out_option_mode: MspaMode,
    pub mspa_service_provider_mode: MspaMode,
}

/// The core segment of version 2.
#[derive(Clone, Copy, Debug, PartialEq, Eq, Structural)]
pub struct CoreV2 {
    pub sharing_notice: Notice,
    pub sale_opt_out_notice: Notice,
    pub sharing_opt_out_notice: Notice,
    pub targeted_advertising_opt_out_notice: Notice,
    pub sensitive_data_processing_opt_out_notice: Notice,
    pub sensitive_data_limit_use_notice: Notice,
    pub sale_opt_out: OptOut,
    pub sharing_opt_out: OptOut,
    pub targeted_advertising_opt_out: OptOut,
    pub sensitive_data_processing: SensitiveDataProcessingV2,
    pub known_child_sensitive_data_consents: KnownChildSensitiveDataConsentsV2,
    pub personal_data_consent: Consent,
    pub mspa_covered_transaction: bool,
    pub mspa_opt_out_option_mode: MspaMode,
    pub mspa_service_provider_mode: MspaMode,
}

/// Consents to the processing of sensitive data (version 1).
#[derive(Clone, Copy, Debug, PartialEq, Eq, Structural)]
pub struct SensitiveDataProcessingV1 {
    pub racial_or_ethnic_origin: Consent,
    pub religious_or_philosophical_beliefs: Consent,
    pub health_data: Consent,
    pub sex_life_or_sexual_orientation: Consent,
    pub citizenship_or_immigration_status: Consent,
    pub genetic_unique_identification: Consent,
    pub biometric_unique_identification: Consent,
    pub precise_geolocation_data: Consent,
    pub identification_documents: Consent,
    pub financial_data: Consent,
    pub union_membership: Consent,
    pub mail_email_or_text_messages: Consent,
}

/// Consents about the data of known children (version 1).
#[derive(Clone, Copy, Debug, PartialEq, Eq, Structural)]
pub struct KnownChildSensitiveDataConsentsV1 {
    pub from_13_to_16: Consent,
    pub under_13: Consent,
}

/// Consents to the processing of sensitive data (version 2).
#[derive(Clone, Copy, Debug, PartialEq, Eq, Structural)]
pub struct SensitiveDataProcessingV2 {
    pub racial_or_ethnic_origin: Consent,
    pub religious_or_philosophical_beliefs: Consent,
    pub health_data: Consent,
    pub sex_life_or_sexual_orientation: Consent,
    pub citizenship_or_immigration_status: Consent,
    pub genetic_unique_identification: Consent,
    pub biometric_unique_identification: Consent,
    pub precise_geolocation_data: Consent,
    pub identification_documents: Consent,
    pub financial_account_data: Consent,
    pub union_membership: Consent,
    pub mail_email_or_text_messages: Consent,
    pub general_health_data: Consent,
    pub crime_victim_status: Consent,
    pub national_origin: Consent,
    pub transgender_or_nonbinary_status: Consent,
}

/// Consents about the data of known children (version 2).
#[derive(Clone, Copy, Debug, PartialEq, Eq, Structural)]
pub struct KnownChildSensitiveDataConsentsV2 {
    pub process_sensitive_data_from_13_to_16: Consent,
    pub process_sensitive_data_under_13: Consent,
    pub process_personal_data_from_16_to_17: Consent,
}

impl View for UsNat {
    type V = UsNat;

    open spec fn view(&self) -> UsNat {
        *self
    }
}

impl View for Core {
    type V = Core;

    open spec fn view(&self) -> Core {
        *self
    }
}

impl SensitiveDataProcessingV1 {
    /// The values of the 12 codes from index `at`.
    pub open spec fn spec_from_codes(c: Seq<u8>, at: int) -> SensitiveDataProcessingV1 {
        SensitiveDataProcessingV1 {
            racial_or_ethnic_origin: Consent::spec_from_code(c[at] as nat),
            religious_or_philosophical_beliefs: Consent::spec_from_code(c[at + 1] as nat),
            health_data: Consent::spec_from_code(c[at + 2] as nat),
            sex_life_or_sexual_orientation: Consent::spec_from_code(c[at + 3] as nat),
            citizenship_or_immigration_status: Consent::spec_from_code(c[at + 4] as nat),
            genetic_unique_identification: Consent::spec_from_code(c[at + 5] as nat),
            biometric_unique_identification: Consent::spec_from_code(c[at + 6] as nat),
            precise_geolocation_data: Consent::spec_from_code(c[at + 7] as nat),
            identification_documents: Consent::spec_from_code(c[at + 8] as nat),
            financial_data: Consent::spec_from_code(c[at + 9] as nat),
            union_membership: Consent::spec_from_code(c[at + 10] as nat),
            mail_email_or_text_messages: Consent::spec_from_code(c[at + 11] as nat),
        }
    }

    /// The values of the 12 codes from index `at`.
    pub fn from_codes(c: &Vec<u8>, at: usize) -> (r: SensitiveDataProcessingV1)
        requires
            at + 12 <= c.len(),
        ensures
            r == Self::spec_from_codes(c@, at as int),
    {
        SensitiveDataProcessingV1 {
            racial_or_ethnic_origin: Consent::from_code(c[at]),
            religious_or_philosophical_beliefs: Consent::from_code(c[at + 1]),
            health_data: Consent::from_code(c[at + 2]),
            sex_life_or_sexual_orientation: Consent::from_code(c[at + 3]),
            citizenship_or_immigration_status: Consent::from_code(c[at + 4]),
            genetic_unique_identification: Consent::from_code(c[at + 5]),
            biometric_unique_identification: Consent::from_code(c[at + 6]),
            precise_geolocation_data: Consent::from_code(c[at + 7]),
            identification_documents: Consent::from_code(c[at + 8]),
            financial_data: Consent::from_code(c[at + 9]),
            union_membership: Consent::from_code(c[at + 10]),
            mail_email_or_text_messages: Consent::from_code(c[at + 11]),
        }
    }
}

impl KnownChildSensitiveDataConsentsV1 {
    /// The values of the 2 codes from index `at`.
    pub open spec fn spec_from_codes(c: Seq<u8>, at: int) -> KnownChildSensitiveDataConsentsV1 {
        KnownChildSensitiveDataConsentsV1 {
            from_13_to_16: Consent::spec_from_code(c[at] as nat),
            under_13: Consent::spec_from_code(c[at + 1] as nat),
        }
    }

    /// The values of the 2 codes from index `at`.
    pub fn from_codes(c: &Vec<u8>, at: usize) -> (r: KnownChildSensitiveDataConsentsV1)
        requires
            at + 2 <= c.len(),
        ensures
            r == Self::spec_from_codes(c@, at as int),
    {
        KnownChildSensitiveDataConsentsV1 {
            from_13_to_16: Consent::from_code(c[at]),
            under_13: Consent::from_code(c[at + 1]),
        }
    }
}

impl SensitiveDataProcessingV2 {
    /// The values of the 16 codes from index `at`.
    pub open spec fn spec_from_codes(c: Seq<u8>, at: int) -> SensitiveDataProcessingV2 {
        SensitiveDataProcessingV2 {
            racial_or_ethnic_origin: Consent::spec_from_code(c[at] as nat),
            religious_or_philosophical_beliefs: Consent::spec_from_code(c[at + 1] as nat),
            health_data: Consent::spec_from_code(c[at + 2] as nat),
            sex_life_or_sexual_orientation: Consent::spec_from_code(c[at + 3] as nat),
            citizenship_or_immigration_status: Consent::spec_from_code(c[at + 4] as nat),
            genetic_unique_identification: Consent::spec_from_code(c[at + 5] as nat),
            biometric_unique_identification: Consent::spec_from_code(c[at + 6] as nat),
            precise_geolocation_data: Consent::spec_from_code(c[at + 7] as nat),
            identification_documents: Consent::spec_from_code(c[at + 8] as nat),
            financial_account_data: Consent::spec_from_code(c[at + 9] as nat),
            union_membership: Consent::spec_from_code(c[at + 10] as nat),
            mail_email_or_text_messages: Consent::spec_from_code(c[at + 11] as nat),
            general_health_data: Consent::spec_from_code(c[at + 12] as nat),
            crime_victim_status: Consent::spec_from_code(c[at + 13] as nat),
            national_origin: Consent::spec_from_code(c[at + 14] as nat),
            transgender_or_nonbinary_status: Consent::spec_from_code(c[at + 15] as nat),
        }
    }

    /// The values of the 16 codes from index `at`.
    pub fn from_codes(c: &Vec<u8>, at: usize) -> (r: SensitiveDataProcessingV2)
        requires
            at + 16 <= c.len(),
        ensures
            r == Self::spec_from_codes(c@, at as int),
    {
        SensitiveDataProcessingV2 {
            racial_or_ethnic_origin: Consent::from_code(c[at]),
            religious_or_philosophical_beliefs: Consent::from_code(c[at + 1]),
            health_data: Consent::from_code(c[at + 2]),
            sex_life_or_sexual_orientation: Consent::from_code(c[at + 3]),
            citizenship_or_immigration_status: Consent::from_code(c[at + 4]),
            genetic_unique_identification: Consent::from_code(c[at + 5]),
            biometric_unique_identification: Consent::from_code(c[at + 6]),
            precise_geolocation_data: Consent::from_code(c[at + 7]),
            identification_documents: Consent::from_code(c[at + 8]),
            financial_account_data: Consent::from_code(c[at + 9]),
            union_membership: Consent::from_code(c[at + 10]),
            mail_email_or_text_messages: Consent::from_code(c[at + 11]),
            general_health_data: Consent::from_code(c[at + 12]),
            crime_victim_status: Consent::from_code(c[at + 13]),
            national_origin: Consent::from_code(c[at + 14]),
            transgender_or_nonbinary_status: Consent::from_code(c[at + 15]),
        }
    }
}

impl KnownChildSensitiveDataConsentsV2 {
    /// The values of the 3 codes from index `at`.
    pub open spec fn spec_from_codes(c: Seq<u8>, at: int) -> KnownChildSensitiveDataConsentsV2 {
        KnownChildSensitiveDataConsentsV2 {
            process_sensitive_data_from_13_to_16: Consent::spec_from_code(c[at] as nat),
            process_sensitive_data_under_13: Consent::spec_from_code(c[at + 1] as nat),
            process_personal_data_from_16_to_17: Consent::spec_from_code(c[at + 2] as nat),
        }
    }

    /// The values of the 3 codes from index `at`.
    pub fn from_codes(c: &Vec<u8>, at: usize) -> (r: KnownChildSensitiveDataConsentsV2)
        requires
            at + 3 <= c.len(),
        ensures
            r == Self::spec_from_codes(c@, at as int),
    {
        KnownChildSensitiveDataConsentsV2 {
            process_sensitive_data_from_13_to_16: Consent::from_code(c[at]),
            process_sensitive_data_under_13: Consent::from_code(c[at + 1]),
            process_personal_data_from_16_to_17: Consent::from_code(c[at + 2]),
        }
    }
}

impl CoreV1 {
    /// The core made of the 24 codes `a` before the covered transaction
    /// field, that field `covered`, and the 2 codes `b` after it.
    pub open spec fn spec_from_codes(a: Seq<u8>, covered: bool, b: Seq<u8>) -> CoreV1 {
        CoreV1 {
            sharing_notice: Notice::spec_from_code(a[0] as nat),
            sale_opt_out_notice: Notice::spec_from_code(a[1] as nat),
            sharing_opt_out_notice: Notice::spec_from_code(a[2] as nat),
            targeted_advertising_opt_out_notice: Notice::spec_from_code(a[3] as nat),
            sensitive_data_processing_opt_out_notice: Notice::spec_from_code(a[4] as nat),
            sensitive_data_limit_use_notice: Notice::spec_from_code(a[5] as nat),
            sale_opt_out: OptOut::spec_from_code(a[6] as nat),
            sharing_opt_out: OptOut::spec_from_code(a[7] as nat),
            targeted_advertising_opt_out: OptOut::spec_from_code(a[8] as nat),
            sensitive_data_processing: SensitiveDataProcessingV1::spec_from_codes(a, 9),
            known_child_sensitive_data_consents: KnownChildSensitiveDataConsentsV1::spec_from_codes(a, 21),
            personal_data_consent: Consent::spec_from_code(a[23] as nat),
            mspa_covered_transaction: covered,
            mspa_opt_out_option_mode: MspaMode::spec_from_code(b[0] as nat),
            mspa_service_provider_mode: MspaMode::spec_from_code(b[1] as nat),
        }
    }

    /// The core made of the codes `a`, the covered transaction field and the codes `b`.
    pub fn from_codes(a: &Vec<u8>, covered: bool, b: &Vec<u8>) -> (r: CoreV1)
        requires
            a.len() == 24,
            b.len() == 2,
        ensures
            r == Self::spec_from_codes(a@, covered, b@),
    {
        CoreV1 {
            sharing_notice: Notice::from_code(a[0]),
            sale_opt_out_notice: Notice::from_code(a[1]),
            sharing_opt_out_notice: Notice::from_code(a[2]),
            targeted_advertising_opt_out_notice: Notice::from_code(a[3]),
            sensitive_data_processing_opt_out_notice: Notice::from_code(a[4]),
            sensitive_data_limit_use_notice: Notice::from_code(a[5]),
            sale_opt_out: OptOut::from_code(a[6]),
            sharing_opt_out: OptOut::from_code(a[7]),
            targeted_advertising_opt_out: OptOut::from_code(a[8]),
            sensitive_data_processing: SensitiveDataProcessingV1::from_codes(&a, 9),
            known_child_sensitive_data_consents: KnownChildSensitiveDataConsentsV1::from_codes(&a, 21),
            personal_data_consent: Consent::from_code(a[23]),
            mspa_covered_transaction: covered,
            mspa_opt_out_option_mode: MspaMode::from_code(b[0]),
            mspa_service_provider_mode: MspaMode::from_code(b[1]),
        }
    }
}

impl CoreV2 {
    /// The core made of the 29 codes `a` before the covered transaction
    /// field, that field `covered`, and the 2 codes `b` after it.
    pub open spec fn spec_from_codes(a: Seq<u8>, covered: bool, b: Seq<u8>) -> CoreV2 {
        CoreV2 {
            sharing_notice: Notice::spec_from_code(a[0] as nat),
            sale_opt_out_notice: Notice::spec_from_code(a[1] as nat),
            sharing_opt_out_notice: Notice::spec_from_code(a[2] as nat),
            targeted_advertising_opt_out_notice: Notice::spec_from_code(a[3] as nat),
            sensitive_data_processing_opt_out_notice: Notice::spec_from_code(a[4] as nat),
            sensitive_data_limit_use_notice: Notice::spec_from_code(a[5] as nat),
            sale_opt_out: OptOut::spec_from_code(a[6] as nat),
            sharing_opt_out: OptOut::spec_from_code(a[7] as nat),
            targeted_advertising_opt_out: OptOut::spec_from_code(a[8] as nat),
            sensitive_data_processing: SensitiveDataProcessingV2::spec_from_codes(a, 9),
            known_child_sensitive_data_consents: KnownChildSensitiveDataConsentsV2::spec_from_codes(a, 25),
            personal_data_consent: Consent::spec_from_code(a[28] as nat),
            mspa_covered_transaction: covered,
            mspa_opt_out_option_mode: MspaMode::spec_from_code(b[0] as nat),
            mspa_service_provider_mode: MspaMode::spec_from_code(b[1] as nat),
        }
    }

    /// The core made of the codes `a`, the covered transaction field and the codes `b`.
    pub fn from_codes(a: &Vec<u8>, covered: bool, b: &Vec<u8>) -> (r: CoreV2)
        requires
            a.len() == 29,
            b.len() == 2,
        ensures
            r == Self::spec_from_codes(a@, covered, b@),
    {
        CoreV2 {
            sharing_notice: Notice::from_code(a[0]),
            sale_opt_out_notice: Notice::from_code(a[1]),
            sharing_opt_out_notice: Notice::from_code(a[2]),
            targeted_advertising_opt_out_notice: Notice::from_code(a[3]),
            sensitive_data_processing_opt_out_notice: Notice::from_code(a[4]),
            sensitive_data_limit_use_notice: Notice::from_code(a[5]),
            sale_opt_out: OptOut::from_code(a[6]),
            sharing_opt_out: OptOut::from_code(a[7]),
            targeted_advertising_opt_out: OptOut::from_code(a[8]),
            sensitive_data_processing: SensitiveDataProcessingV2::from_codes(&a, 9),
            known_child_sensitive_data_consents: KnownChildSensitiveDataConsentsV2::from_codes(&a, 25),
            personal_data_consent: Consent::from_code(a[28]),
            mspa_covered_transaction: covered,
            mspa_opt_out_option_mode: MspaMode::from_code(b[0]),
            mspa_service_provider_mode: MspaMode::from_code(b[1]),
        }
    }
}

impl FromDataReader for Core {
    /// The version, then the fields of version 1 (24 codes, the covered
    /// transaction field, 2 codes) or of version 2 (29 codes, the covered
    /// transaction field, 2 codes); any other version is refused.
    open spec fn spec_read(bits: Seq<bool>, end: ReadError, pos: int) -> SectionStep<Core> {
        match sread(bits, end, pos, 6) {
            Err(e) => Err(e),
            Ok((v, p)) => if v == 1 {
                match spec_read_core_fields(bits, end, p, 24, 2) {
                    Err(e) => Err(e),
                    Ok(((a, covered, b), q)) => Ok((Core::V1(CoreV1::spec_from_codes(a, covered, b)), q)),
                }
            } else if v == 2 {
                match spec_read_core_fields(bits, end, p, 29, 2) {
                    Err(e) => Err(e),
                    Ok(((a, covered, b), q)) => Ok((Core::V2(CoreV2::spec_from_codes(a, covered, b)), q)),
                }
            } else {
                Err(SectionDecodeErrorView::UnknownSegmentVersion { segment_version: v as u8 })
            },
        }
    }

    proof fn lemma_read_supported(bits: Seq<bool>, end: ReadError, pos: int) {
    }

    fn from_data_reader(r: &mut DataReader) -> (res: Result<Core, SectionDecodeError>) {
        let version = r.read_u8_field(6)?;
        if version == 1 {
            let (a, covered, b) = read_core_fields(r, 24, 2)?;
            Ok(Core::V1(CoreV1::from_codes(&a, covered, &b)))
        } else if version == 2 {
            let (a, covered, b) = read_core_fields(r, 29, 2)?;
            Ok(Core::V2(CoreV2::from_codes(&a, covered, &b)))
        } else {
            Err(SectionDecodeError::UnknownSegmentVersion { segment_version: version })
        }
    }
}

impl FromDataReader for UsNat {
    /// The core segment; no optional segment yet.
    open spec fn spec_read(bits: Seq<bool>, end: ReadError, pos: int) -> SectionStep<UsNat> {
        match Core::spec_read(bits, end, pos) {
            Err(e) => Err(e),
            Ok((core, p)) => Ok((UsNat { core, gpc: None }, p)),
        }
    }

    proof fn lemma_read_supported(bits: Seq<bool>, end: ReadError, pos: int) {
    }

    fn from_data_reader(r: &mut DataReader) -> (res: Result<UsNat, SectionDecodeError>) {
        let core: Core = r.parse()?;
        Ok(UsNat { core, gpc: None })
    }
}

impl OptionalSegmentParser for UsNat {
    open spec fn spec_segment_type_bits() -> int {
        2
    }

    /// The segment of type 1 is the Global Privacy Control flag.
    open spec fn spec_segment(t: u8, bits: Seq<bool>, end: ReadError, pos: int, into: UsNat) -> Result<UsNat, SectionDecodeErrorView> {
        match spec_gpc_segment(t, bits, end, pos) {
            Ok(b) => Ok(UsNat { gpc: Some(b), ..into }),
            Err(e) => Err(e),
        }
    }

    proof fn lemma_segment_supported(t: u8, bits: Seq<bool>, end: ReadError, pos: int, into: UsNat) {
    }

    proof fn lemma_segments_commute(
        t1: u8,
        bits1: Seq<bool>,
        end1: ReadError,
        pos1: int,
        t2: u8,
        bits2: Seq<bool>,
        end2: ReadError,
        pos2: int,
        acc: UsNat,
    ) {
    }

    fn read_segment_type(r: &mut DataReader) -> (res: Result<u8, SectionDecodeError>) {
        r.read_u8_field(2)
    }

    fn parse_optional_segment(segment_type: u8, r: &mut DataReader, into: &mut UsNat) -> (res: Result<(), SectionDecodeError>) {
        let b = read_gpc_segment(segment_type, r)?;
        into.gpc = Some(b);
        Ok(())
    }
}

/// The fields of a National core that its consistency check looks at.
#[derive(Clone, Copy, Debug, PartialEq, Eq, Structural)]
pub struct CheckedFields {
    pub sharing_notice: Notice,
    pub sale_opt_out_notice: Notice,
    pub sharing_opt_out_notice: Notice,
    pub targeted_advertising_opt_out_notice: Notice,
    pub sensitive_data_limit_use_notice: Notice,
    pub sale_opt_out: OptOut,
    pub sharing_opt_out: OptOut,
    pub targeted_advertising_opt_out: OptOut,
    pub mspa_opt_out_option_mode: MspaMode,
    pub mspa_service_provider_mode: MspaMode,
}

impl Core {
    /// The checked fields of this core, whichever its version.
    pub open spec fn spec_checked_fields(self) -> CheckedFields {
        match self {
            Core::V1(c) => CheckedFields {
                sharing_notice: c.sharing_notice,
                sale_opt_out_notice: c.sale_opt_out_notice,
                sharing_opt_out_notice: c.sharing_opt_out_notice,
                targeted_advertising_opt_out_notice: c.targeted_advertising_opt_out_notice,
                sensitive_data_limit_use_notice: c.sensitive_data_limit_use_notice,
                sale_opt_out: c.sale_opt_out,
                sharing_opt_out: c.sharing_opt_out,
                targeted_advertising_opt_out: c.targeted_advertising_opt_out,
                mspa_opt_out_option_mode: c.mspa_opt_out_option_mode,
                mspa_service_provider_mode: c.mspa_service_provider_mode,
            },
            Core::V2(c) => CheckedFields {
                sharing_notice: c.sharing_notice,
                sale_opt_out_notice: c.sale_opt_out_notice,
                sharing_opt_out_notice: c.sharing_opt_out_notice,
                targeted_advertising_opt_out_notice: c.targeted_advertising_opt_out_notice,
                sensitive_data_limit_use_notice: c.sensitive_data_limit_use_notice,
                sale_opt_out: c.sale_opt_out,
                sharing_opt_out: c.sharing_opt_out,
                targeted_advertising_opt_out: c.targeted_advertising_opt_out,
                mspa_opt_out_option_mode: c.mspa_opt_out_option_mode,
                mspa_service_provider_mode: c.mspa_service_provider_mode,
            },
        }
    }

    /// The checked fields of this core, whichever its version.
    pub fn checked_fields(&self) -> (r: CheckedFields)
        ensures
            r == self.spec_checked_fields(),
    {
        match self {
            Core::V1(c) => CheckedFields {
                sharing_notice: c.sharing_notice,
                sale_opt_out_notice: c.sale_opt_out_notice,
                sharing_opt_out_notice: c.sharing_opt_out_notice,
                targeted_advertising_opt_out_notice: c.targeted_advertising_opt_out_notice,
                sensitive_data_limit_use_notice: c.sensitive_data_limit_use_notice,
                sale_opt_out: c.sale_opt_out,
                sharing_opt_out: c.sharing_opt_out,
                targeted_advertising_opt_out: c.targeted_advertising_opt_out,
                mspa_opt_out_option_mode: c.mspa_opt_out_option_mode,
                mspa_service_provider_mode: c.mspa_service_provider_mode,
            },
            Core::V2(c) => CheckedFields {
                sharing_notice: c.sharing_notice,
                sale_opt_out_notice: c.sale_opt_out_notice,
                sharing_opt_out_notice: c.sharing_opt_out_notice,
                targeted_advertising_opt_out_notice: c.targeted_advertising_opt_out_notice,
                sensitive_data_limit_use_notice: c.sensitive_data_limit_use_notice,
                sale_opt_out: c.sale_opt_out,
                sharing_opt_out: c.sharing_opt_out,
                targeted_advertising_opt_out: c.targeted_advertising_opt_out,
                mspa_opt_out_option_mode: c.mspa_opt_out_option_mode,
                mspa_service_provider_mode: c.mspa_service_provider_mode,
            },
        }
    }
}

impl UsNat {
    /// The disagreements between the fields of this section, in the order in
    /// which [`UsNat::validate`] reports them.
    pub open spec fn spec_violations(&self) -> Seq<Disagreement> {
        let c = self.core.spec_checked_fields();
        let sp = c.mspa_service_provider_mode;
        let oo = c.mspa_opt_out_option_mode;
        let by_sp = |field: Seq<char>, v: u8| ("mspa_service_provider_mode"@, sp.spec_code(), field, v);
        let notices = |s: Seq<Disagreement>|
            s
                + flag(c.sale_opt_out_notice != Notice::NotApplicable, by_sp("sale_opt_out_notice"@, c.sale_opt_out_notice.spec_code()))
                + flag(c.sharing_opt_out_notice != Notice::NotApplicable, by_sp("sharing_opt_out_notice"@, c.sharing_opt_out_notice.spec_code()))
                + flag(c.sensitive_data_limit_use_notice != Notice::NotApplicable, by_sp("sensitive_data_limit_use_notice"@, c.sensitive_data_limit_use_notice.spec_code()));
        let base = Seq::empty()
            + flag(
            !spec_notice_and_opt_out_ok(c.sharing_notice, c.sharing_opt_out),
            ("sharing_notice"@, c.sharing_notice.spec_code(), "sharing_opt_out"@, c.sharing_opt_out.spec_code()),
        )
            + flag(
            !spec_notice_and_opt_out_ok(c.sharing_opt_out_notice, c.sharing_opt_out),
            ("sharing_opt_out_notice"@, c.sharing_opt_out_notice.spec_code(), "sharing_opt_out"@, c.sharing_opt_out.spec_code()),
        )
            + flag(
            !spec_notice_and_opt_out_ok(c.sale_opt_out_notice, c.sale_opt_out),
            ("sale_opt_out_notice"@, c.sale_opt_out_notice.spec_code(), "sale_opt_out"@, c.sale_opt_out.spec_code()),
        )
            + flag(
            !spec_notice_and_opt_out_ok(c.targeted_advertising_opt_out_notice, c.targeted_advertising_opt_out),
            ("targeted_advertising_opt_out_notice"@, c.targeted_advertising_opt_out_notice.spec_code(), "targeted_advertising_opt_out_opt_out"@, c.targeted_advertising_opt_out.spec_code()),
        );
        if sp == MspaMode::NotApplicable {
            notices(base)
        } else if sp == MspaMode::Yes {
            notices(base + flag(oo != MspaMode::No, by_sp("mspa_opt_out_option_mode"@, oo.spec_code())))
        } else {
            base + flag(oo != MspaMode::Yes, by_sp("mspa_opt_out_option_mode"@, oo.spec_code()))
        }
    }

    /// Checks the consistency of values in the already populated fields.
    ///
    /// While CMPs shouldn't be able to generate invalid combinations, the binary wire format
    /// does not prevent it.
    pub fn validate(&self) -> (r: Result<(), Vec<ValidationError>>)
        ensures
            validation_result(r, self.spec_violations()),
    {
        let c = self.core.checked_fields();
        let sp = c.mspa_service_provider_mode;
        let oo = c.mspa_opt_out_option_mode;
        let mut errors: Vec<ValidationError> = Vec::new();
        proof {
            assert(views(errors@) =~= Seq::empty());
        }
        push_if(
            &mut errors,
            !is_notice_and_opt_out_combination_ok(&c.sharing_notice, &c.sharing_opt_out),
            "sharing_notice",
            c.sharing_notice.to_u8(),
            "sharing_opt_out",
            c.sharing_opt_out.to_u8(),
        );
        push_if(
            &mut errors,
            !is_notice_and_opt_out_combination_ok(&c.sharing_opt_out_notice, &c.sharing_opt_out),
            "sharing_opt_out_notice",
            c.sharing_opt_out_notice.to_u8(),
            "sharing_opt_out",
            c.sharing_opt_out.to_u8(),
        );
        push_if(
            &mut errors,
            !is_notice_and_opt_out_combination_ok(&c.sale_opt_out_notice, &c.sale_opt_out),
            "sale_opt_out_notice",
            c.sale_opt_out_notice.to_u8(),
            "sale_opt_out",
            c.sale_opt_out.to_u8(),
        );
        push_if(
            &mut errors,
            !is_notice_and_opt_out_combination_ok(&c.targeted_advertising_opt_out_notice, &c.targeted_advertising_opt_out),
            "targeted_advertising_opt_out_notice",
            c.targeted_advertising_opt_out_notice.to_u8(),
            "targeted_advertising_opt_out_opt_out",
            c.targeted_advertising_opt_out.to_u8(),
        );
        if sp == MspaMode::No {
            push_if(&mut errors, oo != MspaMode::Yes, "mspa_service_provider_mode", sp.to_u8(), "mspa_opt_out_option_mode", oo.to_u8());
        } else {
            if sp == MspaMode::Yes {
                push_if(&mut errors, oo != MspaMode::No, "mspa_service_provider_mode", sp.to_u8(), "mspa_opt_out_option_mode", oo.to_u8());
            }
            push_if(
                &mut errors,
                c.sale_opt_out_notice != Notice::NotApplicable,
                "mspa_service_provider_mode",
                sp.to_u8(),
                "sale_opt_out_notice",
                c.sale_opt_out_notice.to_u8(),
            );
            push_if(
                &mut errors,
                c.sharing_opt_out_notice != Notice::NotApplicable,
                "mspa_service_provider_mode",
                sp.to_u8(),
                "sharing_opt_out_notice",
                c.sharing_opt_out_notice.to_u8(),
            );
            push_if(
                &mut errors,
                c.sensitive_data_limit_use_notice != Notice::NotApplicable,
                "mspa_service_provider_mode",
                sp.to_u8(),
                "sensitive_data_limit_use_notice",
                c.sensitive_data_limit_use_notice.to_u8(),
            );
        }
        validation_outcome(errors)
    }
}

impl DecodableSection for UsNat {
    const ID: SectionId = SectionId::UsNat;

    open spec fn spec_decode(s: Seq<char>) -> Result<UsNat, SectionDecodeErrorView> {
        spec_parse_segmented_str::<UsNat>(s)
    }

    proof fn lemma_decode_supported(s: Seq<char>) {
        crate::sections::lemma_segmented_supported::<UsNat>(s);
    }

    fn decode_str(s: &str) -> (r: Result<UsNat, SectionDecodeError>) {
        parse_segmented_str(s)
    }
}

impl std::str::FromStr for UsNat {
    type Err = SectionDecodeError;

    fn from_str(s: &str) -> (r: Result<UsNat, SectionDecodeError>)
        ensures
            crate::sections::result_view(r) == UsNat::spec_decode(s@),
    {
        UsNat::decode_str(s)
    }
}

/// Where each field of a core read at `pos` comes from: after the 6-bit
/// version (1 or 2), the fields hold the 2-bit codes that follow, in field order, and
/// the covered transaction field, after the first 24 (version 1) or 29 (version 2) codes, holds exactly
/// when its two bits hold 1.
pub proof fn lemma_core_layout(bits: Seq<bool>, end: ReadError, pos: int)
    requires
        0 <= pos,
        Core::spec_read(bits, end, pos) is Ok,
    ensures
        match Core::spec_read(bits, end, pos)->Ok_0.0 {
            Core::V1(c) => {
                &&& crate::sections::bits_at(bits, pos, 6) == 1
                &&& c.sharing_notice == Notice::spec_from_code(crate::sections::bits_at(bits, pos + 6, 2))
                &&& c.sale_opt_out_notice == Notice::spec_from_code(crate::sections::bits_at(bits, pos + 8, 2))
                &&& c.sharing_opt_out_notice == Notice::spec_from_code(crate::sections::bits_at(bits, pos + 10, 2))
                &&& c.targeted_advertising_opt_out_notice == Notice::spec_from_code(crate::sections::bits_at(bits, pos + 12, 2))
                &&& c.sensitive_data_processing_opt_out_notice == Notice::spec_from_code(crate::sections::bits_at(bits, pos + 14, 2))
                &&& c.sensitive_data_limit_use_notice == Notice::spec_from_code(crate::sections::bits_at(bits, pos + 16, 2))
                &&& c.sale_opt_out == OptOut::spec_from_code(crate::sections::bits_at(bits, pos + 18, 2))
                &&& c.sharing_opt_out == OptOut::spec_from_code(crate::sections::bits_at(bits, pos + 20, 2))
                &&& c.targeted_advertising_opt_out == OptOut::spec_from_code(crate::sections::bits_at(bits, pos + 22, 2))
                &&& c.sensitive_data_processing.racial_or_ethnic_origin == Consent::spec_from_code(crate::sections::bits_at(bits, pos + 24, 2))
                &&& c.sensitive_data_processing.religious_or_philosophical_beliefs == Consent::spec_from_code(crate::sections::bits_at(bits, pos + 26, 2))
                &&& c.sensitive_data_processing.health_data == Consent::spec_from_code(crate::sections::bits_at(bits, pos + 28, 2))
                &&& c.sensitive_data_processing.sex_life_or_sexual_orientation == Consent::spec_from_code(crate::sections::bits_at(bits, pos + 30, 2))
                &&& c.sensitive_data_processing.citizenship_or_immigration_status == Consent::spec_from_code(crate::sections::bits_at(bits, pos + 32, 2))
                &&& c.sensitive_data_processing.genetic_unique_identification == Consent::spec_from_code(crate::sections::bits_at(bits, pos + 34, 2))
                &&& c.sensitive_data_processing.biometric_unique_identification == Consent::spec_from_code(crate::sections::bits_at(bits, pos + 36, 2))
                &&& c.sensitive_data_processing.precise_geolocation_data == Consent::spec_from_code(crate::sections::bits_at(bits, pos + 38, 2))
                &&& c.sensitive_data_processing.identification_documents == Consent::spec_from_code(crate::sections::bits_at(bits, pos + 40, 2))
                &&& c.sensitive_data_processing.financial_data == Consent::spec_from_code(crate::sections::bits_at(bits, pos + 42, 2))
                &&& c.sensitive_data_processing.union_membership == Consent::spec_from_code(crate::sections::bits_at(bits, pos + 44, 2))
                &&& c.sensitive_data_processing.mail_email_or_text_messages == Consent::spec_from_code(crate::sections::bits_at(bits, pos + 46, 2))
                &&& c.known_child_sensitive_data_consents.from_13_to_16 == Consent::spec_from_code(crate::sections::bits_at(bits, pos + 48, 2))
                &&& c.known_child_sensitive_data_consents.under_13 == Consent::spec_from_code(crate::sections::bits_at(bits, pos + 50, 2))
                &&& c.personal_data_consent == Consent::spec_from_code(crate::sections::bits_at(bits, pos + 52, 2))
                &&& c.mspa_covered_transaction == (crate::sections::bits_at(bits, pos + 54, 2) == 1)
                &&& c.mspa_opt_out_option_mode == MspaMode::spec_from_code(crate::sections::bits_at(bits, pos + 56, 2))
                &&& c.mspa_service_provider_mode == MspaMode::spec_from_code(crate::sections::bits_at(bits, pos + 58, 2))
            },
            Core::V2(c) => {
                &&& crate::sections::bits_at(bits, pos, 6) == 2
                &&& c.sharing_notice == Notice::spec_from_code(crate::sections::bits_at(bits, pos + 6, 2))
                &&& c.sale_opt_out_notice == Notice::spec_from_code(crate::sections::bits_at(bits, pos + 8, 2))
                &&& c.sharing_opt_out_notice == Notice::spec_from_code(crate::sections::bits_at(bits, pos + 10, 2))
                &&& c.targeted_advertising_opt_out_notice == Notice::spec_from_code(crate::sections::bits_at(bits, pos + 12, 2))
                &&& c.sensitive_data_processing_opt_out_notice == Notice::spec_from_code(crate::sections::bits_at(bits, pos + 14, 2))
                &&& c.sensitive_data_limit_use_notice == Notice::spec_from_code(crate::sections::bits_at(bits, pos + 16, 2))
                &&& c.sale_opt_out == OptOut::spec_from_code(crate::sections::bits_at(bits, pos + 18, 2))
                &&& c.sharing_opt_out == OptOut::spec_from_code(crate::sections::bits_at(bits, pos + 20, 2))
                &&& c.targeted_advertising_opt_out == OptOut::spec_from_code(crate::sections::bits_at(bits, pos + 22, 2))
                &&& c.sensitive_data_processing.racial_or_ethnic_origin == Consent::spec_from_code(crate::sections::bits_at(bits, pos + 24, 2))
                &&& c.sensitive_data_processing.religious_or_philosophical_beliefs == Consent::spec_from_code(crate::sections::bits_at(bits, pos + 26, 2))
                &&& c.sensitive_data_processing.health_data == Consent::spec_from_code(crate::sections::bits_at(bits, pos + 28, 2))
                &&& c.sensitive_data_processing.sex_life_or_sexual_orientation == Consent::spec_from_code(crate::sections::bits_at(bits, pos + 30, 2))
                &&& c.sensitive_data_processing.citizenship_or_immigration_status == Consent::spec_from_code(crate::sections::bits_at(bits, pos + 32, 2))
                &&& c.sensitive_data_processing.genetic_unique_identification == Consent::spec_from_code(crate::sections::bits_at(bits, pos + 34, 2))
                &&& c.sensitive_data_processing.biometric_unique_identification == Consent::spec_from_code(crate::sections::bits_at(bits, pos + 36, 2))
                &&& c.sensitive_data_processing.precise_geolocation_data == Consent::spec_from_code(crate::sections::bits_at(bits, pos + 38, 2))
                &&& c.sensitive_data_processing.identification_documents == Consent::spec_from_code(crate::sections::bits_at(bits, pos + 40, 2))
                &&& c.sensitive_data_processing.financial_account_data == Consent::spec_from_code(crate::sections::bits_at(bits, pos + 42, 2))
                &&& c.sensitive_data_processing.union_membership == Consent::spec_from_code(crate::sections::bits_at(bits, pos + 44, 2))
                &&& c.sensitive_data_processing.mail_email_or_text_messages == Consent::spec_from_code(crate::sections::bits_at(bits, pos + 46, 2))
                &&& c.sensitive_data_processing.general_health_data == Consent::spec_from_code(crate::sections::bits_at(bits, pos + 48, 2))
                &&& c.sensitive_data_processing.crime_victim_status == Consent::spec_from_code(crate::sections::bits_at(bits, pos + 50, 2))
                &&& c.sensitive_data_processing.national_origin == Consent::spec_from_code(crate::sections::bits_at(bits, pos + 52, 2))
                &&& c.sensitive_data_processing.transgender_or_nonbinary_status == Consent::spec_from_code(crate::sections::bits_at(bits, pos + 54, 2))
                &&& c.known_child_sensitive_data_consents.process_sensitive_data_from_13_to_16 == Consent::spec_from_code(crate::sections::bits_at(bits, pos + 56, 2))
                &&& c.known_child_sensitive_data_consents.process_sensitive_data_under_13 == Consent::spec_from_code(crate::sections::bits_at(bits, pos + 58, 2))
                &&& c.known_child_sensitive_data_consents.process_personal_data_from_16_to_17 == Consent::spec_from_code(crate::sections::bits_at(bits, pos + 60, 2))
                &&& c.personal_data_consent == Consent::spec_from_code(crate::sections::bits_at(bits, pos + 62, 2))
                &&& c.mspa_covered_transaction == (crate::sections::bits_at(bits, pos + 64, 2) == 1)
                &&& c.mspa_opt_out_option_mode == MspaMode::spec_from_code(crate::sections::bits_at(bits, pos + 66, 2))
                &&& c.mspa_service_provider_mode == MspaMode::spec_from_code(crate::sections::bits_at(bits, pos + 68, 2))
            },
        },
{
    if crate::sections::bits_at(bits, pos, 6) == 1 {
        crate::sections::us_common::lemma_core_fields_bits(bits, end, pos + 6, 24, 2);
    } else {
        crate::sections::us_common::lemma_core_fields_bits(bits, end, pos + 6, 29, 2);
    }
}

} // verus!
