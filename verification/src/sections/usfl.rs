//! The US Florida section.
use vstd::prelude::*;
use crate::encoding::{DataReader, ReadError};
use crate::sections::{DecodableSection, SectionId, parse_base64_str, spec_parse_base64_str, FromDataReader, read_version, spec_read_version, SectionDecodeErrorView, SectionDecodeError, SectionStep};
use crate::sections::us_common::{
    Consent, MspaMode, Notice, OptOut, read_core_fields, spec_read_core_fields,
};

verus! {

/// The Florida section: a single core segment.
#[derive(Clone, Copy, Debug, PartialEq, Eq, Structural)]
pub struct UsFl {
    pub core: Core,
}

/// The core segment.
#[derive(Clone, Copy, Debug, PartialEq, Eq, Structural)]
pub struct Core {
    pub processing_notice: Notice,
    pub sale_opt_out_notice: Notice,
    pub targeted_advertising_opt_out_notice: Notice,
    pub sale_opt_out: OptOut,
    pub targeted_advertising_opt_out: OptOut,
    pub sensitive_data_processing: SensitiveDataProcessing,
    pub known_child_sensitive_data_consents: KnownChildSensitiveDataConsents,
    pub additional_data_processing_consent: Consent,
    pub mspa_covered_transaction: bool,
    pub mspa_opt_out_option_mode: MspaMode,
    pub mspa_service_provider_mode: MspaMode,
}

/// Consents to the processing of sensitive data.
#[derive(Clone, Copy, Debug, PartialEq, Eq, Structural)]
pub struct SensitiveDataProcessing {
    pub racial_or_ethnic_origin: Consent,
    pub religious_beliefs: Consent,
    pub health_data: Consent,
    pub sex_life_or_sexual_orientation: Consent,
    pub citizenship_or_immigration_status: Consent,
    pub genetic_data: Consent,
    pub biometric_data: Consent,
    pub precise_geolocation_data: Consent,
}

/// Consents about the data of known children.
#[derive(Clone, Copy, Debug, PartialEq, Eq, Structural)]
pub struct KnownChildSensitiveDataConsents {
    pub process_sensitive_data_from_known_child: Consent,
    pub sell_personal_data_from_13_to_16: Consent,
    pub process_personal_data_from_13_to_16: Consent,
}

impl View for UsFl {
    type V = UsFl;

    open spec fn view(&self) -> UsFl {
        *self
    }
}

impl View for Core {
    type V = Core;

    open spec fn view(&self) -> Core {
        *self
    }
}

impl SensitiveDataProcessing {
    /// The values of the 8 codes from index `at`.
    pub open spec fn spec_from_codes(c: Seq<u8>, at: int) -> SensitiveDataProcessing {
        SensitiveDataProcessing {
            racial_or_ethnic_origin: Consent::spec_from_code(c[at] as nat),
            religious_beliefs: Consent::spec_from_code(c[at + 1] as nat),
            health_data: Consent::spec_from_code(c[at + 2] as nat),
            sex_life_or_sexual_orientation: Consent::spec_from_code(c[at + 3] as nat),
            citizenship_or_immigration_status: Consent::spec_from_code(c[at + 4] as nat),
            genetic_data: Consent::spec_from_code(c[at + 5] as nat),
            biometric_data: Consent::spec_from_code(c[at + 6] as nat),
            precise_geolocation_data: Consent::spec_from_code(c[at + 7] as nat),
        }
    }

    /// The values of the 8 codes from index `at`.
    pub fn from_codes(c: &Vec<u8>, at: usize) -> (r: SensitiveDataProcessing)
        requires
            at + 8 <= c.len(),
        ensures
            r == Self::spec_from_codes(c@, at as int),
    {
        SensitiveDataProcessing {
            racial_or_ethnic_origin: Consent::from_code(c[at]),
            religious_beliefs: Consent::from_code(c[at + 1]),
            health_data: Consent::from_code(c[at + 2]),
            sex_life_or_sexual_orientation: Consent::from_code(c[at + 3]),
            citizenship_or_immigration_status: Consent::from_code(c[at + 4]),
            genetic_data: Consent::from_code(c[at + 5]),
            biometric_data: Consent::from_code(c[at + 6]),
            precise_geolocation_data: Consent::from_code(c[at + 7]),
        }
    }
}

impl KnownChildSensitiveDataConsents {
    /// The values of the 3 codes from index `at`.
    pub open spec fn spec_from_codes(c: Seq<u8>, at: int) -> KnownChildSensitiveDataConsents {
        KnownChildSensitiveDataConsents {
            process_sensitive_data_from_known_child: Consent::spec_from_code(c[at] as nat),
            sell_personal_data_from_13_to_16: Consent::spec_from_code(c[at + 1] as nat),
            process_personal_data_from_13_to_16: Consent::spec_from_code(c[at + 2] as nat),
        }
    }

    /// The values of the 3 codes from index `at`.
    pub fn from_codes(c: &Vec<u8>, at: usize) -> (r: KnownChildSensitiveDataConsents)
        requires
            at + 3 <= c.len(),
        ensures
            r == Self::spec_from_codes(c@, at as int),
    {
        KnownChildSensitiveDataConsents {
            process_sensitive_data_from_known_child: Consent::from_code(c[at]),
            sell_personal_data_from_13_to_16: Consent::from_code(c[at + 1]),
            process_personal_data_from_13_to_16: Consent::from_code(c[at + 2]),
        }
    }
}

impl Core {
    /// The core made of the 17 codes `a` before the covered transaction
    /// field, that field `covered`, and the 2 codes `b` after it.
    pub open spec fn spec_from_codes(a: Seq<u8>, covered: bool, b: Seq<u8>) -> Core {
        Core {
            processing_notice: Notice::spec_from_code(a[0] as nat),
            sale_opt_out_notice: Notice::spec_from_code(a[1] as nat),
            targeted_advertising_opt_out_notice: Notice::spec_from_code(a[2] as nat),
            sale_opt_out: OptOut::spec_from_code(a[3] as nat),
            targeted_advertising_opt_out: OptOut::spec_from_code(a[4] as nat),
            sensitive_data_processing: SensitiveDataProcessing::spec_from_codes(a, 5),
            known_child_sensitive_data_consents: KnownChildSensitiveDataConsents::spec_from_codes(a, 13),
            additional_data_processing_consent: Consent::spec_from_code(a[16] as nat),
            mspa_covered_transaction: covered,
            mspa_opt_out_option_mode: MspaMode::spec_from_code(b[0] as nat),
            mspa_service_provider_mode: MspaMode::spec_from_code(b[1] as nat),
        }
    }

    /// The core made of the codes `a`, the covered transaction field and the codes `b`.
    pub fn from_codes(a: &Vec<u8>, covered: bool, b: &Vec<u8>) -> (r: Core)
        requires
            a.len() == 17,
            b.len() == 2,
        ensures
            r == Self::spec_from_codes(a@, covered, b@),
    {
        Core {
            processing_notice: Notice::from_code(a[0]),
            sale_opt_out_notice: Notice::from_code(a[1]),
            targeted_advertising_opt_out_notice: Notice::from_code(a[2]),
            sale_opt_out: OptOut::from_code(a[3]),
            targeted_advertising_opt_out: OptOut::from_code(a[4]),
            sensitive_data_processing: SensitiveDataProcessing::from_codes(&a, 5),
            known_child_sensitive_data_consents: KnownChildSensitiveDataConsents::from_codes(&a, 13),
            additional_data_processing_consent: Consent::from_code(a[16]),
            mspa_covered_transaction: covered,
            mspa_opt_out_option_mode: MspaMode::from_code(b[0]),
            mspa_service_provider_mode: MspaMode::from_code(b[1]),
        }
    }
}

impl FromDataReader for Core {
    /// The version (1), 17 codes, the covered transaction field and 2
    /// more codes.
    open spec fn spec_read(bits: Seq<bool>, end: ReadError, pos: int) -> SectionStep<Core> {
        match spec_read_version(bits, end, pos, 1) {
            Err(e) => Err(e),
            Ok((_, p)) => match spec_read_core_fields(bits, end, p, 17, 2) {
                Err(e) => Err(e),
                Ok(((a, covered, b), q)) => Ok((Core::spec_from_codes(a, covered, b), q)),
            },
        }
    }

    proof fn lemma_read_supported(bits: Seq<bool>, end: ReadError, pos: int) {
    }

    fn from_data_reader(r: &mut DataReader) -> (res: Result<Core, SectionDecodeError>) {
        read_version(r, 1)?;
        let (a, covered, b) = read_core_fields(r, 17, 2)?;
        Ok(Core::from_codes(&a, covered, &b))
    }
}

impl FromDataReader for UsFl {
    /// The core segment.
    open spec fn spec_read(bits: Seq<bool>, end: ReadError, pos: int) -> SectionStep<UsFl> {
        match Core::spec_read(bits, end, pos) {
            Err(e) => Err(e),
            Ok((core, p)) => Ok((UsFl { core }, p)),
        }
    }

    proof fn lemma_read_supported(bits: Seq<bool>, end: ReadError, pos: int) {
    }

    fn from_data_reader(r: &mut DataReader) -> (res: Result<UsFl, SectionDecodeError>) {
        let core: Core = r.parse()?;
        Ok(UsFl { core })
    }
}

impl DecodableSection for UsFl {
    const ID: SectionId = SectionId::UsFl;

    open spec fn spec_decode(s: Seq<char>) -> Result<UsFl, SectionDecodeErrorView> {
        spec_parse_base64_str::<UsFl>(s)
    }

    proof fn lemma_decode_supported(s: Seq<char>) {
        crate::sections::lemma_base64_supported::<UsFl>(s);
    }

    fn decode_str(s: &str) -> (r: Result<UsFl, SectionDecodeError>) {
        parse_base64_str(s)
    }
}

impl std::str::FromStr for UsFl {
    type Err = SectionDecodeError;

    fn from_str(s: &str) -> (r: Result<UsFl, SectionDecodeError>)
        ensures
            crate::sections::result_view(r) == UsFl::spec_decode(s@),
    {
        UsFl::decode_str(s)
    }
}

/// Where each field of a core read at `pos` comes from: after the 6-bit
/// version, the fields hold the 2-bit codes that follow, in field order, and
/// the covered transaction field, after the first 17 codes, holds exactly
/// when its two bits hold 1.
pub proof fn lemma_core_layout(bits: Seq<bool>, end: ReadError, pos: int)
    requires
        0 <= pos,
        Core::spec_read(bits, end, pos) is Ok,
    ensures
        crate::sections::bits_at(bits, pos, 6) == 1,
        Core::spec_read(bits, end, pos)->Ok_0.0.processing_notice == Notice::spec_from_code(crate::sections::bits_at(bits, pos + 6, 2)),
        Core::spec_read(bits, end, pos)->Ok_0.0.sale_opt_out_notice == Notice::spec_from_code(crate::sections::bits_at(bits, pos + 8, 2)),
        Core::spec_read(bits, end, pos)->Ok_0.0.targeted_advertising_opt_out_notice == Notice::spec_from_code(crate::sections::bits_at(bits, pos + 10, 2)),
        Core::spec_read(bits, end, pos)->Ok_0.0.sale_opt_out == OptOut::spec_from_code(crate::sections::bits_at(bits, pos + 12, 2)),
        Core::spec_read(bits, end, pos)->Ok_0.0.targeted_advertising_opt_out == OptOut::spec_from_code(crate::sections::bits_at(bits, pos + 14, 2)),
        Core::spec_read(bits, end, pos)->Ok_0.0.sensitive_data_processing.racial_or_ethnic_origin == Consent::spec_from_code(crate::sections::bits_at(bits, pos + 16, 2)),
        Core::spec_read(bits, end, pos)->Ok_0.0.sensitive_data_processing.religious_beliefs == Consent::spec_from_code(crate::sections::bits_at(bits, pos + 18, 2)),
        Core::spec_read(bits, end, pos)->Ok_0.0.sensitive_data_processing.health_data == Consent::spec_from_code(crate::sections::bits_at(bits, pos + 20, 2)),
        Core::spec_read(bits, end, pos)->Ok_0.0.sensitive_data_processing.sex_life_or_sexual_orientation == Consent::spec_from_code(crate::sections::bits_at(bits, pos + 22, 2)),
        Core::spec_read(bits, end, pos)->Ok_0.0.sensitive_data_processing.citizenship_or_immigration_status == Consent::spec_from_code(crate::sections::bits_at(bits, pos + 24, 2)),
        Core::spec_read(bits, end, pos)->Ok_0.0.sensitive_data_processing.genetic_data == Consent::spec_from_code(crate::sections::bits_at(bits, pos + 26, 2)),
        Core::spec_read(bits, end, pos)->Ok_0.0.sensitive_data_processing.biometric_data == Consent::spec_from_code(crate::sections::bits_at(bits, pos + 28, 2)),
        Core::spec_read(bits, end, pos)->Ok_0.0.sensitive_data_processing.precise_geolocation_data == Consent::spec_from_code(crate::sections::bits_at(bits, pos + 30, 2)),
        Core::spec_read(bits, end, pos)->Ok_0.0.known_child_sensitive_data_consents.process_sensitive_data_from_known_child == Consent::spec_from_code(crate::sections::bits_at(bits, pos + 32, 2)),
        Core::spec_read(bits, end, pos)->Ok_0.0.known_child_sensitive_data_consents.sell_personal_data_from_13_to_16 == Consent::spec_from_code(crate::sections::bits_at(bits, pos + 34, 2)),
        Core::spec_read(bits, end, pos)->Ok_0.0.known_child_sensitive_data_consents.process_personal_data_from_13_to_16 == Consent::spec_from_code(crate::sections::bits_at(bits, pos + 36, 2)),
        Core::spec_read(bits, end, pos)->Ok_0.0.additional_data_processing_consent == Consent::spec_from_code(crate::sections::bits_at(bits, pos + 38, 2)),
        Core::spec_read(bits, end, pos)->Ok_0.0.mspa_covered_transaction == (crate::sections::bits_at(bits, pos + 40, 2) == 1),
        Core::spec_read(bits, end, pos)->Ok_0.0.mspa_opt_out_option_mode == MspaMode::spec_from_code(crate::sections::bits_at(bits, pos + 42, 2)),
        Core::spec_read(bits, end, pos)->Ok_0.0.mspa_service_provider_mode == MspaMode::spec_from_code(crate::sections::bits_at(bits, pos + 44, 2)),
        Core::spec_read(bits, end, pos)->Ok_0.1 == pos + 46,
{
    crate::sections::us_common::lemma_core_fields_bits(bits, end, pos + 6, 17, 2);
}

} // verus!
