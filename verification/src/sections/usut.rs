//! The US Utah section.
use vstd::prelude::*;
use crate::encoding::{DataReader, ReadError};
use crate::sections::{DecodableSection, SectionDecodeErrorView, SectionId, parse_base64_str, spec_parse_base64_str, FromDataReader, read_version, spec_read_version, SectionDecodeError, SectionStep};
use crate::sections::us_common::{
    Disagreement, flag, is_notice_and_opt_out_combination_ok,
    push_if, read_core_fields, spec_notice_and_opt_out_ok,
    spec_read_core_fields, validation_outcome, validation_result, views,
};
pub use crate::sections::us_common::{MspaMode, Notice, OptOut, Consent, ValidationError};

verus! {

/// The Utah section: a single core segment.
#[derive(Clone, Copy, Debug, PartialEq, Eq, Structural)]
pub struct UsUt {
    pub core: Core,
}

/// The core segment.
#[derive(Clone, Copy, Debug, PartialEq, Eq, Structural)]
pub struct Core {
    pub sharing_notice: Notice,
    pub sale_opt_out_notice: Notice,
    pub targeted_advertising_opt_out_notice: Notice,
    pub sensitive_data_processing_opt_out_notice: Notice,
    pub sale_opt_out: OptOut,
    pub targeted_advertising_opt_out: OptOut,
    pub sensitive_data_processing: SensitiveDataProcessing,
    pub known_child_sensitive_data_consents: Consent,
    pub mspa_covered_transaction: bool,
    pub mspa_opt_out_option_mode: MspaMode,
    pub mspa_service_provider_mode: MspaMode,
}

/// Consents to the processing of sensitive data.
#[derive(Clone, Copy, Debug, PartialEq, Eq, Structural)]
pub struct SensitiveDataProcessing {
    pub racial_or_ethnic_origin: Consent,
    pub religious_beliefs: Consent,
    pub sexual_orientation: Consent,
    pub citizenship_or_immigration_status: Consent,
    pub health_data: Consent,
    pub genetic_unique_identification: Consent,
    pub biometric_unique_identification: Consent,
    pub specific_geolocation_data: Consent,
}

impl View for UsUt {
    type V = UsUt;

    open spec fn view(&self) -> UsUt {
        *self
    }
}

impl View for Core {
    type V = Core;

    open spec fn view(&self) -> Core {
        *self
    }
}

impl SensitiveDataProcessing {
    /// The values of the 8 codes from index `at`.
    pub open spec fn spec_from_codes(c: Seq<u8>, at: int) -> SensitiveDataProcessing {
        SensitiveDataProcessing {
            racial_or_ethnic_origin: Consent::spec_from_code(c[at] as nat),
            religious_beliefs: Consent::spec_from_code(c[at + 1] as nat),
            sexual_orientation: Consent::spec_from_code(c[at + 2] as nat),
            citizenship_or_immigration_status: Consent::spec_from_code(c[at + 3] as nat),
            health_data: Consent::spec_from_code(c[at + 4] as nat),
            genetic_unique_identification: Consent::spec_from_code(c[at + 5] as nat),
            biometric_unique_identification: Consent::spec_from_code(c[at + 6] as nat),
            specific_geolocation_data: Consent::spec_from_code(c[at + 7] as nat),
        }
    }

    /// The values of the 8 codes from index `at`.
    pub fn from_codes(c: &Vec<u8>, at: usize) -> (r: SensitiveDataProcessing)
        requires
            at + 8 <= c.len(),
        ensures
            r == Self::spec_from_codes(c@, at as int),
    {
        SensitiveDataProcessing {
            racial_or_ethnic_origin: Consent::from_code(c[at]),
            religious_beliefs: Consent::from_code(c[at + 1]),
            sexual_orientation: Consent::from_code(c[at + 2]),
            citizenship_or_immigration_status: Consent::from_code(c[at + 3]),
            health_data: Consent::from_code(c[at + 4]),
            genetic_unique_identification: Consent::from_code(c[at + 5]),
            biometric_unique_identification: Consent::from_code(c[at + 6]),
            specific_geolocation_data: Consent::from_code(c[at + 7]),
        }
    }
}

impl Core {
    /// The core made of the 15 codes `a` before the covered transaction
    /// field, that field `covered`, and the 2 codes `b` after it.
    pub open spec fn spec_from_codes(a: Seq<u8>, covered: bool, b: Seq<u8>) -> Core {
        Core {
            sharing_notice: Notice::spec_from_code(a[0] as nat),
            sale_opt_out_notice: Notice::spec_from_code(a[1] as nat),
            targeted_advertising_opt_out_notice: Notice::spec_from_code(a[2] as nat),
            sensitive_data_processing_opt_out_notice: Notice::spec_from_code(a[3] as nat),
            sale_opt_out: OptOut::spec_from_code(a[4] as nat),
            targeted_advertising_opt_out: OptOut::spec_from_code(a[5] as nat),
            sensitive_data_processing: SensitiveDataProcessing::spec_from_codes(a, 6),
            known_child_sensitive_data_consents: Consent::spec_from_code(a[14] as nat),
            mspa_covered_transaction: covered,
            mspa_opt_out_option_mode: MspaMode::spec_from_code(b[0] as nat),
            mspa_service_provider_mode: MspaMode::spec_from_code(b[1] as nat),
        }
    }

    /// The core made of the codes `a`, the covered transaction field and the codes `b`.
    pub fn from_codes(a: &Vec<u8>, covered: bool, b: &Vec<u8>) -> (r: Core)
        requires
            a.len() == 15,
            b.len() == 2,
        ensures
            r == Self::spec_from_codes(a@, covered, b@),
    {
        Core {
            sharing_notice: Notice::from_code(a[0]),
            sale_opt_out_notice: Notice::from_code(a[1]),
            targeted_advertising_opt_out_notice: Notice::from_code(a[2]),
            sensitive_data_processing_opt_out_notice: Notice::from_code(a[3]),
            sale_opt_out: OptOut::from_code(a[4]),
            targeted_advertising_opt_out: OptOut::from_code(a[5]),
            sensitive_data_processing: SensitiveDataProcessing::from_codes(&a, 6),
            known_child_sensitive_data_consents: Consent::from_code(a[14]),
            mspa_covered_transaction: covered,
            mspa_opt_out_option_mode: MspaMode::from_code(b[0]),
            mspa_service_provider_mode: MspaMode::from_code(b[1]),
        }
    }
}

impl FromDataReader for Core {
    /// The version (1), 15 codes, the covered transaction field and 2
    /// more codes.
    open spec fn spec_read(bits: Seq<bool>, end: ReadError, pos: int) -> SectionStep<Core> {
        match spec_read_version(bits, end, pos, 1) {
            Err(e) => Err(e),
            Ok((_, p)) => match spec_read_core_fields(bits, end, p, 15, 2) {
                Err(e) => Err(e),
                Ok(((a, covered, b), q)) => Ok((Core::spec_from_codes(a, covered, b), q)),
            },
        }
    }

    proof fn lemma_read_supported(bits: Seq<bool>, end: ReadError, pos: int) {
    }

    fn from_data_reader(r: &mut DataReader) -> (res: Result<Core, SectionDecodeError>) {
        read_version(r, 1)?;
        let (a, covered, b) = read_core_fields(r, 15, 2)?;
        Ok(Core::from_codes(&a, covered, &b))
    }
}

impl FromDataReader for UsUt {
    /// The core segment.
    open spec fn spec_read(bits: Seq<bool>, end: ReadError, pos: int) -> SectionStep<UsUt> {
        match Core::spec_read(bits, end, pos) {
            Err(e) => Err(e),
            Ok((core, p)) => Ok((UsUt { core }, p)),
        }
    }

    proof fn lemma_read_supported(bits: Seq<bool>, end: ReadError, pos: int) {
    }

    fn from_data_reader(r: &mut DataReader) -> (res: Result<UsUt, SectionDecodeError>) {
        let core: Core = r.parse()?;
        Ok(UsUt { core })
    }
}

impl UsUt {
    /// Whether a notice and the matching opt-out agree.
    pub fn is_notice_and_opt_out_combination_ok(notice: &Notice, opt_out: &OptOut) -> (r: bool)
        ensures
            r == spec_notice_and_opt_out_ok(*notice, *opt_out),
    {
        is_notice_and_opt_out_combination_ok(notice, opt_out)
    }

    /// The disagreements between the fields of this section, in the order in
    /// which [`UsUt::validate`] reports them.
    pub open spec fn spec_violations(&self) -> Seq<Disagreement> {
        let c = self.core;
        let sp = c.mspa_service_provider_mode;
        let oo = c.mspa_opt_out_option_mode;
        let by_sp = |field: Seq<char>, v: u8| ("mspa_service_provider_mode"@, sp.spec_code(), field, v);
        let notices = |s: Seq<Disagreement>|
            s
                + flag(c.sale_opt_out_notice != Notice::NotApplicable, by_sp("sale_opt_out_notice"@, c.sale_opt_out_notice.spec_code()));
        let base = Seq::empty()
            + flag(
            !spec_notice_and_opt_out_ok(c.sale_opt_out_notice, c.sale_opt_out),
            ("sale_opt_out_notice"@, c.sale_opt_out_notice.spec_code(), "sale_opt_out"@, c.sale_opt_out.spec_code()),
        )
            + flag(
            !spec_notice_and_opt_out_ok(c.targeted_advertising_opt_out_notice, c.targeted_advertising_opt_out),
            ("targeted_advertising_opt_out_notice"@, c.targeted_advertising_opt_out_notice.spec_code(), "targeted_advertising_opt_out_opt_out"@, c.targeted_advertising_opt_out.spec_code()),
        );
        if sp == MspaMode::NotApplicable {
            notices(base)
        } else if sp == MspaMode::Yes {
            notices(base + flag(oo != MspaMode::No, by_sp("mspa_opt_out_option_mode"@, oo.spec_code())))
        } else {
            base + flag(oo != MspaMode::Yes, by_sp("mspa_opt_out_option_mode"@, oo.spec_code()))
        }
    }

    /// Checks the consistency of values in the already populated fields.
    ///
    /// While CMPs shouldn't be able to generate invalid combinations, the binary wire format
    /// does not prevent it.
    pub fn validate(&self) -> (r: Result<(), Vec<ValidationError>>)
        ensures
            validation_result(r, self.spec_violations()),
    {
        let c = &self.core;
        let sp = c.mspa_service_provider_mode;
        let oo = c.mspa_opt_out_option_mode;
        let mut errors: Vec<ValidationError> = Vec::new();
        proof {
            assert(views(errors@) =~= Seq::empty());
        }
        push_if(
            &mut errors,
            !is_notice_and_opt_out_combination_ok(&c.sale_opt_out_notice, &c.sale_opt_out),
            "sale_opt_out_notice",
            c.sale_opt_out_notice.to_u8(),
            "sale_opt_out",
            c.sale_opt_out.to_u8(),
        );
        push_if(
            &mut errors,
            !is_notice_and_opt_out_combination_ok(&c.targeted_advertising_opt_out_notice, &c.targeted_advertising_opt_out),
            "targeted_advertising_opt_out_notice",
            c.targeted_advertising_opt_out_notice.to_u8(),
            "targeted_advertising_opt_out_opt_out",
            c.targeted_advertising_opt_out.to_u8(),
        );
        if sp == MspaMode::No {
            push_if(&mut errors, oo != MspaMode::Yes, "mspa_service_provider_mode", sp.to_u8(), "mspa_opt_out_option_mode", oo.to_u8());
        } else {
            if sp == MspaMode::Yes {
                push_if(&mut errors, oo != MspaMode::No, "mspa_service_provider_mode", sp.to_u8(), "mspa_opt_out_option_mode", oo.to_u8());
            }
            push_if(
                &mut errors,
                c.sale_opt_out_notice != Notice::NotApplicable,
                "mspa_service_provider_mode",
                sp.to_u8(),
                "sale_opt_out_notice",
                c.sale_opt_out_notice.to_u8(),
            );
        }
        validation_outcome(errors)
    }
}

impl DecodableSection for UsUt {
    const ID: SectionId = SectionId::UsUt;

    open spec fn spec_decode(s: Seq<char>) -> Result<UsUt, SectionDecodeErrorView> {
        spec_parse_base64_str::<UsUt>(s)
    }

    proof fn lemma_decode_supported(s: Seq<char>) {
        crate::sections::lemma_base64_supported::<UsUt>(s);
    }

    fn decode_str(s: &str) -> (r: Result<UsUt, SectionDecodeError>) {
        parse_base64_str(s)
    }
}

impl std::str::FromStr for UsUt {
    type Err = SectionDecodeError;

    fn from_str(s: &str) -> (r: Result<UsUt, SectionDecodeError>)
        ensures
            crate::sections::result_view(r) == UsUt::spec_decode(s@),
    {
        UsUt::decode_str(s)
    }
}

/// Where each field of a core read at `pos` comes from: after the 6-bit
/// version, the fields hold the 2-bit codes that follow, in field order, and
/// the covered transaction field, after the first 15 codes, holds exactly
/// when its two bits hold 1.
pub proof fn lemma_core_layout(bits: Seq<bool>, end: ReadError, pos: int)
    requires
        0 <= pos,
        Core::spec_read(bits, end, pos) is Ok,
    ensures
        crate::sections::bits_at(bits, pos, 6) == 1,
        Core::spec_read(bits, end, pos)->Ok_0.0.sharing_notice == Notice::spec_from_code(crate::sections::bits_at(bits, pos + 6, 2)),
        Core::spec_read(bits, end, pos)->Ok_0.0.sale_opt_out_notice == Notice::spec_from_code(crate::sections::bits_at(bits, pos + 8, 2)),
        Core::spec_read(bits, end, pos)->Ok_0.0.targeted_advertising_opt_out_notice == Notice::spec_from_code(crate::sections::bits_at(bits, pos + 10, 2)),
        Core::spec_read(bits, end, pos)->Ok_0.0.sensitive_data_processing_opt_out_notice == Notice::spec_from_code(crate::sections::bits_at(bits, pos + 12, 2)),
        Core::spec_read(bits, end, pos)->Ok_0.0.sale_opt_out == OptOut::spec_from_code(crate::sections::bits_at(bits, pos + 14, 2)),
        Core::spec_read(bits, end, pos)->Ok_0.0.targeted_advertising_opt_out == OptOut::spec_from_code(crate::sections::bits_at(bits, pos + 16, 2)),
        Core::spec_read(bits, end, pos)->Ok_0.0.sensitive_data_processing.racial_or_ethnic_origin == Consent::spec_from_code(crate::sections::bits_at(bits, pos + 18, 2)),
        Core::spec_read(bits, end, pos)->Ok_0.0.sensitive_data_processing.religious_beliefs == Consent::spec_from_code(crate::sections::bits_at(bits, pos + 20, 2)),
        Core::spec_read(bits, end, pos)->Ok_0.0.sensitive_data_processing.sexual_orientation == Consent::spec_from_code(crate::sections::bits_at(bits, pos + 22, 2)),
        Core::spec_read(bits, end, pos)->Ok_0.0.sensitive_data_processing.citizenship_or_immigration_status == Consent::spec_from_code(crate::sections::bits_at(bits, pos + 24, 2)),
        Core::spec_read(bits, end, pos)->Ok_0.0.sensitive_data_processing.health_data == Consent::spec_from_code(crate::sections::bits_at(bits, pos + 26, 2)),
        Core::spec_read(bits, end, pos)->Ok_0.0.sensitive_data_processing.genetic_unique_identification == Consent::spec_from_code(crate::sections::bits_at(bits, pos + 28, 2)),
        Core::spec_read(bits, end, pos)->Ok_0.0.sensitive_data_processing.biometric_unique_identification == Consent::spec_from_code(crate::sections::bits_at(bits, pos + 30, 2)),
        Core::spec_read(bits, end, pos)->Ok_0.0.sensitive_data_processing.specific_geolocation_data == Consent::spec_from_code(crate::sections::bits_at(bits, pos + 32, 2)),
        Core::spec_read(bits, end, pos)->Ok_0.0.known_child_sensitive_data_consents == Consent::spec_from_code(crate::sections::bits_at(bits, pos + 34, 2)),
        Core::spec_read(bits, end, pos)->Ok_0.0.mspa_covered_transaction == (crate::sections::bits_at(bits, pos + 36, 2) == 1),
        Core::spec_read(bits, end, pos)->Ok_0.0.mspa_opt_out_option_mode == MspaMode::spec_from_code(crate::sections::bits_at(bits, pos + 38, 2)),
        Core::spec_read(bits, end, pos)->Ok_0.0.mspa_service_provider_mode == MspaMode::spec_from_code(crate::sections::bits_at(bits, pos + 40, 2)),
        Core::spec_read(bits, end, pos)->Ok_0.1 == pos + 42,
{
    crate::sections::us_common::lemma_core_fields_bits(bits, end, pos + 6, 15, 2);
}

} // verus!
