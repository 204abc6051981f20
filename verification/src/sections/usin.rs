//! The US Indiana section's values.
//!
//! The layout of its payload is not defined here, so no decoder is offered for it.
use vstd::prelude::*;
use crate::sections::us_common::{Consent, MspaMode, Notice, OptOut};

verus! {

/// The Indiana section.
#[derive(Clone, Copy, Debug, PartialEq, Eq, Structural)]
pub struct UsIn {
    pub core: Core,
    pub sensitive_data_consents: Option<SensitiveDataProcessing>,
}

/// The core segment.
#[derive(Clone, Copy, Debug, PartialEq, Eq, Structural)]
pub struct Core {
    pub mspa_version: u8,
    pub mspa_covered_transaction: bool,
    pub mspa_mode: MspaMode,
    pub processing_notice: Notice,
    pub sale_opt_out_notice: Notice,
    pub targeted_advertising_opt_out_notice: Notice,
    pub sale_opt_out: OptOut,
    pub targeted_advertising_opt_out: OptOut,
    pub known_child_sensitive_data_consents: Consent,
    pub additional_data_processing_consent: Consent,
}

/// Consents to the processing of sensitive data.
#[derive(Clone, Copy, Debug, PartialEq, Eq, Structural)]
pub struct SensitiveDataProcessing {
    pub racial_or_ethnic_origin: Consent,
    pub religious_beliefs: Consent,
    pub health_data: Consent,
    pub sexual_orientation: Consent,
    pub citizenship_or_immigration_status: Consent,
    pub genetic_unique_identification: Consent,
    pub biometric_unique_identification: Consent,
    pub precise_geolocation_data: Consent,
}

} // verus!
