//! The US Maryland section's values.
//!
//! The layout of its payload is not defined here, so no decoder is offered for it.
use vstd::prelude::*;
use crate::encoding::{DataReader, ReadError};
use crate::sections::{FromDataReader, SectionDecodeError, SectionStep, sread};
use crate::sections::us_common::{Consent, Notice, OptOut};

verus! {

/// The Maryland section.
#[derive(Clone, Copy, Debug, PartialEq, Eq, Structural)]
pub struct UsMd {
    pub core: Core,
    pub gpc: Option<bool>,
}

/// The core segment.
#[derive(Clone, Copy, Debug, PartialEq, Eq, Structural)]
pub struct Core {
    pub mspa_version: u8,
    pub mspa_covered_transaction: bool,
    pub mspa_mode: MspaMode,
    pub processing_notice: Notice,
    pub sale_opt_out_notice: Notice,
    pub targeted_advertising_opt_out_notice: Notice,
    pub sale_opt_out: OptOut,
    pub targeted_advertising_opt_out: OptOut,
    pub additional_data_processing_consent: Consent,
}

/// The mode of the Multi-State Privacy Agreement in effect.
#[derive(Clone, Copy, Debug, PartialEq, Eq, Structural)]
pub enum MspaMode {
    NotApplicable,
    OptOutOption,
    ServiceProvider,
}

impl MspaMode {
    /// The mode a 2-bit code stands for; a code with no meaning is read as
    /// "not applicable".
    pub open spec fn spec_from_code(c: nat) -> MspaMode {
        if c == 1 {
            MspaMode::OptOutOption
        } else if c == 2 {
            MspaMode::ServiceProvider
        } else {
            MspaMode::NotApplicable
        }
    }

    /// The mode a 2-bit code stands for.
    pub fn from_code(c: u8) -> (r: MspaMode)
        ensures
            r == Self::spec_from_code(c as nat),
    {
        if c == 1 {
            MspaMode::OptOutOption
        } else if c == 2 {
            MspaMode::ServiceProvider
        } else {
            MspaMode::NotApplicable
        }
    }
}

impl View for MspaMode {
    type V = MspaMode;

    open spec fn view(&self) -> MspaMode {
        *self
    }
}

impl FromDataReader for MspaMode {
    /// A 2-bit code.
    open spec fn spec_read(bits: Seq<bool>, end: ReadError, pos: int) -> SectionStep<MspaMode> {
        match sread(bits, end, pos, 2) {
            Ok((v, p)) => Ok((MspaMode::spec_from_code(v), p)),
            Err(e) => Err(e),
        }
    }

    proof fn lemma_read_supported(bits: Seq<bool>, end: ReadError, pos: int) {
    }

    fn from_data_reader(r: &mut DataReader) -> (res: Result<MspaMode, SectionDecodeError>) {
        let c = r.read_u8_field(2)?;
        Ok(MspaMode::from_code(c))
    }
}

} // verus!
