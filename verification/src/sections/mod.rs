//! Section identifiers, the decoded sections, their errors, and the two ways a
//! base64 section is laid out: a single payload, or a core segment followed by
//! optional segments separated by `.`.
//!
//! Each section is specified on its own, so their implementations repeat one
//! another; deprecated sections stay supported.
use vstd::prelude::*;
use vstd::arithmetic::power2::pow2;
use std::collections::BTreeSet;
use vstd::std_specs::iter::IteratorSpec;
use crate::encoding::{DataReader, ReadError, Step, base64_end, spec_read_bits};
use crate::encoding::bits::bits_value;
use crate::encoding::base64::{DecodeError, base64_bits, decode, decode_stop};

use crate::sections::tcfcav1::{TcfCaV1, TcfCaV1View};
use crate::sections::tcfeuv1::{TcfEuV1, TcfEuV1View};
use crate::sections::tcfeuv2::{TcfEuV2, TcfEuV2View};
use crate::sections::usca::UsCa;
use crate::sections::usco::UsCo;
use crate::sections::usia::UsIa;
use crate::sections::usnat::UsNat;
use crate::sections::usor::UsOr;
use crate::sections::uspv1::UspV1;
use crate::sections::usut::UsUt;
use crate::sections::usct::UsCt;
use crate::sections::usde::UsDe;
use crate::sections::usfl::UsFl;
use crate::sections::usmt::UsMt;
use crate::sections::usne::UsNe;
use crate::sections::usnh::UsNh;
use crate::sections::usnj::UsNj;
use crate::sections::ustn::UsTn;
use crate::sections::ustx::UsTx;
use crate::sections::usva::UsVa;

pub mod tcfcav1;
pub mod tcfeuv1;
pub mod tcfeuv2;
pub mod us_common;
pub mod usca;
pub mod usco;
pub mod usct;
pub mod usde;
pub mod usfl;
pub mod usia;
pub mod usin;
pub mod usmd;
pub mod usmt;
pub mod usnat;
pub mod usne;
pub mod usnh;
pub mod usnj;
pub mod usor;
pub mod uspv1;
pub mod ustn;
pub mod ustx;
pub mod usut;
pub mod usva;

verus! {

broadcast use {vstd::laws_cmp::group_laws_cmp, vstd::std_specs::btree::group_btree_axioms};

/// The identifiers of the sections of the GPP specification.
#[derive(Clone, Copy, Debug, PartialEq, Eq, Hash, Structural)]
#[non_exhaustive]
pub enum SectionId {
    TcfEuV1,
    TcfEuV2,
    GppHeader,
    GppSignalIntegrity,
    TcfCaV1,
    UspV1,
    UsNat,
    UsCa,
    UsVa,
    UsCo,
    UsUt,
    UsCt,
    UsFl,
    UsMt,
    UsOr,
    UsTx,
    UsDe,
    UsIa,
    UsNe,
    UsNh,
    UsNj,
    UsTn,
}

impl SectionId {
    /// The number of a section identifier in GPP strings.
    pub open spec fn spec_to_u8(self) -> u8 {
        match self {
            SectionId::TcfEuV1 => 1,
            SectionId::TcfEuV2 => 2,
            SectionId::GppHeader => 3,
            SectionId::GppSignalIntegrity => 4,
            SectionId::TcfCaV1 => 5,
            SectionId::UspV1 => 6,
            SectionId::UsNat => 7,
            SectionId::UsCa => 8,
            SectionId::UsVa => 9,
            SectionId::UsCo => 10,
            SectionId::UsUt => 11,
            SectionId::UsCt => 12,
            SectionId::UsFl => 13,
            SectionId::UsMt => 14,
            SectionId::UsOr => 15,
            SectionId::UsTx => 16,
            SectionId::UsDe => 17,
            SectionId::UsIa => 18,
            SectionId::UsNe => 19,
            SectionId::UsNh => 20,
            SectionId::UsNj => 21,
            SectionId::UsTn => 22,
        }
    }

    /// The section identifier with a given number, if any.
    pub open spec fn spec_from_u8(n: u8) -> Option<SectionId> {
        if n == 1 {
            Some(SectionId::TcfEuV1)
        } else if n == 2 {
            Some(SectionId::TcfEuV2)
        } else if n == 3 {
            Some(SectionId::GppHeader)
        } else if n == 4 {
            Some(SectionId::GppSignalIntegrity)
        } else if n == 5 {
            Some(SectionId::TcfCaV1)
        } else if n == 6 {
            Some(SectionId::UspV1)
        } else if n == 7 {
            Some(SectionId::UsNat)
        } else if n == 8 {
            Some(SectionId::UsCa)
        } else if n == 9 {
            Some(SectionId::UsVa)
        } else if n == 10 {
            Some(SectionId::UsCo)
        } else if n == 11 {
            Some(SectionId::UsUt)
        } else if n == 12 {
            Some(SectionId::UsCt)
        } else if n == 13 {
            Some(SectionId::UsFl)
        } else if n == 14 {
            Some(SectionId::UsMt)
        } else if n == 15 {
            Some(SectionId::UsOr)
        } else if n == 16 {
            Some(SectionId::UsTx)
        } else if n == 17 {
            Some(SectionId::UsDe)
        } else if n == 18 {
            Some(SectionId::UsIa)
        } else if n == 19 {
            Some(SectionId::UsNe)
        } else if n == 20 {
            Some(SectionId::UsNh)
        } else if n == 21 {
            Some(SectionId::UsNj)
        } else if n == 22 {
            Some(SectionId::UsTn)
        } else {
            None
        }
    }

    /// The number of this identifier.
    pub fn to_u8(&self) -> (r: u8)
        ensures
            r == self.spec_to_u8(),
    {
        match self {
            SectionId::TcfEuV1 => 1,
            SectionId::TcfEuV2 => 2,
            SectionId::GppHeader => 3,
            SectionId::GppSignalIntegrity => 4,
            SectionId::TcfCaV1 => 5,
            SectionId::UspV1 => 6,
            SectionId::UsNat => 7,
            SectionId::UsCa => 8,
            SectionId::UsVa => 9,
            SectionId::UsCo => 10,
            SectionId::UsUt => 11,
            SectionId::UsCt => 12,
            SectionId::UsFl => 13,
            SectionId::UsMt => 14,
            SectionId::UsOr => 15,
            SectionId::UsTx => 16,
            SectionId::UsDe => 17,
            SectionId::UsIa => 18,
            SectionId::UsNe => 19,
            SectionId::UsNh => 20,
            SectionId::UsNj => 21,
            SectionId::UsTn => 22,
        }
    }

    /// The identifier with number `n`, or `None` when no section has it.
    pub fn from_u8(n: u8) -> (r: Option<SectionId>)
        ensures
            r == Self::spec_from_u8(n),
    {
        if n == 1 {
            Some(SectionId::TcfEuV1)
        } else if n == 2 {
            Some(SectionId::TcfEuV2)
        } else if n == 3 {
            Some(SectionId::GppHeader)
        } else if n == 4 {
            Some(SectionId::GppSignalIntegrity)
        } else if n == 5 {
            Some(SectionId::TcfCaV1)
        } else if n == 6 {
            Some(SectionId::UspV1)
        } else if n == 7 {
            Some(SectionId::UsNat)
        } else if n == 8 {
            Some(SectionId::UsCa)
        } else if n == 9 {
            Some(SectionId::UsVa)
        } else if n == 10 {
            Some(SectionId::UsCo)
        } else if n == 11 {
            Some(SectionId::UsUt)
        } else if n == 12 {
            Some(SectionId::UsCt)
        } else if n == 13 {
            Some(SectionId::UsFl)
        } else if n == 14 {
            Some(SectionId::UsMt)
        } else if n == 15 {
            Some(SectionId::UsOr)
        } else if n == 16 {
            Some(SectionId::UsTx)
        } else if n == 17 {
            Some(SectionId::UsDe)
        } else if n == 18 {
            Some(SectionId::UsIa)
        } else if n == 19 {
            Some(SectionId::UsNe)
        } else if n == 20 {
            Some(SectionId::UsNh)
        } else if n == 21 {
            Some(SectionId::UsNj)
        } else if n == 22 {
            Some(SectionId::UsTn)
        } else {
            None
        }
    }
}

/// Numbering is a bijection between identifiers and the numbers 1 to 22.
pub proof fn lemma_section_id_numbering(id: SectionId, n: u8)
    ensures
        SectionId::spec_from_u8(id.spec_to_u8()) == Some(id),
        SectionId::spec_from_u8(n) matches Some(i) ==> i.spec_to_u8() == n,
        SectionId::spec_from_u8(n) is Some <==> 1 <= n <= 22,
{
}

/// A section that can be decoded from its text in a GPP string.
pub trait DecodableSection: Sized + View {
    /// The identifier of this section.
    const ID: SectionId;

    /// What decoding the text `s` gives.
    spec fn spec_decode(s: Seq<char>) -> Result<Self::V, SectionDecodeErrorView>;

    /// Decoding a text never reports an unsupported section.
    proof fn lemma_decode_supported(s: Seq<char>)
        ensures
            not_unsupported(Self::spec_decode(s)),
    ;

    /// Decodes the text `s` of this section.
    fn decode_str(s: &str) -> (r: Result<Self, SectionDecodeError>)
        ensures
            result_view(r) == Self::spec_decode(s@),
    ;
}

/// A result that does not report an unsupported section.
pub open spec fn not_unsupported<V>(r: Result<V, SectionDecodeErrorView>) -> bool {
    !(r matches Err(SectionDecodeErrorView::UnsupportedSectionId(_)))
}

/// A set of identifiers (of vendors, purposes, ...).
pub type IdSet = BTreeSet<u16>;

/// The error type for section decoding operations.
#[derive(Debug)]
#[non_exhaustive]
pub enum SectionDecodeError {
    MissingSection(SectionId),
    UnsupportedSectionId(SectionId),
    Read(ReadError),
    UnexpectedEndOfString(String),
    InvalidCharacter { character: char, kind: &'static str, s: String },
    InvalidSectionVersion { expected: u8, found: u8 },
    DecodeSegment(DecodeError),
    UnknownSegmentVersion { segment_version: u8 },
    UnknownSegmentType { segment_type: u8 },
    DuplicateSegmentType { segment_type: u8 },
    InvalidFieldValue { expected: String, found: String },
}

/// A decoded section.
#[derive(Debug, Eq, PartialEq)]
pub enum Section {
    TcfEuV1(TcfEuV1),
    TcfEuV2(TcfEuV2),
    TcfCaV1(TcfCaV1),
    UspV1(UspV1),
    UsNat(UsNat),
    UsCa(UsCa),
    UsVa(UsVa),
    UsCo(UsCo),
    UsUt(UsUt),
    UsCt(UsCt),
    UsFl(UsFl),
    UsMt(UsMt),
    UsOr(UsOr),
    UsTx(UsTx),
    UsDe(UsDe),
    UsIa(UsIa),
    UsNe(UsNe),
    UsNh(UsNh),
    UsNj(UsNj),
    UsTn(UsTn),
}

/// A decoded section as a mathematical value.
pub enum SectionView {
    TcfEuV1(TcfEuV1View),
    TcfEuV2(TcfEuV2View),
    TcfCaV1(TcfCaV1View),
    UspV1(UspV1),
    UsNat(UsNat),
    UsCa(UsCa),
    UsVa(UsVa),
    UsCo(UsCo),
    UsUt(UsUt),
    UsCt(UsCt),
    UsFl(UsFl),
    UsMt(UsMt),
    UsOr(UsOr),
    UsTx(UsTx),
    UsDe(UsDe),
    UsIa(UsIa),
    UsNe(UsNe),
    UsNh(UsNh),
    UsNj(UsNj),
    UsTn(UsTn),
}

impl View for Section {
    type V = SectionView;

    open spec fn view(&self) -> SectionView {
        match self {
            Section::TcfEuV1(v) => SectionView::TcfEuV1(v@),
            Section::TcfEuV2(v) => SectionView::TcfEuV2(v@),
            Section::TcfCaV1(v) => SectionView::TcfCaV1(v@),
            Section::UspV1(v) => SectionView::UspV1(*v),
            Section::UsNat(v) => SectionView::UsNat(*v),
            Section::UsCa(v) => SectionView::UsCa(*v),
            Section::UsVa(v) => SectionView::UsVa(*v),
            Section::UsCo(v) => SectionView::UsCo(*v),
            Section::UsUt(v) => SectionView::UsUt(*v),
            Section::UsCt(v) => SectionView::UsCt(*v),
            Section::UsFl(v) => SectionView::UsFl(*v),
            Section::UsMt(v) => SectionView::UsMt(*v),
            Section::UsOr(v) => SectionView::UsOr(*v),
            Section::UsTx(v) => SectionView::UsTx(*v),
            Section::UsDe(v) => SectionView::UsDe(*v),
            Section::UsIa(v) => SectionView::UsIa(*v),
            Section::UsNe(v) => SectionView::UsNe(*v),
            Section::UsNh(v) => SectionView::UsNh(*v),
            Section::UsNj(v) => SectionView::UsNj(*v),
            Section::UsTn(v) => SectionView::UsTn(*v),
        }
    }
}

impl SectionView {
    /// The identifier of the section.
    pub open spec fn spec_id(self) -> SectionId {
        match self {
            SectionView::TcfEuV1(_) => SectionId::TcfEuV1,
            SectionView::TcfEuV2(_) => SectionId::TcfEuV2,
            SectionView::TcfCaV1(_) => SectionId::TcfCaV1,
            SectionView::UspV1(_) => SectionId::UspV1,
            SectionView::UsNat(_) => SectionId::UsNat,
            SectionView::UsCa(_) => SectionId::UsCa,
            SectionView::UsVa(_) => SectionId::UsVa,
            SectionView::UsCo(_) => SectionId::UsCo,
            SectionView::UsUt(_) => SectionId::UsUt,
            SectionView::UsCt(_) => SectionId::UsCt,
            SectionView::UsFl(_) => SectionId::UsFl,
            SectionView::UsMt(_) => SectionId::UsMt,
            SectionView::UsOr(_) => SectionId::UsOr,
            SectionView::UsTx(_) => SectionId::UsTx,
            SectionView::UsDe(_) => SectionId::UsDe,
            SectionView::UsIa(_) => SectionId::UsIa,
            SectionView::UsNe(_) => SectionId::UsNe,
            SectionView::UsNh(_) => SectionId::UsNh,
            SectionView::UsNj(_) => SectionId::UsNj,
            SectionView::UsTn(_) => SectionId::UsTn,
        }
    }
}

impl Section {
    /// The identifier of this section.
    pub fn id(&self) -> (r: SectionId)
        ensures
            r == self@.spec_id(),
    {
        match self {
            Section::TcfEuV1(_) => SectionId::TcfEuV1,
            Section::TcfEuV2(_) => SectionId::TcfEuV2,
            Section::TcfCaV1(_) => SectionId::TcfCaV1,
            Section::UspV1(_) => SectionId::UspV1,
            Section::UsNat(_) => SectionId::UsNat,
            Section::UsCa(_) => SectionId::UsCa,
            Section::UsVa(_) => SectionId::UsVa,
            Section::UsCo(_) => SectionId::UsCo,
            Section::UsUt(_) => SectionId::UsUt,
            Section::UsCt(_) => SectionId::UsCt,
            Section::UsFl(_) => SectionId::UsFl,
            Section::UsMt(_) => SectionId::UsMt,
            Section::UsOr(_) => SectionId::UsOr,
            Section::UsTx(_) => SectionId::UsTx,
            Section::UsDe(_) => SectionId::UsDe,
            Section::UsIa(_) => SectionId::UsIa,
            Section::UsNe(_) => SectionId::UsNe,
            Section::UsNh(_) => SectionId::UsNh,
            Section::UsNj(_) => SectionId::UsNj,
            Section::UsTn(_) => SectionId::UsTn,
        }
    }
}

/// Every identifier but the two header ones is that of a section, and no
/// section has a header identifier.
pub proof fn lemma_section_ids_onto(id: SectionId)
    ensures
        (exists|v: SectionView| v.spec_id() == id) <==> (id != SectionId::GppHeader && id != SectionId::GppSignalIntegrity),
{
    match id {
        SectionId::TcfEuV1 => {
            let w = SectionView::TcfEuV1(arbitrary());
            assert(w.spec_id() == id);
        },
        SectionId::TcfEuV2 => {
            let w = SectionView::TcfEuV2(arbitrary());
            assert(w.spec_id() == id);
        },
        SectionId::TcfCaV1 => {
            let w = SectionView::TcfCaV1(arbitrary());
            assert(w.spec_id() == id);
        },
        SectionId::UspV1 => {
            let w = SectionView::UspV1(arbitrary());
            assert(w.spec_id() == id);
        },
        SectionId::UsNat => {
            let w = SectionView::UsNat(arbitrary());
            assert(w.spec_id() == id);
        },
        SectionId::UsCa => {
            let w = SectionView::UsCa(arbitrary());
            assert(w.spec_id() == id);
        },
        SectionId::UsVa => {
            let w = SectionView::UsVa(arbitrary());
            assert(w.spec_id() == id);
        },
        SectionId::UsCo => {
            let w = SectionView::UsCo(arbitrary());
            assert(w.spec_id() == id);
        },
        SectionId::UsUt => {
            let w = SectionView::UsUt(arbitrary());
            assert(w.spec_id() == id);
        },
        SectionId::UsCt => {
            let w = SectionView::UsCt(arbitrary());
            assert(w.spec_id() == id);
        },
        SectionId::UsFl => {
            let w = SectionView::UsFl(arbitrary());
            assert(w.spec_id() == id);
        },
        SectionId::UsMt => {
            let w = SectionView::UsMt(arbitrary());
            assert(w.spec_id() == id);
        },
        SectionId::UsOr => {
            let w = SectionView::UsOr(arbitrary());
            assert(w.spec_id() == id);
        },
        SectionId::UsTx => {
            let w = SectionView::UsTx(arbitrary());
            assert(w.spec_id() == id);
        },
        SectionId::UsDe => {
            let w = SectionView::UsDe(arbitrary());
            assert(w.spec_id() == id);
        },
        SectionId::UsIa => {
            let w = SectionView::UsIa(arbitrary());
            assert(w.spec_id() == id);
        },
        SectionId::UsNe => {
            let w = SectionView::UsNe(arbitrary());
            assert(w.spec_id() == id);
        },
        SectionId::UsNh => {
            let w = SectionView::UsNh(arbitrary());
            assert(w.spec_id() == id);
        },
        SectionId::UsNj => {
            let w = SectionView::UsNj(arbitrary());
            assert(w.spec_id() == id);
        },
        SectionId::UsTn => {
            let w = SectionView::UsTn(arbitrary());
            assert(w.spec_id() == id);
        },
        _ => {},
    }
}

/// Two decoded sections have the same identifier exactly when they are
/// sections of the same kind.
pub proof fn lemma_section_id_one_to_one(v1: SectionView, v2: SectionView)
    ensures
        v1.spec_id() == v2.spec_id() <==> {
            &&& (v1 is TcfEuV1 <==> v2 is TcfEuV1)
            &&& (v1 is TcfEuV2 <==> v2 is TcfEuV2)
            &&& (v1 is TcfCaV1 <==> v2 is TcfCaV1)
            &&& (v1 is UspV1 <==> v2 is UspV1)
            &&& (v1 is UsNat <==> v2 is UsNat)
            &&& (v1 is UsCa <==> v2 is UsCa)
            &&& (v1 is UsVa <==> v2 is UsVa)
            &&& (v1 is UsCo <==> v2 is UsCo)
            &&& (v1 is UsUt <==> v2 is UsUt)
            &&& (v1 is UsCt <==> v2 is UsCt)
            &&& (v1 is UsFl <==> v2 is UsFl)
            &&& (v1 is UsMt <==> v2 is UsMt)
            &&& (v1 is UsOr <==> v2 is UsOr)
            &&& (v1 is UsTx <==> v2 is UsTx)
            &&& (v1 is UsDe <==> v2 is UsDe)
            &&& (v1 is UsIa <==> v2 is UsIa)
            &&& (v1 is UsNe <==> v2 is UsNe)
            &&& (v1 is UsNh <==> v2 is UsNh)
            &&& (v1 is UsNj <==> v2 is UsNj)
            &&& (v1 is UsTn <==> v2 is UsTn)
        },
{
}

/// A decoding result of one section type, as a decoded section.
pub open spec fn as_section<V>(r: Result<V, SectionDecodeErrorView>, wrap: spec_fn(V) -> SectionView) -> Result<SectionView, SectionDecodeErrorView> {
    match r {
        Ok(v) => Ok(wrap(v)),
        Err(e) => Err(e),
    }
}

/// Decoding the text `s` of the section with identifier `id` with that
/// section's own decoder: the two header identifiers are unsupported.
pub open spec fn spec_decode_section(id: SectionId, s: Seq<char>) -> Result<SectionView, SectionDecodeErrorView> {
    match id {
        SectionId::TcfEuV1 => as_section(TcfEuV1::spec_decode(s), |v| SectionView::TcfEuV1(v)),
        SectionId::TcfEuV2 => as_section(TcfEuV2::spec_decode(s), |v| SectionView::TcfEuV2(v)),
        SectionId::TcfCaV1 => as_section(TcfCaV1::spec_decode(s), |v| SectionView::TcfCaV1(v)),
        SectionId::UspV1 => as_section(UspV1::spec_decode(s), |v| SectionView::UspV1(v)),
        SectionId::UsNat => as_section(UsNat::spec_decode(s), |v| SectionView::UsNat(v)),
        SectionId::UsCa => as_section(UsCa::spec_decode(s), |v| SectionView::UsCa(v)),
        SectionId::UsVa => as_section(UsVa::spec_decode(s), |v| SectionView::UsVa(v)),
        SectionId::UsCo => as_section(UsCo::spec_decode(s), |v| SectionView::UsCo(v)),
        SectionId::UsUt => as_section(UsUt::spec_decode(s), |v| SectionView::UsUt(v)),
        SectionId::UsCt => as_section(UsCt::spec_decode(s), |v| SectionView::UsCt(v)),
        SectionId::UsFl => as_section(UsFl::spec_decode(s), |v| SectionView::UsFl(v)),
        SectionId::UsMt => as_section(UsMt::spec_decode(s), |v| SectionView::UsMt(v)),
        SectionId::UsOr => as_section(UsOr::spec_decode(s), |v| SectionView::UsOr(v)),
        SectionId::UsTx => as_section(UsTx::spec_decode(s), |v| SectionView::UsTx(v)),
        SectionId::UsDe => as_section(UsDe::spec_decode(s), |v| SectionView::UsDe(v)),
        SectionId::UsIa => as_section(UsIa::spec_decode(s), |v| SectionView::UsIa(v)),
        SectionId::UsNe => as_section(UsNe::spec_decode(s), |v| SectionView::UsNe(v)),
        SectionId::UsNh => as_section(UsNh::spec_decode(s), |v| SectionView::UsNh(v)),
        SectionId::UsNj => as_section(UsNj::spec_decode(s), |v| SectionView::UsNj(v)),
        SectionId::UsTn => as_section(UsTn::spec_decode(s), |v| SectionView::UsTn(v)),
        _ => Err(SectionDecodeErrorView::UnsupportedSectionId(id)),
    }
}

/// Decodes the text `s` of the section with identifier `id`.
#[verifier::spinoff_prover]
#[verifier::rlimit(60)]
pub fn decode_section(id: SectionId, s: &str) -> (r: Result<Section, SectionDecodeError>)
    ensures
        result_view(r) == spec_decode_section(id, s@),
        r matches Ok(sec) ==> sec@.spec_id() == id,
{
    match id {
        SectionId::TcfEuV1 => match TcfEuV1::decode_str(s) {
            Ok(v) => Ok(Section::TcfEuV1(v)),
            Err(e) => Err(e),
        },
        SectionId::TcfEuV2 => match TcfEuV2::decode_str(s) {
            Ok(v) => Ok(Section::TcfEuV2(v)),
            Err(e) => Err(e),
        },
        SectionId::TcfCaV1 => match TcfCaV1::decode_str(s) {
            Ok(v) => Ok(Section::TcfCaV1(v)),
            Err(e) => Err(e),
        },
        SectionId::UspV1 => match UspV1::decode_str(s) {
            Ok(v) => Ok(Section::UspV1(v)),
            Err(e) => Err(e),
        },
        SectionId::UsNat => match UsNat::decode_str(s) {
            Ok(v) => Ok(Section::UsNat(v)),
            Err(e) => Err(e),
        },
        SectionId::UsCa => match UsCa::decode_str(s) {
            Ok(v) => Ok(Section::UsCa(v)),
            Err(e) => Err(e),
        },
        SectionId::UsVa => match UsVa::decode_str(s) {
            Ok(v) => Ok(Section::UsVa(v)),
            Err(e) => Err(e),
        },
        SectionId::UsCo => match UsCo::decode_str(s) {
            Ok(v) => Ok(Section::UsCo(v)),
            Err(e) => Err(e),
        },
        SectionId::UsUt => match UsUt::decode_str(s) {
            Ok(v) => Ok(Section::UsUt(v)),
            Err(e) => Err(e),
        },
        SectionId::UsCt => match UsCt::decode_str(s) {
            Ok(v) => Ok(Section::UsCt(v)),
            Err(e) => Err(e),
        },
        SectionId::UsFl => match UsFl::decode_str(s) {
            Ok(v) => Ok(Section::UsFl(v)),
            Err(e) => Err(e),
        },
        SectionId::UsMt => match UsMt::decode_str(s) {
            Ok(v) => Ok(Section::UsMt(v)),
            Err(e) => Err(e),
        },
        SectionId::UsOr => match UsOr::decode_str(s) {
            Ok(v) => Ok(Section::UsOr(v)),
            Err(e) => Err(e),
        },
        SectionId::UsTx => match UsTx::decode_str(s) {
            Ok(v) => Ok(Section::UsTx(v)),
            Err(e) => Err(e),
        },
        SectionId::UsDe => match UsDe::decode_str(s) {
            Ok(v) => Ok(Section::UsDe(v)),
            Err(e) => Err(e),
        },
        SectionId::UsIa => match UsIa::decode_str(s) {
            Ok(v) => Ok(Section::UsIa(v)),
            Err(e) => Err(e),
        },
        SectionId::UsNe => match UsNe::decode_str(s) {
            Ok(v) => Ok(Section::UsNe(v)),
            Err(e) => Err(e),
        },
        SectionId::UsNh => match UsNh::decode_str(s) {
            Ok(v) => Ok(Section::UsNh(v)),
            Err(e) => Err(e),
        },
        SectionId::UsNj => match UsNj::decode_str(s) {
            Ok(v) => Ok(Section::UsNj(v)),
            Err(e) => Err(e),
        },
        SectionId::UsTn => match UsTn::decode_str(s) {
            Ok(v) => Ok(Section::UsTn(v)),
            Err(e) => Err(e),
        },
        _ => Err(SectionDecodeError::UnsupportedSectionId(id)),
    }
}

/// A successful decoding of a section gives a section of the identifier
/// that was asked for.
pub proof fn lemma_decode_section_id(id: SectionId, s: Seq<char>)
    ensures
        spec_decode_section(id, s) matches Ok(v) ==> v.spec_id() == id,
{
}

/// Only the two header identifiers are refused as unsupported; every other
/// identifier is decoded by its section's own decoder, whose errors never
/// say that a section is unsupported.
pub proof fn lemma_unsupported_only_headers(id: SectionId, s: Seq<char>)
    ensures
        !not_unsupported(spec_decode_section(id, s)) <==> (id == SectionId::GppHeader || id == SectionId::GppSignalIntegrity),
        (id == SectionId::GppHeader || id == SectionId::GppSignalIntegrity) ==> spec_decode_section(id, s)
            == Err::<SectionView, SectionDecodeErrorView>(SectionDecodeErrorView::UnsupportedSectionId(id)),
{
    match id {
        SectionId::TcfEuV1 => TcfEuV1::lemma_decode_supported(s),
        SectionId::TcfEuV2 => TcfEuV2::lemma_decode_supported(s),
        SectionId::TcfCaV1 => TcfCaV1::lemma_decode_supported(s),
        SectionId::UspV1 => UspV1::lemma_decode_supported(s),
        SectionId::UsNat => UsNat::lemma_decode_supported(s),
        SectionId::UsCa => UsCa::lemma_decode_supported(s),
        SectionId::UsVa => UsVa::lemma_decode_supported(s),
        SectionId::UsCo => UsCo::lemma_decode_supported(s),
        SectionId::UsUt => UsUt::lemma_decode_supported(s),
        SectionId::UsCt => UsCt::lemma_decode_supported(s),
        SectionId::UsFl => UsFl::lemma_decode_supported(s),
        SectionId::UsMt => UsMt::lemma_decode_supported(s),
        SectionId::UsOr => UsOr::lemma_decode_supported(s),
        SectionId::UsTx => UsTx::lemma_decode_supported(s),
        SectionId::UsDe => UsDe::lemma_decode_supported(s),
        SectionId::UsIa => UsIa::lemma_decode_supported(s),
        SectionId::UsNe => UsNe::lemma_decode_supported(s),
        SectionId::UsNh => UsNh::lemma_decode_supported(s),
        SectionId::UsNj => UsNj::lemma_decode_supported(s),
        SectionId::UsTn => UsTn::lemma_decode_supported(s),
        _ => {},
    }
}

/// A section decoding error with its strings as character sequences.
pub enum SectionDecodeErrorView {
    MissingSection(SectionId),
    UnsupportedSectionId(SectionId),
    Read(ReadError),
    UnexpectedEndOfString(Seq<char>),
    InvalidCharacter { character: char, kind: Seq<char>, s: Seq<char> },
    InvalidSectionVersion { expected: u8, found: u8 },
    DecodeSegment(DecodeError),
    UnknownSegmentVersion { segment_version: u8 },
    UnknownSegmentType { segment_type: u8 },
    DuplicateSegmentType { segment_type: u8 },
    InvalidFieldValue { expected: Seq<char>, found: Seq<char> },
}

impl View for SectionDecodeError {
    type V = SectionDecodeErrorView;

    open spec fn view(&self) -> SectionDecodeErrorView {
        match self {
            SectionDecodeError::MissingSection(id) => SectionDecodeErrorView::MissingSection(*id),
            SectionDecodeError::UnsupportedSectionId(id) => SectionDecodeErrorView::UnsupportedSectionId(*id),
            SectionDecodeError::Read(e) => SectionDecodeErrorView::Read(*e),
            SectionDecodeError::UnexpectedEndOfString(s) => SectionDecodeErrorView::UnexpectedEndOfString(s@),
            SectionDecodeError::InvalidCharacter { character, kind, s } => SectionDecodeErrorView::InvalidCharacter {
                character: *character,
                kind: kind@,
                s: s@,
            },
            SectionDecodeError::InvalidSectionVersion { expected, found } => SectionDecodeErrorView::InvalidSectionVersion {
                expected: *expected,
                found: *found,
            },
            SectionDecodeError::DecodeSegment(e) => SectionDecodeErrorView::DecodeSegment(*e),
            SectionDecodeError::UnknownSegmentVersion { segment_version } => SectionDecodeErrorView::UnknownSegmentVersion {
                segment_version: *segment_version,
            },
            SectionDecodeError::UnknownSegmentType { segment_type } => SectionDecodeErrorView::UnknownSegmentType {
                segment_type: *segment_type,
            },
            SectionDecodeError::DuplicateSegmentType { segment_type } => SectionDecodeErrorView::DuplicateSegmentType {
                segment_type: *segment_type,
            },
            SectionDecodeError::InvalidFieldValue { expected, found } => SectionDecodeErrorView::InvalidFieldValue {
                expected: expected@,
                found: found@,
            },
        }
    }
}

/// A decoded value or error, seen through their views.
pub open spec fn result_view<T: View>(r: Result<T, SectionDecodeError>) -> Result<T::V, SectionDecodeErrorView> {
    match r {
        Ok(v) => Ok(v@),
        Err(e) => Err(e@),
    }
}

/// A value read from a position with the position after it, or the failure.
pub type SectionStep<T> = Result<(T, int), SectionDecodeErrorView>;

/// How reading a section part relates the reader before and after it to the
/// value it returns.
pub open spec fn section_step<T: View>(old: DataReader, new: DataReader, r: Result<T, SectionDecodeError>, s: SectionStep<T::V>) -> bool {
    &&& new.wf()
    &&& new.spec_bits() == old.spec_bits()
    &&& new.spec_end() == old.spec_end()
    &&& match s {
        Ok((v, p)) => r matches Ok(x) && x@ == v && new.spec_pos() == p,
        Err(e) => r matches Err(x) && x@ == e,
    }
}

/// Reading `n` bits, a read failure becoming a section decoding error.
pub open spec fn sread(bits: Seq<bool>, end: ReadError, pos: int, n: int) -> SectionStep<nat> {
    match spec_read_bits(bits, end, pos, n) {
        Ok(s) => Ok(s),
        Err(e) => Err(SectionDecodeErrorView::Read(e)),
    }
}

/// A part of a section that is read from a [`DataReader`].
pub trait FromDataReader: Sized + View {
    /// What reading this part from `pos` gives.
    spec fn spec_read(bits: Seq<bool>, end: ReadError, pos: int) -> SectionStep<Self::V>;

    /// Reading this part never reports an unsupported section.
    proof fn lemma_read_supported(bits: Seq<bool>, end: ReadError, pos: int)
        ensures
            not_unsupported(Self::spec_read(bits, end, pos)),
    ;

    /// Reads this part.
    fn from_data_reader(r: &mut DataReader) -> (res: Result<Self, SectionDecodeError>)
        requires
            old(r).wf(),
        ensures
            section_step(*old(r), *final(r), res, Self::spec_read(old(r).spec_bits(), old(r).spec_end(), old(r).spec_pos())),
    ;
}

impl DataReader {
    /// Reads a section part.
    pub fn parse<F: FromDataReader>(&mut self) -> (res: Result<F, SectionDecodeError>)
        requires
            old(self).wf(),
        ensures
            section_step(*old(self), *final(self), res, F::spec_read(old(self).spec_bits(), old(self).spec_end(), old(self).spec_pos())),
    {
        F::from_data_reader(self)
    }

    /// Reads `n` bits, at most 64, a read failure becoming a section decoding error.
    pub fn read_bits_or_fail(&mut self, n: u32) -> (res: Result<u64, SectionDecodeError>)
        requires
            old(self).wf(),
            n <= 64,
        ensures
            final(self).wf(),
            final(self).spec_bits() == old(self).spec_bits(),
            final(self).spec_end() == old(self).spec_end(),
            match sread(old(self).spec_bits(), old(self).spec_end(), old(self).spec_pos(), n as int) {
                Ok((v, p)) => res matches Ok(x) && x as nat == v && final(self).spec_pos() == p,
                Err(e) => res matches Err(x) && x@ == e,
            },
            res matches Ok(v) ==> v < pow2(n as nat),
    {
        match self.read_fixed_integer(n) {
            Ok(v) => Ok(v),
            Err(e) => Err(SectionDecodeError::Read(e)),
        }
    }
}

/// The bits of the base64 text `s`.
pub open spec fn text_bits(s: Seq<char>) -> Seq<bool> {
    base64_bits(vstd::utf8::encode_utf8(s))
}

/// The end condition of the base64 text `s`.
pub open spec fn text_end(s: Seq<char>) -> ReadError {
    base64_end(vstd::utf8::encode_utf8(s))
}

/// The invalid character, if any, at which the base64 decoding of the segment
/// text `s` stops.
pub open spec fn segment_error(s: Seq<char>) -> Option<DecodeError> {
    decode_stop(vstd::utf8::encode_utf8(s), 0)
}

/// A reader of the base64 segment text `s`, decoded whole before anything is
/// read from it: an invalid character anywhere in the text is refused at once.
/// Reads past the decoded bytes fail with an unexpected end of data.
pub fn segment_reader(s: &str) -> (r: Result<DataReader, SectionDecodeError>)
    ensures
        match segment_error(s@) {
            Some(e) => r matches Err(x) && x@ == SectionDecodeErrorView::DecodeSegment(e),
            None => r matches Ok(d) && d.wf() && d.spec_bits() == text_bits(s@) && d.spec_pos() == 0
                && d.spec_end() == ReadError::UnexpectedEof,
        },
{
    match decode(s) {
        Ok(bytes) => Ok(DataReader::from_parts(bytes, ReadError::UnexpectedEof)),
        Err(e) => Err(SectionDecodeError::DecodeSegment(e)),
    }
}

/// Decoding a section made of a single base64 payload: the text is decoded
/// whole, then read.
pub open spec fn spec_parse_base64_str<T: FromDataReader>(s: Seq<char>) -> Result<T::V, SectionDecodeErrorView> {
    match segment_error(s) {
        Some(e) => Err(SectionDecodeErrorView::DecodeSegment(e)),
        None => match T::spec_read(text_bits(s), ReadError::UnexpectedEof, 0) {
            Ok((v, _)) => Ok(v),
            Err(e) => Err(e),
        },
    }
}

/// Decodes a section made of a single base64 payload.
pub fn parse_base64_str<T: FromDataReader>(s: &str) -> (r: Result<T, SectionDecodeError>)
    ensures
        result_view(r) == spec_parse_base64_str::<T>(s@),
{
    let mut reader = segment_reader(s)?;
    reader.parse()
}

/// The pieces of `s` between occurrences of `sep`.
pub open spec fn spec_split(s: Seq<char>, sep: char) -> Seq<Seq<char>>
    decreases s.len(),
{
    if s.len() == 0 {
        seq![Seq::empty()]
    } else {
        let rest = spec_split(s.drop_first(), sep);
        if s[0] == sep {
            seq![Seq::<char>::empty()] + rest
        } else {
            rest.update(0, seq![s[0]] + rest[0])
        }
    }
}

/// Splitting always gives at least one piece.
pub proof fn lemma_split_nonempty(s: Seq<char>, sep: char)
    ensures
        spec_split(s, sep).len() >= 1,
    decreases s.len(),
{
    if s.len() > 0 {
        lemma_split_nonempty(s.drop_first(), sep);
    }
}

/// The characters of `s`, in order.
fn chars_of(s: &str) -> (r: Vec<char>)
    ensures
        r@ == s@,
{
    broadcast use vstd::string::group_string_axioms;
    let mut it = s.chars();
    let mut out: Vec<char> = Vec::new();
    proof {
        assert(s@.subrange(0, s@.len() as int) =~= s@);
    }
    loop
        invariant
            out@.len() <= s@.len(),
            out@ == s@.subrange(0, out@.len() as int),
            it.remaining() == s@.subrange(out@.len() as int, s@.len() as int),
        decreases s@.len() - out@.len(),
    {
        match it.next() {
            Some(c) => {
                proof {
                    assert(s@.subrange(out@.len() as int, s@.len() as int)[0] == s@[out@.len() as int]);
                    assert(s@.subrange(out@.len() as int, s@.len() as int).drop_first() =~= s@.subrange(
                        out@.len() as int + 1,
                        s@.len() as int,
                    ));
                }
                out.push(c);
                proof {
                    assert(out@ =~= s@.subrange(0, out@.len() as int));
                }
            },
            None => {
                proof {
                    assert(out@ =~= s@);
                }
                return out;
            },
        }
    }
}

/// Splits `s` into the pieces between occurrences of `sep`, in order, empty
/// pieces included.
pub(crate) fn split_str<'a>(s: &'a str, sep: char) -> (r: Vec<&'a str>)
    ensures
        r@.len() == spec_split(s@, sep).len(),
        forall|i: int| 0 <= i < r@.len() ==> #[trigger] r@[i]@ == spec_split(s@, sep)[i],
{
    let chars = chars_of(s);
    let n = chars.len();
    let ghost t = s@;
    let mut i: usize = n;
    let mut e: usize = n;
    let mut done: Vec<&'a str> = Vec::new();
    let ghost mut tail: Seq<Seq<char>> = Seq::empty();
    proof {
        assert(t.subrange(n as int, n as int) =~= Seq::<char>::empty());
        assert(spec_split(t.subrange(n as int, n as int), sep) =~= seq![t.subrange(n as int, n as int)] + tail);
    }
    while i > 0
        invariant
            chars@ == t,
            t == s@,
            n == t.len(),
            i <= e <= n,
            tail.len() == done@.len(),
            forall|k: int| 0 <= k < done@.len() ==> #[trigger] done@[k]@ == tail[tail.len() - 1 - k],
            spec_split(t.subrange(i as int, n as int), sep) == seq![t.subrange(i as int, e as int)] + tail,
        decreases i,
    {
        let c = chars[i - 1];
        let ghost u = t.subrange(i - 1, n as int);
        proof {
            assert(u.len() > 0);
            assert(u[0] == c);
            assert(u.drop_first() =~= t.subrange(i as int, n as int));
        }
        if c == sep {
            let piece = s.substring_char(i, e);
            done.push(piece);
            proof {
                let old_tail = tail;
                tail = seq![t.subrange(i as int, e as int)] + old_tail;
                assert(t.subrange(i - 1, i - 1) =~= Seq::<char>::empty());
                assert(spec_split(u, sep) =~= seq![t.subrange(i - 1, i - 1)] + tail);
                assert forall|k: int| 0 <= k < done@.len() implies #[trigger] done@[k]@ == tail[tail.len() - 1 - k] by {
                    if k < done@.len() - 1 {
                        assert(tail[tail.len() - 1 - k] == old_tail[old_tail.len() - 1 - k]);
                    }
                }
            }
            e = i - 1;
        } else {
            proof {
                assert(seq![c] + t.subrange(i as int, e as int) =~= t.subrange(i - 1, e as int));
                assert(spec_split(u, sep) =~= seq![t.subrange(i - 1, e as int)] + tail);
            }
        }
        i = i - 1;
    }
    proof {
        assert(t.subrange(0, n as int) =~= t);
    }
    let mut r: Vec<&'a str> = Vec::new();
    r.push(s.substring_char(0, e));
    let mut j: usize = done.len();
    while j > 0
        invariant
            j <= done@.len(),
            tail.len() == done@.len(),
            forall|k: int| 0 <= k < done@.len() ==> #[trigger] done@[k]@ == tail[tail.len() - 1 - k],
            r@.len() == 1 + done@.len() - j,
            r@[0]@ == t.subrange(0, e as int),
            forall|k: int| 1 <= k < r@.len() ==> #[trigger] r@[k]@ == tail[k - 1],
        decreases j,
    {
        j = j - 1;
        r.push(done[j]);
        proof {
            assert(r@[r@.len() - 1]@ == tail[tail.len() - 1 - j]);
        }
    }
    r
}

/// A section made of a core segment followed by optional segments, each
/// starting with its type.
pub trait OptionalSegmentParser: FromDataReader {
    /// The number of bits of a segment type.
    spec fn spec_segment_type_bits() -> int;

    /// What an optional segment of type `t`, read from `pos`, makes of `into`.
    spec fn spec_segment(t: u8, bits: Seq<bool>, end: ReadError, pos: int, into: Self::V) -> Result<Self::V, SectionDecodeErrorView>;

    /// Reading an optional segment never reports an unsupported section.
    proof fn lemma_segment_supported(t: u8, bits: Seq<bool>, end: ReadError, pos: int, into: Self::V)
        ensures
            not_unsupported(Self::spec_segment(t, bits, end, pos, into)),
    ;

    /// Optional segments of two different types commute: each fills its own
    /// part of the section, whatever the other filled.
    proof fn lemma_segments_commute(
        t1: u8,
        bits1: Seq<bool>,
        end1: ReadError,
        pos1: int,
        t2: u8,
        bits2: Seq<bool>,
        end2: ReadError,
        pos2: int,
        acc: Self::V,
    )
        requires
            t1 != t2,
        ensures
            Self::spec_segment(t1, bits1, end1, pos1, acc) is Ok && Self::spec_segment(
                t2,
                bits2,
                end2,
                pos2,
                Self::spec_segment(t1, bits1, end1, pos1, acc)->Ok_0,
            ) is Ok ==> {
                &&& Self::spec_segment(t2, bits2, end2, pos2, acc) is Ok
                &&& Self::spec_segment(t1, bits1, end1, pos1, Self::spec_segment(t2, bits2, end2, pos2, acc)->Ok_0)
                    == Self::spec_segment(t2, bits2, end2, pos2, Self::spec_segment(t1, bits1, end1, pos1, acc)->Ok_0)
            },
    ;

    /// Reads the type of an optional segment.
    fn read_segment_type(r: &mut DataReader) -> (res: Result<u8, SectionDecodeError>)
        requires
            old(r).wf(),
        ensures
            final(r).wf(),
            final(r).spec_bits() == old(r).spec_bits(),
            final(r).spec_end() == old(r).spec_end(),
            match sread(old(r).spec_bits(), old(r).spec_end(), old(r).spec_pos(), Self::spec_segment_type_bits()) {
                Ok((v, p)) => res matches Ok(x) && x as nat == v && final(r).spec_pos() == p,
                Err(e) => res matches Err(x) && x@ == e,
            },
    ;

    /// Reads an optional segment of type `segment_type` into `into`.
    fn parse_optional_segment(segment_type: u8, r: &mut DataReader, into: &mut Self) -> (res: Result<(), SectionDecodeError>)
        requires
            old(r).wf(),
        ensures
            match Self::spec_segment(segment_type, old(r).spec_bits(), old(r).spec_end(), old(r).spec_pos(), old(into)@) {
                Ok(v) => res is Ok && final(into)@ == v,
                Err(e) => res matches Err(x) && x@ == e,
            },
    ;
}

/// Decoding the optional segments `pieces[i..]` into `acc`, `seen` holding
/// the segment types already decoded: a second segment of one type is an error.
pub open spec fn spec_segments<T: OptionalSegmentParser>(pieces: Seq<Seq<char>>, i: int, acc: T::V, seen: Set<u8>) -> Result<T::V, SectionDecodeErrorView>
    decreases pieces.len() - i,
{
    if i >= pieces.len() || i < 0 {
        Ok(acc)
    } else {
        let bits = text_bits(pieces[i]);
        let end = ReadError::UnexpectedEof;
        match segment_error(pieces[i]) {
            Some(e) => Err(SectionDecodeErrorView::DecodeSegment(e)),
            None => match sread(bits, end, 0, T::spec_segment_type_bits()) {
                Err(e) => Err(e),
                Ok((t, p)) => match T::spec_segment(t as u8, bits, end, p, acc) {
                    Err(e) => Err(e),
                    Ok(v) => if seen.contains(t as u8) {
                        Err(SectionDecodeErrorView::DuplicateSegmentType { segment_type: t as u8 })
                    } else {
                        spec_segments::<T>(pieces, i + 1, v, seen.insert(t as u8))
                    },
                },
            },
        }
    }
}

/// Decoding a section of `.`-separated base64 segments: the core segment,
/// then each optional segment in turn, each decoded whole before it is read.
pub open spec fn spec_parse_segmented_str<T: OptionalSegmentParser>(s: Seq<char>) -> Result<T::V, SectionDecodeErrorView> {
    let pieces = spec_split(s, '.');
    match segment_error(pieces[0]) {
        Some(e) => Err(SectionDecodeErrorView::DecodeSegment(e)),
        None => match T::spec_read(text_bits(pieces[0]), ReadError::UnexpectedEof, 0) {
            Err(e) => Err(e),
            Ok((core, _)) => spec_segments::<T>(pieces, 1, core, Set::empty()),
        },
    }
}

/// The type of the optional segment written as `piece`, when it can be read.
pub open spec fn segment_type_of<T: OptionalSegmentParser>(piece: Seq<char>) -> Option<u8> {
    match segment_error(piece) {
        Some(_) => None,
        None => match sread(text_bits(piece), ReadError::UnexpectedEof, 0, T::spec_segment_type_bits()) {
            Ok((t, _)) => Some(t as u8),
            Err(_) => None,
        },
    }
}

/// Decoding optional segments succeeds only if each of their types can be
/// read, differs from those in `seen`, and differs from one segment to another.
pub proof fn lemma_segments_distinct<T: OptionalSegmentParser>(pieces: Seq<Seq<char>>, i: int, acc: T::V, seen: Set<u8>)
    requires
        0 <= i,
        spec_segments::<T>(pieces, i, acc, seen) is Ok,
    ensures
        forall|j: int| i <= j < pieces.len() ==> (#[trigger] segment_type_of::<T>(pieces[j]) matches Some(t) && !seen.contains(t)),
        forall|j1: int, j2: int|
            i <= j1 < j2 < pieces.len() ==> #[trigger] segment_type_of::<T>(pieces[j1]) != #[trigger] segment_type_of::<T>(pieces[j2]),
    decreases pieces.len() - i,
{
    if i < pieces.len() {
        let bits = text_bits(pieces[i]);
        let end = ReadError::UnexpectedEof;
        let (t, p) = sread(bits, end, 0, T::spec_segment_type_bits())->Ok_0;
        let v = T::spec_segment(t as u8, bits, end, p, acc)->Ok_0;
        lemma_segments_distinct::<T>(pieces, i + 1, v, seen.insert(t as u8));
    }
}

/// A section of segments decodes only if no two of its optional segments have
/// the same type.
pub proof fn lemma_segmented_types_distinct<T: OptionalSegmentParser>(s: Seq<char>)
    requires
        spec_parse_segmented_str::<T>(s) is Ok,
    ensures
        forall|j1: int, j2: int|
            1 <= j1 < j2 < spec_split(s, '.').len() ==> #[trigger] segment_type_of::<T>(spec_split(s, '.')[j1])
                != #[trigger] segment_type_of::<T>(spec_split(s, '.')[j2]),
{
    let pieces = spec_split(s, '.');
    let core = T::spec_read(text_bits(pieces[0]), ReadError::UnexpectedEof, 0)->Ok_0.0;
    lemma_segments_distinct::<T>(pieces, 1, core, Set::empty());
}

/// Decoding optional segments from index `i` reads only the pieces from `i` on.
pub proof fn lemma_segments_tail<T: OptionalSegmentParser>(p1: Seq<Seq<char>>, p2: Seq<Seq<char>>, i: int, acc: T::V, seen: Set<u8>)
    requires
        0 <= i,
        p1.len() == p2.len(),
        forall|k: int| i <= k < p1.len() ==> p1[k] == p2[k],
    ensures
        spec_segments::<T>(p1, i, acc, seen) == spec_segments::<T>(p2, i, acc, seen),
    decreases p1.len() - i,
{
    if i < p1.len() {
        assert(p1[i] == p2[i]);
        let bits = text_bits(p1[i]);
        let end = ReadError::UnexpectedEof;
        if segment_error(p1[i]) is None {
            match sread(bits, end, 0, T::spec_segment_type_bits()) {
                Ok((t, p)) => match T::spec_segment(t as u8, bits, end, p, acc) {
                    Ok(v) => {
                        lemma_segments_tail::<T>(p1, p2, i + 1, v, seen.insert(t as u8));
                    },
                    Err(_) => {},
                },
                Err(_) => {},
            }
        }
    }
}

/// Swapping two neighbouring optional segments, from index `i` on, leaves
/// their decoding unchanged when it succeeds: segments of different types
/// fill different parts of the section.
pub proof fn lemma_segments_swap<T: OptionalSegmentParser>(pieces: Seq<Seq<char>>, i: int, j: int, acc: T::V, seen: Set<u8>)
    requires
        0 <= i <= j,
        j + 1 < pieces.len(),
        spec_segments::<T>(pieces, i, acc, seen) is Ok,
    ensures
        spec_segments::<T>(pieces.update(j, pieces[j + 1]).update(j + 1, pieces[j]), i, acc, seen)
            == spec_segments::<T>(pieces, i, acc, seen),
    decreases j - i,
{
    let swapped = pieces.update(j, pieces[j + 1]).update(j + 1, pieces[j]);
    let end = ReadError::UnexpectedEof;
    if i < j {
        assert(swapped[i] == pieces[i]);
        let bits = text_bits(pieces[i]);
        let (t, p) = sread(bits, end, 0, T::spec_segment_type_bits())->Ok_0;
        let v = T::spec_segment(t as u8, bits, end, p, acc)->Ok_0;
        lemma_segments_swap::<T>(pieces, i + 1, j, v, seen.insert(t as u8));
    } else {
        let a = pieces[j];
        let b = pieces[j + 1];
        assert(swapped[j] == b && swapped[j + 1] == a);
        let bits_a = text_bits(a);
        let bits_b = text_bits(b);
        let (ta, pa) = sread(bits_a, end, 0, T::spec_segment_type_bits())->Ok_0;
        let va = T::spec_segment(ta as u8, bits_a, end, pa, acc)->Ok_0;
        let seen_a = seen.insert(ta as u8);
        let (tb, pb) = sread(bits_b, end, 0, T::spec_segment_type_bits())->Ok_0;
        let vab = T::spec_segment(tb as u8, bits_b, end, pb, va)->Ok_0;
        let seen_ab = seen_a.insert(tb as u8);
        assert(spec_segments::<T>(pieces, j + 1, va, seen_a) is Ok);
        assert(!seen_a.contains(tb as u8));
        T::lemma_segments_commute(ta as u8, bits_a, end, pa, tb as u8, bits_b, end, pb, acc);
        let vb = T::spec_segment(tb as u8, bits_b, end, pb, acc)->Ok_0;
        let seen_b = seen.insert(tb as u8);
        let seen_ba = seen_b.insert(ta as u8);
        assert(seen_ba =~= seen_ab);
        lemma_segments_tail::<T>(swapped, pieces, j + 2, vab, seen_ab);
        assert(spec_segments::<T>(swapped, j + 1, vb, seen_b) == spec_segments::<T>(swapped, j + 2, vab, seen_ab));
    }
}

/// `p` with its piece at index `k` moved down to index `i`, the pieces from
/// `i` to `k - 1` moving up one place.
pub open spec fn move_down(p: Seq<Seq<char>>, i: int, k: int) -> Seq<Seq<char>>
    decreases k - i,
{
    if k <= i {
        p
    } else {
        move_down(p.update(k - 1, p[k]).update(k, p[k - 1]), i, k - 1)
    }
}

/// Swapping two neighbouring pieces at or after `i` keeps the pieces from `i`
/// on, counted with their repetitions.
proof fn lemma_swap_multiset(p: Seq<Seq<char>>, i: int, a: int)
    requires
        0 <= i <= a,
        a + 1 < p.len(),
    ensures
        p.update(a, p[a + 1]).update(a + 1, p[a]).subrange(i, p.len() as int).to_multiset()
            == p.subrange(i, p.len() as int).to_multiset(),
{
    broadcast use {vstd::seq_lib::group_to_multiset_ensures, vstd::multiset::group_multiset_axioms};
    let t = p.subrange(i, p.len() as int);
    let c = a - i;
    let q = p.update(a, p[a + 1]).update(a + 1, p[a]);
    assert(q.subrange(i, p.len() as int) =~= t.update(c, t[c + 1]).update(c + 1, t[c]));
    let t1 = t.update(c, t[c + 1]);
    assert(t1[c + 1] == t[c + 1]);
    assert(t1.to_multiset() == t.to_multiset().insert(t[c + 1]).remove(t[c]));
    assert(t1.update(c + 1, t[c]).to_multiset() == t1.to_multiset().insert(t[c]).remove(t[c + 1]));
    assert(t1.update(c + 1, t[c]).to_multiset() =~= t.to_multiset());
}

/// Moving a piece down keeps the length, the pieces before `i` and the pieces
/// from `i` on, counted with their repetitions, and puts the moved piece at `i`.
proof fn lemma_move_down(p: Seq<Seq<char>>, i: int, k: int)
    requires
        0 <= i <= k < p.len(),
    ensures
        move_down(p, i, k).len() == p.len(),
        move_down(p, i, k)[i] == p[k],
        forall|m: int| 0 <= m < i ==> #[trigger] move_down(p, i, k)[m] == p[m],
        move_down(p, i, k).subrange(i, p.len() as int).to_multiset() == p.subrange(i, p.len() as int).to_multiset(),
    decreases k - i,
{
    if k > i {
        let q = p.update(k - 1, p[k]).update(k, p[k - 1]);
        lemma_swap_multiset(p, i, k - 1);
        lemma_move_down(q, i, k - 1);
    }
}

/// Moving an optional segment down leaves the decoding of the segments from
/// `i` on unchanged when it succeeds.
proof fn lemma_move_down_segments<T: OptionalSegmentParser>(p: Seq<Seq<char>>, i: int, k: int, acc: T::V, seen: Set<u8>)
    requires
        0 <= i <= k < p.len(),
        spec_segments::<T>(p, i, acc, seen) is Ok,
    ensures
        spec_segments::<T>(move_down(p, i, k), i, acc, seen) == spec_segments::<T>(p, i, acc, seen),
    decreases k - i,
{
    if k > i {
        let q = p.update(k - 1, p[k]).update(k, p[k - 1]);
        lemma_segments_swap::<T>(p, i, k - 1, acc, seen);
        lemma_move_down_segments::<T>(q, i, k - 1, acc, seen);
    }
}

/// The optional segments from index `i` on decode to the same value in any
/// order when they decode: `p2` holds from `i` on the pieces that `p1` holds
/// there, counted with their repetitions, in any order.
pub proof fn lemma_segments_permuted<T: OptionalSegmentParser>(p1: Seq<Seq<char>>, p2: Seq<Seq<char>>, i: int, acc: T::V, seen: Set<u8>)
    requires
        0 <= i <= p1.len(),
        p1.len() == p2.len(),
        p1.subrange(i, p1.len() as int).to_multiset() == p2.subrange(i, p2.len() as int).to_multiset(),
        spec_segments::<T>(p1, i, acc, seen) is Ok,
    ensures
        spec_segments::<T>(p2, i, acc, seen) == spec_segments::<T>(p1, i, acc, seen),
    decreases p1.len() - i,
{
    broadcast use {vstd::seq_lib::group_to_multiset_ensures, vstd::multiset::group_multiset_axioms};
    let n = p1.len() as int;
    if i < n {
        let t1 = p1.subrange(i, n);
        let t2 = p2.subrange(i, n);
        let x = p2[i];
        assert(t2[0] == x);
        assert(t2.contains(x));
        assert(t2.to_multiset().count(x) > 0);
        assert(t1.contains(x));
        let k0 = choose|k0: int| 0 <= k0 < t1.len() && t1[k0] == x;
        let k = i + k0;
        assert(p1[k] == x);
        lemma_move_down(p1, i, k);
        lemma_move_down_segments::<T>(p1, i, k, acc, seen);
        let q = move_down(p1, i, k);
        let tq = q.subrange(i, n);
        assert(tq.remove(0) =~= q.subrange(i + 1, n));
        assert(t2.remove(0) =~= p2.subrange(i + 1, n));
        assert(tq[0] == x);
        assert(q.subrange(i + 1, n).to_multiset() == p2.subrange(i + 1, n).to_multiset());
        let bits = text_bits(x);
        let end = ReadError::UnexpectedEof;
        assert(q[i] == x);
        let (t, pos) = sread(bits, end, 0, T::spec_segment_type_bits())->Ok_0;
        let v = T::spec_segment(t as u8, bits, end, pos, acc)->Ok_0;
        lemma_segments_permuted::<T>(q, p2, i + 1, v, seen.insert(t as u8));
    }
}

/// The optional segments of a section decode to the same section in any
/// order: when the text `s` decodes, a text `s2` with the same core segment
/// and the same optional segments, in any order, decodes to the same value.
pub proof fn lemma_segment_permutation<T: OptionalSegmentParser>(s: Seq<char>, s2: Seq<char>)
    requires
        spec_parse_segmented_str::<T>(s) is Ok,
        spec_split(s2, '.').len() == spec_split(s, '.').len(),
        spec_split(s2, '.')[0] == spec_split(s, '.')[0],
        spec_split(s, '.').drop_first().to_multiset() == spec_split(s2, '.').drop_first().to_multiset(),
    ensures
        spec_parse_segmented_str::<T>(s2) == spec_parse_segmented_str::<T>(s),
{
    let pieces = spec_split(s, '.');
    let pieces2 = spec_split(s2, '.');
    lemma_split_nonempty(s, '.');
    assert(pieces.drop_first() =~= pieces.subrange(1, pieces.len() as int));
    assert(pieces2.drop_first() =~= pieces2.subrange(1, pieces2.len() as int));
    let core = T::spec_read(text_bits(pieces[0]), ReadError::UnexpectedEof, 0)->Ok_0.0;
    lemma_segments_permuted::<T>(pieces, pieces2, 1, core, Set::empty());
}

/// Decoding optional segments never reports an unsupported section.
proof fn lemma_segments_supported<T: OptionalSegmentParser>(pieces: Seq<Seq<char>>, i: int, acc: T::V, seen: Set<u8>)
    ensures
        not_unsupported(spec_segments::<T>(pieces, i, acc, seen)),
    decreases pieces.len() - i,
{
    if 0 <= i < pieces.len() {
        let bits = text_bits(pieces[i]);
        let end = ReadError::UnexpectedEof;
        if segment_error(pieces[i]) is None {
            match sread(bits, end, 0, T::spec_segment_type_bits()) {
                Ok((t, p)) => {
                    T::lemma_segment_supported(t as u8, bits, end, p, acc);
                    match T::spec_segment(t as u8, bits, end, p, acc) {
                        Ok(v) => {
                            lemma_segments_supported::<T>(pieces, i + 1, v, seen.insert(t as u8));
                        },
                        Err(_) => {},
                    }
                },
                Err(_) => {},
            }
        }
    }
}

/// Decoding a section of segments never reports an unsupported section.
pub proof fn lemma_segmented_supported<T: OptionalSegmentParser>(s: Seq<char>)
    ensures
        not_unsupported(spec_parse_segmented_str::<T>(s)),
{
    let pieces = spec_split(s, '.');
    T::lemma_read_supported(text_bits(pieces[0]), ReadError::UnexpectedEof, 0);
    match T::spec_read(text_bits(pieces[0]), ReadError::UnexpectedEof, 0) {
        Ok((core, _)) => lemma_segments_supported::<T>(pieces, 1, core, Set::empty()),
        Err(_) => {},
    }
}

/// Decoding a section made of a single base64 payload never reports an
/// unsupported section.
pub proof fn lemma_base64_supported<T: FromDataReader>(s: Seq<char>)
    ensures
        not_unsupported(spec_parse_base64_str::<T>(s)),
{
    T::lemma_read_supported(text_bits(s), ReadError::UnexpectedEof, 0);
}

/// Decodes a section of `.`-separated base64 segments: a mandatory core
/// segment then optional segments, no two of the same type.
pub fn parse_segmented_str<T: OptionalSegmentParser>(s: &str) -> (r: Result<T, SectionDecodeError>)
    ensures
        result_view(r) == spec_parse_segmented_str::<T>(s@),
{
    let sections = split_str(s, '.');
    let ghost pieces = spec_split(s@, '.');
    proof {
        lemma_split_nonempty(s@, '.');
    }

    // first mandatory section is the core segment
    let mut r = segment_reader(sections[0])?;
    let mut output: T = r.parse()?;
    let mut segments: BTreeSet<u8> = BTreeSet::new();

    // parse each optional segment and fill the output
    let mut i: usize = 1;
    while i < sections.len()
        invariant
            1 <= i <= sections@.len(),
            sections@.len() == pieces.len(),
            pieces == spec_split(s@, '.'),
            forall|j: int| 0 <= j < sections@.len() ==> #[trigger] sections@[j]@ == pieces[j],
            spec_parse_segmented_str::<T>(s@) == spec_segments::<T>(pieces, i as int, output@, segments@),
        decreases sections@.len() - i,
    {
        let mut r = segment_reader(sections[i])?;

        let segment_type = T::read_segment_type(&mut r)?;
        T::parse_optional_segment(segment_type, &mut r, &mut output)?;

        // already present, duplicate segments is an error
        if !segments.insert(segment_type) {
            return Err(SectionDecodeError::DuplicateSegmentType { segment_type });
        }
        i = i + 1;
    }

    Ok(output)
}

/// Reading a field of `n` bits.
pub open spec fn bits_at(bits: Seq<bool>, pos: int, n: int) -> nat {
    bits_value(bits.subrange(pos, pos + n))
}

/// A field of `n` bits, at most 8, as a byte.
pub open spec fn u8_at(bits: Seq<bool>, pos: int, n: int) -> u8 {
    bits_at(bits, pos, n) as u8
}

/// A field of `n` bits, at most 16, as a `u16`.
pub open spec fn u16_at(bits: Seq<bool>, pos: int, n: int) -> u16 {
    bits_at(bits, pos, n) as u16
}

/// A timestamp field: 36 bits of deciseconds, in seconds.
pub open spec fn seconds_at(bits: Seq<bool>, pos: int) -> u64 {
    (bits_at(bits, pos, 36) / 10) as u64
}

/// A timestamp field in seconds, as a signed number.
pub open spec fn signed_seconds_at(bits: Seq<bool>, pos: int) -> i64 {
    seconds_at(bits, pos) as i64
}

/// A timestamp in seconds as a signed number.
pub fn signed_seconds(t: u64) -> (r: i64)
    requires
        t < 0x10_0000_0000,
    ensures
        r == t as i64,
{
    t as i64
}

impl DataReader {
    /// Reads a field of `n` bits, at most 8.
    pub fn read_u8_field(&mut self, n: u32) -> (res: Result<u8, SectionDecodeError>)
        requires
            old(self).wf(),
            n <= 8,
        ensures
            final(self).wf(),
            final(self).spec_bits() == old(self).spec_bits(),
            final(self).spec_end() == old(self).spec_end(),
            match sread(old(self).spec_bits(), old(self).spec_end(), old(self).spec_pos(), n as int) {
                Ok((v, p)) => res matches Ok(x) && x as nat == v && final(self).spec_pos() == p,
                Err(e) => res matches Err(x) && x@ == e,
            },
    {
        let v = self.read_bits_or_fail(n)?;
        proof {
            vstd::arithmetic::power2::lemma2_to64();
            if n < 8 {
                vstd::arithmetic::power2::lemma_pow2_strictly_increases(n as nat, 8);
            }
            assert(v < 256);
        }
        Ok(v as u8)
    }

    /// Reads a field of `n` bits, at most 16.
    pub fn read_u16_field(&mut self, n: u32) -> (res: Result<u16, SectionDecodeError>)
        requires
            old(self).wf(),
            n <= 16,
        ensures
            final(self).wf(),
            final(self).spec_bits() == old(self).spec_bits(),
            final(self).spec_end() == old(self).spec_end(),
            match sread(old(self).spec_bits(), old(self).spec_end(), old(self).spec_pos(), n as int) {
                Ok((v, p)) => res matches Ok(x) && x as nat == v && final(self).spec_pos() == p,
                Err(e) => res matches Err(x) && x@ == e,
            },
    {
        let v = self.read_bits_or_fail(n)?;
        proof {
            vstd::arithmetic::power2::lemma2_to64();
            if n < 16 {
                vstd::arithmetic::power2::lemma_pow2_strictly_increases(n as nat, 16);
            }
            assert(v < 0x10000);
        }
        Ok(v as u16)
    }
}

/// Reading the 6-bit version that starts a segment: a version other than
/// `expected` is refused.
pub open spec fn spec_read_version(bits: Seq<bool>, end: ReadError, pos: int, expected: u8) -> SectionStep<()> {
    match sread(bits, end, pos, 6) {
        Err(e) => Err(e),
        Ok((v, p)) => if v == expected {
            Ok(((), p))
        } else {
            Err(SectionDecodeErrorView::UnknownSegmentVersion { segment_version: v as u8 })
        },
    }
}

/// Reads the version that starts a segment and checks it.
pub fn read_version(r: &mut DataReader, expected: u8) -> (res: Result<(), SectionDecodeError>)
    requires
        old(r).wf(),
    ensures
        final(r).wf(),
        final(r).spec_bits() == old(r).spec_bits(),
        final(r).spec_end() == old(r).spec_end(),
        match spec_read_version(old(r).spec_bits(), old(r).spec_end(), old(r).spec_pos(), expected) {
            Ok((_, p)) => res is Ok && final(r).spec_pos() == p,
            Err(e) => res matches Err(x) && x@ == e,
        },
        sread(old(r).spec_bits(), old(r).spec_end(), old(r).spec_pos(), 6) matches Ok((_, p)) ==> final(r).spec_pos() == p,
{
    let v = r.read_u8_field(6)?;
    if v == expected {
        Ok(())
    } else {
        Err(SectionDecodeError::UnknownSegmentVersion { segment_version: v })
    }
}

/// A read whose failure becomes a section decoding error.
pub open spec fn lift_step<T>(s: Step<T>) -> SectionStep<T> {
    match s {
        Ok(v) => Ok(v),
        Err(e) => Err(SectionDecodeErrorView::Read(e)),
    }
}

/// Turns a read failure into a section decoding error.
pub fn lift<T>(r: Result<T, ReadError>) -> (res: Result<T, SectionDecodeError>)
    ensures
        match r {
            Ok(v) => res matches Ok(x) && x == v,
            Err(e) => res matches Err(x) && x@ == SectionDecodeErrorView::Read(e),
        },
{
    match r {
        Ok(v) => Ok(v),
        Err(e) => Err(SectionDecodeError::Read(e)),
    }
}

} // verus!
