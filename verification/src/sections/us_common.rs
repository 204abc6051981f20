//! Field values and reading helpers shared by the US state sections.
//!
//! Every US section stores its choices as 2-bit codes: 0 stands for "not
//! applicable", and a code with no meaning (3) is read as "not applicable" too.
use vstd::prelude::*;
use crate::encoding::{DataReader, ReadError, u8_to_decimal, spec_decimal, spec_read_bool};
use crate::encoding::bits::bits_value;
use crate::sections::{SectionDecodeError, SectionDecodeErrorView, SectionStep, bits_at, sread};

verus! {

/// Whether a notice was given to the consumer.
#[derive(Clone, Copy, Debug, PartialEq, Eq, Structural)]
pub enum Notice {
    NotApplicable,
    Provided,
    NotProvided,
}

/// Whether the consumer opted out.
#[derive(Clone, Copy, Debug, PartialEq, Eq, Structural)]
pub enum OptOut {
    NotApplicable,
    OptedOut,
    DidNotOptOut,
}

/// Whether the consumer consented.
#[derive(Clone, Copy, Debug, PartialEq, Eq, Structural)]
pub enum Consent {
    NotApplicable,
    NoConsent,
    Consent,
}

/// Whether a mode of the Multi-State Privacy Agreement is supported.
#[derive(Clone, Copy, Debug, PartialEq, Eq, Structural)]
pub enum MspaSupport {
    NotApplicable,
    Yes,
    No,
}

/// Whether a mode of the Multi-State Privacy Agreement is in effect.
#[derive(Clone, Copy, Debug, PartialEq, Eq, Structural)]
pub enum MspaMode {
    NotApplicable,
    Yes,
    No,
}

impl Notice {
    /// The value a 2-bit code stands for.
    pub open spec fn spec_from_code(c: nat) -> Notice {
        if c == 1 {
            Notice::Provided
        } else if c == 2 {
            Notice::NotProvided
        } else {
            Notice::NotApplicable
        }
    }

    /// The code of this value.
    pub open spec fn spec_code(self) -> u8 {
        match self {
            Notice::NotApplicable => 0,
            Notice::Provided => 1,
            Notice::NotProvided => 2,
        }
    }

    /// The value a 2-bit code stands for.
    pub fn from_code(c: u8) -> (r: Notice)
        ensures
            r == Self::spec_from_code(c as nat),
    {
        if c == 1 {
            Notice::Provided
        } else if c == 2 {
            Notice::NotProvided
        } else {
            Notice::NotApplicable
        }
    }

    /// The code of this value.
    pub fn to_u8(&self) -> (r: u8)
        ensures
            r == self.spec_code(),
    {
        match self {
            Notice::NotApplicable => 0,
            Notice::Provided => 1,
            Notice::NotProvided => 2,
        }
    }
}

impl OptOut {
    /// The value a 2-bit code stands for.
    pub open spec fn spec_from_code(c: nat) -> OptOut {
        if c == 1 {
            OptOut::OptedOut
        } else if c == 2 {
            OptOut::DidNotOptOut
        } else {
            OptOut::NotApplicable
        }
    }

    /// The code of this value.
    pub open spec fn spec_code(self) -> u8 {
        match self {
            OptOut::NotApplicable => 0,
            OptOut::OptedOut => 1,
            OptOut::DidNotOptOut => 2,
        }
    }

    /// The value a 2-bit code stands for.
    pub fn from_code(c: u8) -> (r: OptOut)
        ensures
            r == Self::spec_from_code(c as nat),
    {
        if c == 1 {
            OptOut::OptedOut
        } else if c == 2 {
            OptOut::DidNotOptOut
        } else {
            OptOut::NotApplicable
        }
    }

    /// The code of this value.
    pub fn to_u8(&self) -> (r: u8)
        ensures
            r == self.spec_code(),
    {
        match self {
            OptOut::NotApplicable => 0,
            OptOut::OptedOut => 1,
            OptOut::DidNotOptOut => 2,
        }
    }
}

impl Consent {
    /// The value a 2-bit code stands for.
    pub open spec fn spec_from_code(c: nat) -> Consent {
        if c == 1 {
            Consent::NoConsent
        } else if c == 2 {
            Consent::Consent
        } else {
            Consent::NotApplicable
        }
    }

    /// The code of this value.
    pub open spec fn spec_code(self) -> u8 {
        match self {
            Consent::NotApplicable => 0,
            Consent::NoConsent => 1,
            Consent::Consent => 2,
        }
    }

    /// The value a 2-bit code stands for.
    pub fn from_code(c: u8) -> (r: Consent)
        ensures
            r == Self::spec_from_code(c as nat),
    {
        if c == 1 {
            Consent::NoConsent
        } else if c == 2 {
            Consent::Consent
        } else {
            Consent::NotApplicable
        }
    }

    /// The code of this value.
    pub fn to_u8(&self) -> (r: u8)
        ensures
            r == self.spec_code(),
    {
        match self {
            Consent::NotApplicable => 0,
            Consent::NoConsent => 1,
            Consent::Consent => 2,
        }
    }
}

impl MspaSupport {
    /// The value a 2-bit code stands for.
    pub open spec fn spec_from_code(c: nat) -> MspaSupport {
        if c == 1 {
            MspaSupport::Yes
        } else if c == 2 {
            MspaSupport::No
        } else {
            MspaSupport::NotApplicable
        }
    }

    /// The code of this value.
    pub open spec fn spec_code(self) -> u8 {
        match self {
            MspaSupport::NotApplicable => 0,
            MspaSupport::Yes => 1,
            MspaSupport::No => 2,
        }
    }

    /// The value a 2-bit code stands for.
    pub fn from_code(c: u8) -> (r: MspaSupport)
        ensures
            r == Self::spec_from_code(c as nat),
    {
        if c == 1 {
            MspaSupport::Yes
        } else if c == 2 {
            MspaSupport::No
        } else {
            MspaSupport::NotApplicable
        }
    }

    /// The code of this value.
    pub fn to_u8(&self) -> (r: u8)
        ensures
            r == self.spec_code(),
    {
        match self {
            MspaSupport::NotApplicable => 0,
            MspaSupport::Yes => 1,
            MspaSupport::No => 2,
        }
    }
}

impl MspaMode {
    /// The value a 2-bit code stands for.
    pub open spec fn spec_from_code(c: nat) -> MspaMode {
        if c == 1 {
            MspaMode::Yes
        } else if c == 2 {
            MspaMode::No
        } else {
            MspaMode::NotApplicable
        }
    }

    /// The code of this value.
    pub open spec fn spec_code(self) -> u8 {
        match self {
            MspaMode::NotApplicable => 0,
            MspaMode::Yes => 1,
            MspaMode::No => 2,
        }
    }

    /// The value a 2-bit code stands for.
    pub fn from_code(c: u8) -> (r: MspaMode)
        ensures
            r == Self::spec_from_code(c as nat),
    {
        if c == 1 {
            MspaMode::Yes
        } else if c == 2 {
            MspaMode::No
        } else {
            MspaMode::NotApplicable
        }
    }

    /// The code of this value.
    pub fn to_u8(&self) -> (r: u8)
        ensures
            r == self.spec_code(),
    {
        match self {
            MspaMode::NotApplicable => 0,
            MspaMode::Yes => 1,
            MspaMode::No => 2,
        }
    }
}

impl Default for Notice {
    fn default() -> (r: Notice)
        ensures
            r == Notice::NotApplicable,
    {
        Notice::NotApplicable
    }
}

impl Default for OptOut {
    fn default() -> (r: OptOut)
        ensures
            r == OptOut::NotApplicable,
    {
        OptOut::NotApplicable
    }
}

impl Default for Consent {
    fn default() -> (r: Consent)
        ensures
            r == Consent::NotApplicable,
    {
        Consent::NotApplicable
    }
}

impl Default for MspaSupport {
    fn default() -> (r: MspaSupport)
        ensures
            r == MspaSupport::NotApplicable,
    {
        MspaSupport::NotApplicable
    }
}

impl Default for MspaMode {
    fn default() -> (r: MspaMode)
        ensures
            r == MspaMode::NotApplicable,
    {
        MspaMode::NotApplicable
    }
}

/// Every value is read back from its own code.
pub proof fn lemma_codes_read_back(n: Notice, o: OptOut, c: Consent, s: MspaSupport, m: MspaMode)
    ensures
        Notice::spec_from_code(n.spec_code() as nat) == n,
        OptOut::spec_from_code(o.spec_code() as nat) == o,
        Consent::spec_from_code(c.spec_code() as nat) == c,
        MspaSupport::spec_from_code(s.spec_code() as nat) == s,
        MspaMode::spec_from_code(m.spec_code() as nat) == m,
{
}

/// The 2-bit code at index `i` of a run of codes starting at `pos`.
pub open spec fn code_at(bits: Seq<bool>, pos: int, i: int) -> u8 {
    bits_value(bits.subrange(pos + 2 * i, pos + 2 * i + 2)) as u8
}

/// Reading `n` consecutive 2-bit codes from `pos`.
pub open spec fn spec_read_codes(bits: Seq<bool>, end: ReadError, pos: int, n: nat) -> SectionStep<Seq<u8>> {
    if pos + 2 * n <= bits.len() {
        Ok((Seq::new(n, |i: int| code_at(bits, pos, i)), pos + 2 * n))
    } else {
        Err(SectionDecodeErrorView::Read(end))
    }
}

/// Reads `n` consecutive 2-bit codes.
pub fn read_codes(r: &mut DataReader, n: usize) -> (res: Result<Vec<u8>, SectionDecodeError>)
    requires
        old(r).wf(),
    ensures
        final(r).wf(),
        final(r).spec_bits() == old(r).spec_bits(),
        final(r).spec_end() == old(r).spec_end(),
        match spec_read_codes(old(r).spec_bits(), old(r).spec_end(), old(r).spec_pos(), n as nat) {
            Ok((v, p)) => res matches Ok(x) && x@ == v && final(r).spec_pos() == p,
            Err(e) => res matches Err(x) && x@ == e,
        },
{
    let ghost bits = r.spec_bits();
    let ghost p0 = r.spec_pos();
    let mut codes: Vec<u8> = Vec::new();
    let mut i: usize = 0;
    proof {
        r.lemma_pos_bounds();
    }
    while i < n
        invariant
            i <= n,
            p0 + 2 * i <= bits.len(),
            r.wf(),
            r.spec_bits() == bits,
            r.spec_end() == old(r).spec_end(),
            bits == old(r).spec_bits(),
            p0 == old(r).spec_pos(),
            r.spec_pos() == p0 + 2 * i,
            codes@.len() == i,
            forall|j: int| 0 <= j < i ==> #[trigger] codes@[j] == code_at(bits, p0, j),
        decreases n - i,
    {
        let c = match r.read_u8_field(2) {
            Ok(c) => c,
            Err(e) => {
                assert(p0 + 2 * n > bits.len());
                return Err(e);
            },
        };
        assert(c == code_at(bits, p0, i as int));
        codes.push(c);
        i = i + 1;
    }
    proof {
        assert(codes@ =~= Seq::new(n as nat, |j: int| code_at(bits, p0, j)));
    }
    Ok(codes)
}

/// What the code of the "covered transaction" field means: 1 is yes, 2 is
/// no, and any other code is an invalid value.
pub open spec fn spec_covered_transaction(c: nat) -> Result<bool, SectionDecodeErrorView> {
    if c == 1 {
        Ok(true)
    } else if c == 2 {
        Ok(false)
    } else {
        Err(SectionDecodeErrorView::InvalidFieldValue { expected: "1 or 2"@, found: spec_decimal(c) })
    }
}

/// Interprets the code of the "covered transaction" field.
pub fn mspa_covered_transaction_to_bool(val: u8) -> (r: Result<bool, SectionDecodeError>)
    ensures
        match spec_covered_transaction(val as nat) {
            Ok(b) => r == Ok::<bool, SectionDecodeError>(b),
            Err(e) => r matches Err(x) && x@ == e,
        },
{
    if val == 1 {
        Ok(true)
    } else if val == 2 {
        Ok(false)
    } else {
        Err(SectionDecodeError::InvalidFieldValue { expected: "1 or 2".to_owned(), found: u8_to_decimal(val) })
    }
}

/// Reading the "covered transaction" field.
pub open spec fn spec_read_covered_transaction(bits: Seq<bool>, end: ReadError, pos: int) -> SectionStep<bool> {
    match sread(bits, end, pos, 2) {
        Err(e) => Err(e),
        Ok((v, p)) => match spec_covered_transaction(v) {
            Ok(b) => Ok((b, p)),
            Err(e) => Err(e),
        },
    }
}

/// Reads the "covered transaction" field.
pub fn parse_mspa_covered_transaction(r: &mut DataReader) -> (res: Result<bool, SectionDecodeError>)
    requires
        old(r).wf(),
    ensures
        final(r).wf(),
        final(r).spec_bits() == old(r).spec_bits(),
        final(r).spec_end() == old(r).spec_end(),
        match spec_read_covered_transaction(old(r).spec_bits(), old(r).spec_end(), old(r).spec_pos()) {
            Ok((v, p)) => res == Ok::<bool, SectionDecodeError>(v) && final(r).spec_pos() == p,
            Err(e) => res matches Err(x) && x@ == e,
        },
{
    let v = r.read_u8_field(2)?;
    mspa_covered_transaction_to_bool(v)
}

/// Reading the fields of a US section core after its version: `na` codes,
/// the covered transaction field, then `nb` codes.
pub open spec fn spec_read_core_fields(bits: Seq<bool>, end: ReadError, pos: int, na: nat, nb: nat) -> SectionStep<(Seq<u8>, bool, Seq<u8>)> {
    match spec_read_codes(bits, end, pos, na) {
        Err(e) => Err(e),
        Ok((a, p2)) => match spec_read_covered_transaction(bits, end, p2) {
            Err(e) => Err(e),
            Ok((covered, p3)) => match spec_read_codes(bits, end, p3, nb) {
                Err(e) => Err(e),
                Ok((b, p4)) => Ok(((a, covered, b), p4)),
            },
        },
    }
}

/// Reads the fields of a US section core after its version.
pub fn read_core_fields(r: &mut DataReader, na: usize, nb: usize) -> (res: Result<(Vec<u8>, bool, Vec<u8>), SectionDecodeError>)
    requires
        old(r).wf(),
    ensures
        final(r).wf(),
        final(r).spec_bits() == old(r).spec_bits(),
        final(r).spec_end() == old(r).spec_end(),
        match spec_read_core_fields(old(r).spec_bits(), old(r).spec_end(), old(r).spec_pos(), na as nat, nb as nat) {
            Ok(((a, covered, b), p)) => res matches Ok((x, y, z)) && x@ == a && y == covered && z@ == b && final(r).spec_pos() == p,
            Err(e) => res matches Err(x) && x@ == e,
        },
{
    let a = read_codes(r, na)?;
    let covered = parse_mspa_covered_transaction(r)?;
    let b = read_codes(r, nb)?;
    Ok((a, covered, b))
}

/// Whether a notice and the matching opt-out agree: no notice goes with no
/// opt-out, a given notice with a recorded choice, and a notice that was not
/// given only with an opt-out.
pub open spec fn spec_notice_and_opt_out_ok(notice: Notice, opt_out: OptOut) -> bool {
    ||| notice == Notice::NotApplicable && opt_out == OptOut::NotApplicable
    ||| notice == Notice::Provided && opt_out != OptOut::NotApplicable
    ||| notice == Notice::NotProvided && opt_out == OptOut::OptedOut
}

/// Checks that a notice and the matching opt-out agree.
pub fn is_notice_and_opt_out_combination_ok(notice: &Notice, opt_out: &OptOut) -> (r: bool)
    ensures
        r == spec_notice_and_opt_out_ok(*notice, *opt_out),
{
    *notice == Notice::NotApplicable && *opt_out == OptOut::NotApplicable
        || *notice == Notice::Provided && *opt_out != OptOut::NotApplicable
        || *notice == Notice::NotProvided && *opt_out == OptOut::OptedOut
}

/// Two fields whose values do not agree, each with its name and code.
#[derive(Debug)]
pub struct ValidationError {
    pub field1: (&'static str, u8),
    pub field2: (&'static str, u8),
}

impl View for ValidationError {
    type V = (Seq<char>, u8, Seq<char>, u8);

    open spec fn view(&self) -> (Seq<char>, u8, Seq<char>, u8) {
        (self.field1.0@, self.field1.1, self.field2.0@, self.field2.1)
    }
}

impl ValidationError {
    /// A disagreement between the field `field1` of code `val1` and the field
    /// `field2` of code `val2`.
    pub fn new(field1: &'static str, val1: u8, field2: &'static str, val2: u8) -> (r: ValidationError)
        ensures
            r@ == (field1@, val1, field2@, val2),
    {
        ValidationError { field1: (field1, val1), field2: (field2, val2) }
    }
}

/// A disagreement between two fields: each field's name and code.
pub type Disagreement = (Seq<char>, u8, Seq<char>, u8);

/// The disagreement `e` if `cond` holds, nothing otherwise.
pub open spec fn flag(cond: bool, e: Disagreement) -> Seq<Disagreement> {
    if cond {
        seq![e]
    } else {
        Seq::empty()
    }
}

/// The disagreements that a list of validation errors reports.
pub open spec fn views(v: Seq<ValidationError>) -> Seq<Disagreement> {
    v.map_values(|e: ValidationError| e@)
}

/// The result of a consistency check that found the disagreements `found`:
/// `Ok` when there are none, all of them in order otherwise.
pub open spec fn validation_result(r: Result<(), Vec<ValidationError>>, found: Seq<Disagreement>) -> bool {
    if found.len() == 0 {
        r is Ok
    } else {
        r matches Err(v) && views(v@) == found
    }
}

/// Records the disagreement between `field1` and `field2` when `cond` holds.
pub fn push_if(errors: &mut Vec<ValidationError>, cond: bool, field1: &'static str, val1: u8, field2: &'static str, val2: u8)
    ensures
        views(final(errors)@) == views(old(errors)@) + flag(cond, (field1@, val1, field2@, val2)),
{
    if cond {
        errors.push(ValidationError::new(field1, val1, field2, val2));
        assert(views(errors@) =~= views(old(errors)@) + flag(cond, (field1@, val1, field2@, val2)));
    } else {
        assert(views(errors@) =~= views(old(errors)@) + flag(cond, (field1@, val1, field2@, val2)));
    }
}

/// Turns the disagreements found into the result of a consistency check.
pub fn validation_outcome(errors: Vec<ValidationError>) -> (r: Result<(), Vec<ValidationError>>)
    ensures
        validation_result(r, views(errors@)),
{
    if errors.len() == 0 {
        Ok(())
    } else {
        Err(errors)
    }
}

/// Reading the optional segment of type `t` that holds the Global Privacy
/// Control flag: a single bit; no other type is known.
pub open spec fn spec_gpc_segment(t: u8, bits: Seq<bool>, end: ReadError, pos: int) -> Result<bool, SectionDecodeErrorView> {
    if t == 1 {
        match spec_read_bool(bits, end, pos) {
            Ok((b, _)) => Ok(b),
            Err(e) => Err(SectionDecodeErrorView::Read(e)),
        }
    } else {
        Err(SectionDecodeErrorView::UnknownSegmentType { segment_type: t })
    }
}

/// Reads the optional segment of type `t` that holds the Global Privacy
/// Control flag.
pub fn read_gpc_segment(t: u8, r: &mut DataReader) -> (res: Result<bool, SectionDecodeError>)
    requires
        old(r).wf(),
    ensures
        match spec_gpc_segment(t, old(r).spec_bits(), old(r).spec_end(), old(r).spec_pos()) {
            Ok(b) => res == Ok::<bool, SectionDecodeError>(b),
            Err(e) => res matches Err(x) && x@ == e,
        },
{
    if t == 1 {
        match r.read_bool() {
            Ok(b) => Ok(b),
            Err(e) => Err(SectionDecodeError::Read(e)),
        }
    } else {
        Err(SectionDecodeError::UnknownSegmentType { segment_type: t })
    }
}

/// Each code of a run of 2-bit codes is the value of its two bits.
pub proof fn lemma_codes_are_bits(bits: Seq<bool>, end: ReadError, pos: int, n: nat)
    requires
        0 <= pos,
        spec_read_codes(bits, end, pos, n) is Ok,
    ensures
        spec_read_codes(bits, end, pos, n)->Ok_0.0.len() == n,
        forall|i: int|
            0 <= i < n ==> (#[trigger] spec_read_codes(bits, end, pos, n)->Ok_0.0[i]) as nat == bits_at(bits, pos + 2 * i, 2),
{
    assert forall|i: int| 0 <= i < n implies (#[trigger] spec_read_codes(bits, end, pos, n)->Ok_0.0[i]) as nat == bits_at(
        bits,
        pos + 2 * i,
        2,
    ) by {
        let sub = bits.subrange(pos + 2 * i, pos + 2 * i + 2);
        crate::encoding::bits::lemma_bits_value_bound(sub);
        vstd::arithmetic::power2::lemma2_to64();
        assert(sub.len() == 2);
        assert(bits_value(sub) < 4);
    }
}

/// Where the fields of a US section core come from: the `na` codes before
/// the covered transaction field are the 2-bit values from `pos` on, the
/// covered transaction field holds exactly when the next two bits hold 1, and
/// the `nb` codes after it are the 2-bit values that follow.
pub proof fn lemma_core_fields_bits(bits: Seq<bool>, end: ReadError, pos: int, na: nat, nb: nat)
    requires
        0 <= pos,
        spec_read_core_fields(bits, end, pos, na, nb) is Ok,
    ensures
        ({
            let ((a, covered, b), q) = spec_read_core_fields(bits, end, pos, na, nb)->Ok_0;
            &&& a.len() == na
            &&& b.len() == nb
            &&& forall|i: int| 0 <= i < na ==> (#[trigger] a[i]) as nat == bits_at(bits, pos + 2 * i, 2)
            &&& covered == (bits_at(bits, pos + 2 * na, 2) == 1)
            &&& forall|i: int| 0 <= i < nb ==> (#[trigger] b[i]) as nat == bits_at(bits, pos + 2 * na + 2 + 2 * i, 2)
            &&& q == pos + 2 * na + 2 + 2 * nb
        }),
{
    lemma_codes_are_bits(bits, end, pos, na);
    let p2 = pos + 2 * na;
    let p3 = p2 + 2;
    lemma_codes_are_bits(bits, end, p3, nb);
    let b = spec_read_codes(bits, end, p3, nb)->Ok_0.0;
    assert forall|i: int| 0 <= i < nb implies (#[trigger] b[i]) as nat == bits_at(bits, pos + 2 * na + 2 + 2 * i, 2) by {
        assert(p3 + 2 * i == pos + 2 * na + 2 + 2 * i);
    }
}

/// What each 2-bit code means: 1 and 2 are the two answers of each field
/// (notice provided / not provided, opted out / did not opt out, no consent /
/// consent, yes / no), and 0 means the field does not apply.
pub proof fn lemma_code_meanings(c: nat)
    ensures
        c == 0 ==> Notice::spec_from_code(c) == Notice::NotApplicable && OptOut::spec_from_code(c) == OptOut::NotApplicable
            && Consent::spec_from_code(c) == Consent::NotApplicable && MspaSupport::spec_from_code(c)
            == MspaSupport::NotApplicable && MspaMode::spec_from_code(c) == MspaMode::NotApplicable,
        c == 1 ==> Notice::spec_from_code(c) == Notice::Provided && OptOut::spec_from_code(c) == OptOut::OptedOut
            && Consent::spec_from_code(c) == Consent::NoConsent && MspaSupport::spec_from_code(c) == MspaSupport::Yes
            && MspaMode::spec_from_code(c) == MspaMode::Yes,
        c == 2 ==> Notice::spec_from_code(c) == Notice::NotProvided && OptOut::spec_from_code(c) == OptOut::DidNotOptOut
            && Consent::spec_from_code(c) == Consent::Consent && MspaSupport::spec_from_code(c) == MspaSupport::No
            && MspaMode::spec_from_code(c) == MspaMode::No,
{
}

/// The optional segment of a US section is of type 1 and holds one flag, the
/// Global Privacy Control, in its first bit.
pub proof fn lemma_gpc_segment(t: u8, bits: Seq<bool>, end: ReadError, pos: int)
    requires
        0 <= pos,
        spec_gpc_segment(t, bits, end, pos) is Ok,
    ensures
        t == 1,
        pos < bits.len(),
        spec_gpc_segment(t, bits, end, pos)->Ok_0 == bits[pos],
{
}

} // verus!
