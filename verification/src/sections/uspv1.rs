//! The US Privacy section (version 1), a deprecated section written as four
//! characters: the version digit, then one character for the opt-out notice,
//! the opt-out of sale and the coverage by the Limited Service Provider
//! Agreement.
//!
//! See the "US Privacy String" format of the IAB.
use vstd::prelude::*;
use std::str::Chars;
use vstd::std_specs::iter::IteratorSpec;
use crate::sections::{DecodableSection, SectionId, SectionDecodeError, SectionDecodeErrorView};

verus! {

broadcast use vstd::string::group_string_axioms;

/// The name of this section in error messages.
pub const KIND: &'static str = "uspv1";

/// The value of one character of the section.
#[derive(Clone, Copy, Debug, Eq, PartialEq, Structural)]
pub enum Char {
    Yes,
    No,
    NotApplicable,
}

impl Char {
    /// The value of a character: 'Y', 'N' or '-'.
    pub open spec fn spec_from_char(c: char) -> Option<Char> {
        if c == 'Y' {
            Some(Char::Yes)
        } else if c == 'N' {
            Some(Char::No)
        } else if c == '-' {
            Some(Char::NotApplicable)
        } else {
            None
        }
    }

    /// The value of a character, if it has one.
    pub fn from_char(c: char) -> (r: Option<Char>)
        ensures
            r == Self::spec_from_char(c),
    {
        if c == 'Y' {
            Some(Char::Yes)
        } else if c == 'N' {
            Some(Char::No)
        } else if c == '-' {
            Some(Char::NotApplicable)
        } else {
            None
        }
    }
}

/// The US Privacy section.
#[derive(Clone, Copy, Debug, Eq, PartialEq, Structural)]
pub struct UspV1 {
    pub opt_out_notice: Char,
    pub opt_out_sale: Char,
    pub lspa_covered: Char,
}

impl View for UspV1 {
    type V = UspV1;

    open spec fn view(&self) -> UspV1 {
        *self
    }
}

/// The value of a decimal digit.
pub open spec fn spec_digit(c: char) -> Option<u8> {
    if '0' <= c <= '9' {
        Some((c as u32 - '0' as u32) as u8)
    } else {
        None
    }
}

/// The value of a decimal digit, if the character is one.
pub fn digit(c: char) -> (r: Option<u8>)
    ensures
        r == spec_digit(c),
{
    if '0' <= c && c <= '9' {
        Some((c as u32 - '0' as u32) as u8)
    } else {
        None
    }
}

/// Reading the character at index `i` of the section text `s`.
pub open spec fn spec_next_char(s: Seq<char>, i: int) -> Result<Char, SectionDecodeErrorView> {
    if i >= s.len() {
        Err(SectionDecodeErrorView::UnexpectedEndOfString(s))
    } else {
        match Char::spec_from_char(s[i]) {
            Some(c) => Ok(c),
            None => Err(SectionDecodeErrorView::InvalidCharacter { character: s[i], kind: KIND@, s }),
        }
    }
}

/// Decoding the section text `s`: the version digit, which must be 1, then
/// three characters; what follows them is not read.
pub open spec fn spec_parse_uspv1(s: Seq<char>) -> Result<UspV1, SectionDecodeErrorView> {
    if s.len() == 0 {
        Err(SectionDecodeErrorView::UnexpectedEndOfString(s))
    } else {
        match spec_digit(s[0]) {
            None => Err(SectionDecodeErrorView::InvalidCharacter { character: s[0], kind: KIND@, s }),
            Some(v) => if v != 1 {
                Err(SectionDecodeErrorView::InvalidSectionVersion { expected: 1, found: v })
            } else {
                match spec_next_char(s, 1) {
                    Err(e) => Err(e),
                    Ok(a) => match spec_next_char(s, 2) {
                        Err(e) => Err(e),
                        Ok(b) => match spec_next_char(s, 3) {
                            Err(e) => Err(e),
                            Ok(c) => Ok(UspV1 { opt_out_notice: a, opt_out_sale: b, lspa_covered: c }),
                        },
                    },
                }
            },
        }
    }
}

/// Reads the next character of the section text `full_text`.
pub fn parse_next_char(chars: &mut Chars, full_text: &str) -> (res: Result<Char, SectionDecodeError>)
    requires
        (*old(chars)).obeys_prophetic_iter_laws(),
        full_text@.len() >= (*old(chars)).remaining().len(),
        (*old(chars)).remaining() == full_text@.subrange(
            full_text@.len() - (*old(chars)).remaining().len(),
            full_text@.len() as int,
        ),
    ensures
        (*final(chars)).obeys_prophetic_iter_laws(),
        ({
            let i = full_text@.len() - (*old(chars)).remaining().len();
            &&& match spec_next_char(full_text@, i) {
                Ok(c) => res == Ok::<Char, SectionDecodeError>(c),
                Err(e) => res matches Err(x) && x@ == e,
            }
            &&& res is Ok ==> (*final(chars)).remaining() == full_text@.subrange(i + 1, full_text@.len() as int)
        }),
{
    let ghost i = full_text@.len() - (*chars).remaining().len();
    let c = match chars.next() {
        Some(c) => c,
        None => {
            return Err(SectionDecodeError::UnexpectedEndOfString(full_text.to_owned()));
        },
    };
    proof {
        assert(full_text@.subrange(i, full_text@.len() as int)[0] == full_text@[i]);
        assert(full_text@.subrange(i, full_text@.len() as int).drop_first() =~= full_text@.subrange(
            i + 1,
            full_text@.len() as int,
        ));
    }
    match Char::from_char(c) {
        Some(v) => Ok(v),
        None => Err(SectionDecodeError::InvalidCharacter { character: c, kind: KIND, s: full_text.to_owned() }),
    }
}

impl UspV1 {
    /// Decodes the section text `s`.
    pub fn parse(s: &str) -> (r: Result<UspV1, SectionDecodeError>)
        ensures
            match spec_parse_uspv1(s@) {
                Ok(v) => r == Ok::<UspV1, SectionDecodeError>(v),
                Err(e) => r matches Err(x) && x@ == e,
            },
    {
        let mut chars = s.chars();
        proof {
            assert(s@.subrange(0, s@.len() as int) =~= s@);
        }
        let version = match chars.next() {
            Some(c) => c,
            None => {
                return Err(SectionDecodeError::UnexpectedEndOfString(s.to_owned()));
            },
        };
        proof {
            assert(s@.drop_first() =~= s@.subrange(1, s@.len() as int));
        }
        let version = match digit(version) {
            Some(v) => v,
            None => {
                return Err(SectionDecodeError::InvalidCharacter { character: version, kind: KIND, s: s.to_owned() });
            },
        };
        if version != 1 {
            return Err(SectionDecodeError::InvalidSectionVersion { expected: 1, found: version });
        }
        let opt_out_notice = parse_next_char(&mut chars, s)?;
        let opt_out_sale = parse_next_char(&mut chars, s)?;
        let lspa_covered = parse_next_char(&mut chars, s)?;
        Ok(UspV1 { opt_out_notice, opt_out_sale, lspa_covered })
    }
}

impl DecodableSection for UspV1 {
    const ID: SectionId = SectionId::UspV1;

    open spec fn spec_decode(s: Seq<char>) -> Result<UspV1, SectionDecodeErrorView> {
        spec_parse_uspv1(s)
    }

    proof fn lemma_decode_supported(s: Seq<char>) {
    }

    fn decode_str(s: &str) -> (r: Result<UspV1, SectionDecodeError>) {
        UspV1::parse(s)
    }
}

impl std::str::FromStr for UspV1 {
    type Err = SectionDecodeError;

    fn from_str(s: &str) -> (r: Result<UspV1, SectionDecodeError>)
        ensures
            crate::sections::result_view(r) == UspV1::spec_decode(s@),
    {
        UspV1::decode_str(s)
    }
}

/// What a US Privacy string says: its first character is the version `1`,
/// and the next three characters are, in order, the opt-out notice, the sale
/// opt-out and the LSPA coverage, each `Y` for yes, `N` for no and `-` for not
/// applicable.
pub proof fn lemma_parse_uspv1_chars(s: Seq<char>)
    requires
        spec_parse_uspv1(s) is Ok,
    ensures
        ({
            let v = spec_parse_uspv1(s)->Ok_0;
            &&& s.len() >= 4
            &&& s[0] == '1'
            &&& (v.opt_out_notice == Char::Yes <==> s[1] == 'Y')
            &&& (v.opt_out_notice == Char::No <==> s[1] == 'N')
            &&& (v.opt_out_notice == Char::NotApplicable <==> s[1] == '-')
            &&& (v.opt_out_sale == Char::Yes <==> s[2] == 'Y')
            &&& (v.opt_out_sale == Char::No <==> s[2] == 'N')
            &&& (v.opt_out_sale == Char::NotApplicable <==> s[2] == '-')
            &&& (v.lspa_covered == Char::Yes <==> s[3] == 'Y')
            &&& (v.lspa_covered == Char::No <==> s[3] == 'N')
            &&& (v.lspa_covered == Char::NotApplicable <==> s[3] == '-')
        }),
{
}

} // verus!
