//! Version 1 of the IAB Global Privacy Platform string.
//!
//! A GPP string contains a header which lists the sections which are present
//! in the next optional parts.
//!
//! A typical GPP string will look like this:
//!
//! ```text
//! DBACNY~CPXxRfAPXxRfAAfKABENB-CgAAAAAAAAAAYgAAAAAAAA~1YNN
//! ```
//!
//! It contains a header (`DBACNY`) and two sections separated by a `~` character.
//!
//! GPP string sections are usually encoded in a variation of URL-safe Base64.
//! It is not mandatory though, and certain sections, such as the deprecated USP v1, use
//! a simpler character set.
use vstd::prelude::*;
use std::hash::BuildHasherDefault;
use fnv::{FnvHashMap, FnvHasher};
use crate::encoding::{ReadError, base64_bit_reader, spec_read_bits};
use crate::encoding::ranges::{spec_read_fibonacci_range, values};
use crate::sections::{
    DecodableSection, Section, SectionDecodeError, SectionDecodeErrorView, SectionId, SectionView, lemma_split_nonempty,
    result_view, spec_decode_section, spec_split, split_str, text_bits, text_end,
};

verus! {

/// The type number of a GPP header.
pub const GPP_HEADER: u8 = 3;

/// The version of the GPP strings read here.
pub const GPP_VERSION: u8 = 1;

/// The error type for GPP String decoding operations.
#[derive(Debug, Clone, Copy, PartialEq, Eq)]
#[non_exhaustive]
pub enum GPPDecodeError {
    /// The string does not contain the mandatory header section.
    NoHeaderFound,
    /// The header has an invalid type for this version of GPP.
    InvalidHeaderType { found: u8 },
    /// The header has an invalid GPP version.
    ///
    /// Note that there is currently only V1 of the standard.
    InvalidGPPVersion { found: u8 },
    /// The header could not be read, usually because the string is truncated.
    Read { source: ReadError },
    /// A section with an unknown or unsupported identifier is listed in the string header.
    UnsupportedSectionId(u8),
    /// The number of sections listed in the header does not match the number of actual sections
    /// present in the string.
    IdSectionMismatch { ids: usize, sections: usize },
}

/// The index of the first identifier of `v`, from index `i` on, that no
/// section has.
pub open spec fn first_unsupported(v: Seq<int>, i: int) -> Option<int>
    decreases v.len() - i,
{
    if i < 0 || i >= v.len() {
        None
    } else if SectionId::spec_from_u8(v[i] as u8) is None {
        Some(i)
    } else {
        first_unsupported(v, i + 1)
    }
}

/// The section identifiers of the numbers `v`: the first number that no
/// section has is refused.
pub open spec fn spec_section_ids(v: Seq<int>) -> Result<Seq<SectionId>, GPPDecodeError> {
    match first_unsupported(v, 0) {
        Some(i) => Err(GPPDecodeError::UnsupportedSectionId(v[i] as u8)),
        None => Ok(v.map_values(|n: int| SectionId::spec_from_u8(n as u8)->0)),
    }
}

/// Splitting a GPP string into the identifiers its header lists and its
/// section texts: the header (the text before the first `~`) is a base64
/// payload holding the header type (6 bits, 3), the version (6 bits, 1) and a
/// Fibonacci range of section identifiers; one section text must follow for
/// each identifier.
pub open spec fn spec_extract_gpp_sections(s: Seq<char>) -> Result<(Seq<SectionId>, Seq<Seq<char>>), GPPDecodeError> {
    let pieces = spec_split(s, '~');
    let bits = text_bits(pieces[0]);
    let end = text_end(pieces[0]);
    match spec_read_bits(bits, end, 0, 6) {
        Err(e) => Err(GPPDecodeError::Read { source: e }),
        Ok((header_type, p1)) => if header_type != 3 {
            Err(GPPDecodeError::InvalidHeaderType { found: header_type as u8 })
        } else {
            match spec_read_bits(bits, end, p1, 6) {
                Err(e) => Err(GPPDecodeError::Read { source: e }),
                Ok((version, p2)) => if version != 1 {
                    Err(GPPDecodeError::InvalidGPPVersion { found: version as u8 })
                } else {
                    match spec_read_fibonacci_range(bits, end, p2, 0x100) {
                        Err(e) => Err(GPPDecodeError::Read { source: e }),
                        Ok((numbers, _)) => match spec_section_ids(numbers) {
                            Err(e) => Err(e),
                            Ok(ids) => if pieces.len() - 1 != ids.len() {
                                Err(
                                    GPPDecodeError::IdSectionMismatch {
                                        ids: ids.len() as usize,
                                        sections: (pieces.len() - 1) as usize,
                                    },
                                )
                            } else {
                                Ok((ids, pieces.drop_first()))
                            },
                        },
                    }
                },
            }
        },
    }
}

/// No number from index `i` on lacks a section when none is found there.
proof fn lemma_first_unsupported_none(v: Seq<int>, i: int, j: int)
    requires
        0 <= i <= j < v.len(),
        first_unsupported(v, i) is None,
    ensures
        SectionId::spec_from_u8(v[j] as u8) is Some,
    decreases j - i,
{
    if i < j {
        lemma_first_unsupported_none(v, i + 1, j);
    }
}

/// What a GPP string's header says: the text before the first `~` is base64
/// whose first 6 bits hold the header type 3 and next 6 bits the version 1;
/// from bit 12 a Fibonacci range lists the section numbers, and the section
/// identifiers are those numbers, in order; the section texts are the pieces
/// after the header.
pub proof fn lemma_header_layout(s: Seq<char>)
    requires
        spec_extract_gpp_sections(s) is Ok,
    ensures
        ({
            let (ids, texts) = spec_extract_gpp_sections(s)->Ok_0;
            let pieces = spec_split(s, '~');
            let bits = text_bits(pieces[0]);
            let numbers = spec_read_fibonacci_range(bits, text_end(pieces[0]), 12, 0x100);
            &&& crate::sections::bits_at(bits, 0, 6) == 3
            &&& crate::sections::bits_at(bits, 6, 6) == 1
            &&& numbers is Ok
            &&& ids.len() == numbers->Ok_0.0.len()
            &&& forall|i: int| 0 <= i < ids.len() ==> #[trigger] ids[i].spec_to_u8() == numbers->Ok_0.0[i] as u8
            &&& texts == pieces.drop_first()
        }),
{
    let (ids, texts) = spec_extract_gpp_sections(s)->Ok_0;
    let pieces = spec_split(s, '~');
    let bits = text_bits(pieces[0]);
    let v = spec_read_fibonacci_range(bits, text_end(pieces[0]), 12, 0x100)->Ok_0.0;
    assert forall|i: int| 0 <= i < ids.len() implies #[trigger] ids[i].spec_to_u8() == v[i] as u8 by {
        lemma_first_unsupported_none(v, 0, i);
        crate::sections::lemma_section_id_numbering(ids[i], v[i] as u8);
    }
}

/// The section identifiers of the numbers `numbers`.
pub fn section_ids_of(numbers: &Vec<u8>) -> (r: Result<Vec<SectionId>, GPPDecodeError>)
    ensures
        match spec_section_ids(values(numbers@)) {
            Ok(ids) => r matches Ok(v) && v@ == ids,
            Err(e) => r == Err::<Vec<SectionId>, GPPDecodeError>(e),
        },
{
    let ghost nv = values(numbers@);
    let mut section_ids: Vec<SectionId> = Vec::new();
    let mut i: usize = 0;
    while i < numbers.len()
        invariant
            i <= numbers@.len(),
            nv == values(numbers@),
            nv.len() == numbers@.len(),
            first_unsupported(nv, 0) == first_unsupported(nv, i as int),
            section_ids@ == nv.subrange(0, i as int).map_values(|n: int| SectionId::spec_from_u8(n as u8)->0),
        decreases numbers@.len() - i,
    {
        let n = numbers[i];
        match SectionId::from_u8(n) {
            Some(id) => {
                section_ids.push(id);
                proof {
                    assert(nv[i as int] == n as int);
                    assert(section_ids@ =~= nv.subrange(0, i + 1).map_values(|n: int| SectionId::spec_from_u8(n as u8)->0));
                }
            },
            None => {
                proof {
                    assert(nv[i as int] == n as int);
                    assert(first_unsupported(nv, i as int) == Some(i as int));
                }
                return Err(GPPDecodeError::UnsupportedSectionId(n));
            },
        }
        i = i + 1;
    }
    proof {
        assert(nv.subrange(0, nv.len() as int) =~= nv);
    }
    Ok(section_ids)
}

/// Splits a GPP string into the identifiers its header lists and its
/// section texts.
pub fn extract_gpp_sections_from_str<'a>(s: &'a str) -> (r: Result<(Vec<SectionId>, Vec<&'a str>), GPPDecodeError>)
    ensures
        match spec_extract_gpp_sections(s@) {
            Ok((ids, texts)) => r matches Ok((a, b)) && a@ == ids && b@.len() == texts.len() && forall|i: int|
                0 <= i < texts.len() ==> #[trigger] b@[i]@ == texts[i],
            Err(e) => r == Err::<(Vec<SectionId>, Vec<&'a str>), GPPDecodeError>(e),
        },
{
    let pieces = split_str(s, '~');
    let ghost sp = spec_split(s@, '~');
    proof {
        lemma_split_nonempty(s@, '~');
    }
    let header_str = pieces[0];
    proof {
        assert(pieces@[0]@ == sp[0]);
    }
    let mut bit_reader = base64_bit_reader(header_str.as_bytes());

    let header_type = match bit_reader.read_fixed_integer(6) {
        Ok(v) => v,
        Err(e) => {
            return Err(GPPDecodeError::Read { source: e });
        },
    };
    proof {
        vstd::arithmetic::power2::lemma2_to64();
    }
    if header_type != 3 {
        return Err(GPPDecodeError::InvalidHeaderType { found: header_type as u8 });
    }

    let gpp_version = match bit_reader.read_fixed_integer(6) {
        Ok(v) => v,
        Err(e) => {
            return Err(GPPDecodeError::Read { source: e });
        },
    };
    if gpp_version != 1 {
        return Err(GPPDecodeError::InvalidGPPVersion { found: gpp_version as u8 });
    }

    let numbers: Vec<u8> = match bit_reader.read_fibonacci_range() {
        Ok(v) => v,
        Err(e) => {
            return Err(GPPDecodeError::Read { source: e });
        },
    };
    let section_ids = section_ids_of(&numbers)?;

    let mut sections: Vec<&'a str> = Vec::new();
    let mut j: usize = 1;
    while j < pieces.len()
        invariant
            1 <= j <= pieces@.len(),
            pieces@.len() == sp.len(),
            forall|k: int| 0 <= k < pieces@.len() ==> #[trigger] pieces@[k]@ == sp[k],
            sections@.len() == j - 1,
            forall|k: int| 0 <= k < j - 1 ==> #[trigger] sections@[k]@ == sp[k + 1],
        decreases pieces@.len() - j,
    {
        sections.push(pieces[j]);
        j = j + 1;
    }
    if sections.len() != section_ids.len() {
        return Err(GPPDecodeError::IdSectionMismatch { ids: section_ids.len(), sections: sections.len() });
    }
    Ok((section_ids, sections))
}

/// The hasher of the `fnv` crate; only carried through.
#[verifier::external_type_specification]
#[verifier::external_body]
pub struct ExFnvHasher(FnvHasher);

/// The builder of default hashers of std; only carried through.
#[verifier::external_type_specification]
#[verifier::external_body]
#[verifier::reject_recursive_types(H)]
pub struct ExBuildHasherDefault<H>(BuildHasherDefault<H>);

/// `FnvHashMap::default()` (`fnv`): a `HashMap` of std with the FNV hasher
/// builder, created empty.
#[verifier::external_body]
fn new_section_map() -> (m: FnvHashMap<u8, String>)
    ensures
        m@.dom().is_empty(),
{
    FnvHashMap::default()
}

/// `HashMap::insert` (std) on a map with the FNV hasher of `fnv`: the map
/// then maps `k` to `v` and is otherwise unchanged. The FNV hasher is
/// deterministic, so std's documented behavior holds for it; the previous
/// value that `insert` returns is dropped.
#[verifier::external_body]
fn section_map_insert(m: &mut FnvHashMap<u8, String>, k: u8, v: String)
    ensures
        final(m)@ == old(m)@.insert(k, v),
{
    m.insert(k, v);
}

/// `HashMap::get` (std) on a map with the FNV hasher of `fnv`: the value of
/// `k`, or `None` when `k` has none.
#[verifier::external_body]
fn section_map_get(m: &FnvHashMap<u8, String>, k: u8) -> (r: Option<&String>)
    ensures
        match r {
            Some(v) => m@.contains_key(k) && *v == m@[k],
            None => !m@.contains_key(k),
        },
{
    m.get(&k)
}

/// The section texts of a GPP string by section number: the text of the
/// `i`-th listed section, a later text of one section replacing an earlier one.
pub open spec fn spec_section_map(ids: Seq<SectionId>, texts: Seq<Seq<char>>, n: nat) -> Map<u8, Seq<char>>
    decreases n,
{
    if n == 0 {
        Map::empty()
    } else {
        spec_section_map(ids, texts, (n - 1) as nat).insert(ids[n - 1].spec_to_u8(), texts[n - 1])
    }
}

/// The text recorded for a listed section is that of its last listing, and
/// every listed section has one.
pub proof fn lemma_section_map_last(ids: Seq<SectionId>, texts: Seq<Seq<char>>, n: nat, j: int)
    requires
        n <= ids.len(),
        n <= texts.len(),
        0 <= j < n,
        forall|k: int| j < k < n ==> ids[k] != ids[j],
    ensures
        spec_section_map(ids, texts, n).contains_key(ids[j].spec_to_u8()),
        spec_section_map(ids, texts, n)[ids[j].spec_to_u8()] == texts[j],
    decreases n,
{
    if j < n - 1 {
        lemma_section_map_last(ids, texts, (n - 1) as nat, j);
        crate::sections::lemma_section_id_numbering(ids[j], ids[n - 1].spec_to_u8());
        crate::sections::lemma_section_id_numbering(ids[n - 1], ids[j].spec_to_u8());
    }
}

/// Parsing a GPP string whose header lists each section once records, for
/// each listed section, the text written at its place after the header.
pub proof fn lemma_parsed_section_texts(s: Seq<char>, i: int)
    requires
        spec_extract_gpp_sections(s) is Ok,
        spec_extract_gpp_sections(s)->Ok_0.0.no_duplicates(),
        0 <= i < spec_extract_gpp_sections(s)->Ok_0.0.len(),
    ensures
        ({
            let (ids, texts) = spec_extract_gpp_sections(s)->Ok_0;
            &&& spec_section_map(ids, texts, ids.len()).contains_key(ids[i].spec_to_u8())
            &&& spec_section_map(ids, texts, ids.len())[ids[i].spec_to_u8()] == spec_split(s, '~')[i + 1]
        }),
{
    let (ids, texts) = spec_extract_gpp_sections(s)->Ok_0;
    lemma_section_map_last(ids, texts, ids.len(), i);
}

/// The representation of a parsed GPP consent string.
///
/// This structure gives access to the list of section IDs which it contains, as well as the raw
/// section strings.
///
/// It also offers methods to decode either a specific section, or all sections at once.
#[derive(Debug)]
pub struct GPPString {
    section_ids: Vec<SectionId>,
    sections: FnvHashMap<u8, String>,
}

/// A parsed GPP string: the identifiers listed in its header, in order, and
/// the section texts by section number.
pub struct GPPStringView {
    pub section_ids: Seq<SectionId>,
    pub sections: Map<u8, Seq<char>>,
}

impl View for GPPString {
    type V = GPPStringView;

    closed spec fn view(&self) -> GPPStringView {
        GPPStringView {
            section_ids: self.section_ids@,
            sections: self.sections@.map_values(|t: String| t@),
        }
    }
}

impl GPPString {
    /// Every listed section has a text.
    #[verifier::type_invariant]
    closed spec fn inv(self) -> bool {
        forall|i: int| 0 <= i < self.section_ids@.len() ==> #[trigger] self.sections@.contains_key(self.section_ids@[i].spec_to_u8())
    }

    /// Parses a string and returns a [`GPPString`] if successful.
    ///
    /// # Errors
    ///
    /// Returns a [`GPPDecodeError`] if unable to parse the string.
    pub fn parse_str(s: &str) -> (r: Result<GPPString, GPPDecodeError>)
        ensures
            match spec_extract_gpp_sections(s@) {
                Ok((ids, texts)) => r matches Ok(g) && g@.section_ids == ids && g@.sections == spec_section_map(ids, texts, ids.len())
                    && forall|i: int| 0 <= i < ids.len() ==> #[trigger] g@.sections.contains_key(ids[i].spec_to_u8()),
                Err(e) => r matches Err(x) && x == e,
            },
    {
        let (section_ids, texts) = extract_gpp_sections_from_str(s)?;
        let mut sections = new_section_map();
        let mut i: usize = 0;
        proof {
            assert(sections@.map_values(|t: String| t@) =~= spec_section_map(section_ids@, texts@.map_values(|t: &str| t@), 0));
        }
        while i < section_ids.len()
            invariant
                i <= section_ids@.len(),
                section_ids@.len() == texts@.len(),
                sections@.map_values(|t: String| t@) == spec_section_map(section_ids@, texts@.map_values(|t: &str| t@), i as nat),
                forall|j: int| 0 <= j < i ==> #[trigger] sections@.contains_key(section_ids@[j].spec_to_u8()),
            decreases section_ids@.len() - i,
        {
            let ghost before = sections@;
            section_map_insert(&mut sections, section_ids[i].to_u8(), texts[i].to_owned());
            proof {
                assert(sections@.map_values(|t: String| t@) =~= spec_section_map(section_ids@, texts@.map_values(|t: &str| t@), (i + 1) as nat));
            }
            i = i + 1;
        }
        proof {
            assert(texts@.map_values(|t: &str| t@) =~= spec_extract_gpp_sections(s@)->Ok_0.1);
        }
        Ok(GPPString { section_ids, sections })
    }
}

/// Decoding the section with identifier `id` of the parsed GPP string `g`:
/// a section that the string does not hold is missing.
pub open spec fn spec_decode_in(g: GPPStringView, id: SectionId) -> Result<SectionView, SectionDecodeErrorView> {
    if g.sections.contains_key(id.spec_to_u8()) {
        spec_decode_section(id, g.sections[id.spec_to_u8()])
    } else {
        Err(SectionDecodeErrorView::MissingSection(id))
    }
}

/// Decoding the section of type `T` of the parsed GPP string `g`.
pub open spec fn spec_decode_as<T: DecodableSection>(g: GPPStringView) -> Result<T::V, SectionDecodeErrorView> {
    if g.sections.contains_key(T::ID.spec_to_u8()) {
        T::spec_decode(g.sections[T::ID.spec_to_u8()])
    } else {
        Err(SectionDecodeErrorView::MissingSection(T::ID))
    }
}

impl GPPString {
    /// Returns a reference to a raw section contained in this GPP string.
    ///
    /// The method takes the section ID as parameter, and returns the reference
    /// to the raw string representing that section.
    ///
    /// If the given section is not present within the GPP string, the method returns [`None`].
    pub fn section(&self, id: SectionId) -> (r: Option<&str>)
        ensures
            match r {
                Some(t) => self@.sections.contains_key(id.spec_to_u8()) && t@ == self@.sections[id.spec_to_u8()],
                None => !self@.sections.contains_key(id.spec_to_u8()),
            },
    {
        match section_map_get(&self.sections, id.to_u8()) {
            Some(t) => Some(t.as_str()),
            None => None,
        }
    }

    /// Returns the list of section IDs present in this GPP string, in order.
    pub fn section_ids(&self) -> (r: SectionIds<'_>)
        ensures
            r.remaining() == self@.section_ids,
    {
        SectionIds { ids: &self.section_ids, idx: 0 }
    }

    /// Returns the raw section strings present in this GPP string, in the order of their IDs.
    pub fn sections(&self) -> (r: Sections<'_>)
        ensures
            r.texts() == self@.section_ids.map_values(|id: SectionId| self@.sections[id.spec_to_u8()]),
            r.index() == 0,
    {
        Sections { gpp_str: self, idx: 0 }
    }

    /// Decodes and returns a single section of this GPP string.
    ///
    /// Takes the section ID to decode as parameter.
    ///
    /// # Errors
    ///
    /// Returns a [`SectionDecodeError`] if decoding the section fails or if the section is not
    /// present in the string.
    pub fn decode_section(&self, id: SectionId) -> (r: Result<Section, SectionDecodeError>)
        ensures
            result_view(r) == spec_decode_in(self@, id),
            r matches Ok(sec) ==> sec@.spec_id() == id,
    {
        match self.section(id) {
            Some(s) => crate::sections::decode_section(id, s),
            None => Err(SectionDecodeError::MissingSection(id)),
        }
    }

    /// Decodes and returns the section of type `T` of this GPP string.
    ///
    /// # Errors
    ///
    /// Returns a [`SectionDecodeError`] if decoding the section fails or if the section is not
    /// present in the string.
    pub fn decode<T: DecodableSection>(&self) -> (r: Result<T, SectionDecodeError>)
        ensures
            result_view(r) == spec_decode_as::<T>(self@),
    {
        match self.section(T::ID) {
            Some(s) => T::decode_str(s),
            None => Err(SectionDecodeError::MissingSection(T::ID)),
        }
    }

    /// Decodes and returns all sections present in this GPP string, in the order of their IDs:
    /// each entry is either the decoded section or the error its decoding gave.
    pub fn decode_all_sections(&self) -> (r: Vec<Result<Section, SectionDecodeError>>)
        ensures
            r@.len() == self@.section_ids.len(),
            forall|i: int| 0 <= i < r@.len() ==> #[trigger] result_view(r@[i]) == spec_decode_in(self@, self@.section_ids[i]),
    {
        let mut out: Vec<Result<Section, SectionDecodeError>> = Vec::new();
        let mut i: usize = 0;
        while i < self.section_ids.len()
            invariant
                i <= self@.section_ids.len(),
                self@.section_ids == self.section_ids@,
                out@.len() == i,
                forall|j: int| 0 <= j < i ==> #[trigger] result_view(out@[j]) == spec_decode_in(self@, self@.section_ids[j]),
            decreases self@.section_ids.len() - i,
        {
            let r = self.decode_section(self.section_ids[i]);
            out.push(r);
            i = i + 1;
        }
        out
    }
}

impl std::str::FromStr for GPPString {
    type Err = GPPDecodeError;

    fn from_str(s: &str) -> (r: Result<GPPString, GPPDecodeError>)
        ensures
            match spec_extract_gpp_sections(s@) {
                Ok((ids, texts)) => r matches Ok(g) && g@.section_ids == ids && g@.sections == spec_section_map(ids, texts, ids.len()),
                Err(e) => r matches Err(x) && x == e,
            },
    {
        GPPString::parse_str(s)
    }
}

/// The section IDs of a GPP string, yielded in order; created with the method
/// [`section_ids`](GPPString::section_ids).
pub struct SectionIds<'a> {
    ids: &'a Vec<SectionId>,
    idx: usize,
}

impl<'a> SectionIds<'a> {
    /// The position stays within the IDs.
    #[verifier::type_invariant]
    closed spec fn inv(self) -> bool {
        self.idx <= self.ids@.len()
    }

    /// The IDs not yet yielded.
    pub closed spec fn remaining(&self) -> Seq<SectionId> {
        self.ids@.subrange(self.idx as int, self.ids@.len() as int)
    }

    /// Yields the next ID, if any is left.
    pub fn next(&mut self) -> (r: Option<&'a SectionId>)
        ensures
            old(self).remaining().len() > 0 ==> r == Some(&old(self).remaining()[0]) && final(self).remaining() == old(
                self,
            ).remaining().drop_first(),
            old(self).remaining().len() == 0 ==> r is None && final(self).remaining() == old(self).remaining(),
    {
        proof {
            use_type_invariant(&*self);
        }
        if self.idx < self.ids.len() {
            let id = &self.ids[self.idx];
            self.idx = self.idx + 1;
            proof {
                assert(self.remaining() =~= old(self).remaining().drop_first());
            }
            Some(id)
        } else {
            None
        }
    }

    /// The number of IDs left.
    pub fn len(&self) -> (r: usize)
        ensures
            r == self.remaining().len(),
    {
        proof {
            use_type_invariant(self);
        }
        self.ids.len() - self.idx
    }
}

/// The raw sections of a GPP string, yielded in the order of their IDs;
/// created with the method [`sections`](GPPString::sections).
pub struct Sections<'a> {
    gpp_str: &'a GPPString,
    idx: usize,
}

impl<'a> Sections<'a> {
    /// The position stays within the sections.
    #[verifier::type_invariant]
    closed spec fn inv(self) -> bool {
        self.idx <= self.gpp_str.section_ids@.len()
    }

    /// The texts of all the sections, in the order of their IDs.
    pub closed spec fn texts(&self) -> Seq<Seq<char>> {
        self.gpp_str@.section_ids.map_values(|id: SectionId| self.gpp_str@.sections[id.spec_to_u8()])
    }

    /// The number of texts already yielded.
    pub closed spec fn index(&self) -> nat {
        self.idx as nat
    }

    /// Yields the next section text, if any is left.
    pub fn next(&mut self) -> (r: Option<&'a str>)
        ensures
            final(self).texts() == old(self).texts(),
            old(self).index() < old(self).texts().len() ==> (r matches Some(t) && t@ == old(self).texts()[old(self).index() as int]
                && final(self).index() == old(self).index() + 1),
            old(self).index() >= old(self).texts().len() ==> r is None && final(self).index() == old(self).index(),
    {
        proof {
            use_type_invariant(self.gpp_str);
        }
        if self.idx < self.gpp_str.section_ids.len() {
            let section_id = self.gpp_str.section_ids[self.idx];
            self.idx = self.idx + 1;
            self.gpp_str.section(section_id)
        } else {
            None
        }
    }

    /// The number of sections not yet yielded.
    pub fn len(&self) -> (r: usize)
        ensures
            r == self.texts().len() - self.index(),
    {
        proof {
            use_type_invariant(self);
        }
        self.gpp_str.section_ids.len() - self.idx
    }
}

} // verus!
