//! URL-safe base64 without padding, decoded six bits per character.
use vstd::prelude::*;
use crate::encoding::bits::{byte_bit, bytes_to_bits};
use crate::encoding::decode_base64_bytes;

verus! {

/// The error type that describes failures to decode base64 encoded strings.
#[derive(Debug, Clone, Copy, PartialEq, Eq)]
pub enum DecodeError {
    /// An invalid byte was found in the input. The offset and offending byte are provided.
    InvalidByte(usize, u8),
}

/// The six-bit value of a character of the URL-safe base64 alphabet.
pub open spec fn spec_base64_value(b: u8) -> Option<u8> {
    if 65 <= b <= 90 {
        Some((b - 65) as u8)
    } else if 97 <= b <= 122 {
        Some((b - 97 + 26) as u8)
    } else if 48 <= b <= 57 {
        Some((b - 48 + 52) as u8)
    } else if b == 45 {
        Some(62u8)
    } else if b == 95 {
        Some(63u8)
    } else {
        None
    }
}

/// Bit `j` (0 is the most significant) of a six-bit value.
pub open spec fn char_bit(v: u8, j: int) -> bool {
    (v >> ((5 - j) as u8)) & 1u8 == 1u8
}

/// The six bits of a value, most significant first.
pub open spec fn char_bits(v: u8) -> Seq<bool> {
    Seq::new(6, |j: int| char_bit(v, j))
}

/// The index of the first byte at or after `i` that is not in the alphabet
/// (the length of the input when there is none).
pub open spec fn first_invalid(inp: Seq<u8>, i: int) -> int
    decreases inp.len() - i,
{
    if i >= inp.len() {
        inp.len() as int
    } else if spec_base64_value(inp[i]) is None {
        i
    } else {
        first_invalid(inp, i + 1)
    }
}

/// The bits of the characters `inp[i..j]`, six per character.
pub open spec fn chars_bits(inp: Seq<u8>, i: int, j: int) -> Seq<bool>
    decreases j - i,
{
    if i >= j {
        Seq::empty()
    } else {
        char_bits(spec_base64_value(inp[i]).unwrap_or(0)) + chars_bits(inp, i + 1, j)
    }
}

/// The bits that decoding `inp` from index `i` yields before it stops.
pub open spec fn decoded_bits(inp: Seq<u8>, i: int) -> Seq<bool> {
    chars_bits(inp, i, first_invalid(inp, i))
}

/// Why decoding `inp` from index `i` stops: at an invalid byte, or at the end.
pub open spec fn decode_stop(inp: Seq<u8>, i: int) -> Option<DecodeError> {
    let e = first_invalid(inp, i);
    if e < inp.len() {
        Some(DecodeError::InvalidByte(e as usize, inp[e]))
    } else {
        None
    }
}

/// Maps a character of the URL-safe base64 alphabet to its six-bit value.
pub fn base64_value(b: u8) -> (r: Option<u8>)
    ensures
        r == spec_base64_value(b),
{
    // 'A'..='Z', 'a'..='z', '0'..='9', '-' and '_'
    if 65u8 <= b && b <= 90u8 {
        Some(b - 65u8)
    } else if 97u8 <= b && b <= 122u8 {
        Some(b - 97u8 + 26)
    } else if 48u8 <= b && b <= 57u8 {
        Some(b - 48u8 + 52)
    } else if b == 45u8 {
        Some(62)
    } else if b == 95u8 {
        Some(63)
    } else {
        None
    }
}

/// Setting one bit of a byte by `|` changes that bit only.
proof fn lemma_or_bit(out: u8, bit: u8, s: u8, t: u8)
    by (bit_vector)
    requires
        bit <= 1,
        s < 8,
        t < 8,
    ensures
        (((out | (bit << s)) >> t) & 1u8 == 1u8) == ((((out >> t) & 1u8) == 1u8) || (t == s && bit == 1)),
{
}

/// The bit of a value selected by a shift and a mask.
proof fn lemma_shift_bit(v: u8, i: u8)
    by (bit_vector)
    requires
        i < 8,
    ensures
        (v >> i) & 1u8 <= 1,
{
}

/// Copies bits of the six-bit value `input`, starting at bit `input_offset`,
/// into `output` starting at bit `output_offset`, until either runs out.
/// Returns the number of bits copied.
pub fn copy_bits(input: u8, input_offset: usize, output: &mut u8, output_offset: usize) -> (copied: usize)
    requires
        input_offset <= 6,
        output_offset < 8,
    ensures
        copied == if 6 - input_offset <= 8 - output_offset { 6 - input_offset } else { 8 - output_offset },
        forall|k: int|
            0 <= k < 8 ==> byte_bit(*final(output), k) == (byte_bit(*old(output), k) || (output_offset
                <= k < output_offset + copied && char_bit(input, input_offset + k - output_offset))),
{
    let input_size = 6 - input_offset;
    let mut copied_bits: usize = 0;
    let mut current_output_offset: usize = 7 - output_offset;
    let mut i: usize = input_size;
    let mut full = false;

    while i > 0 && !full
        invariant
            input_size == 6 - input_offset,
            output_offset < 8,
            input_offset <= 6,
            copied_bits + i == input_size,
            full ==> copied_bits == 8 - output_offset,
            !full ==> current_output_offset + output_offset + copied_bits == 7,
            forall|k: int|
                0 <= k < 8 ==> byte_bit(*output, k) == (byte_bit(*old(output), k) || (output_offset
                    <= k < output_offset + copied_bits && char_bit(input, input_offset + k - output_offset))),
        decreases i,
    {
        i = i - 1;
        let ish: u8 = i as u8;
        let osh: u8 = current_output_offset as u8;
        let bit = (input >> ish) & 1;
        proof {
            lemma_shift_bit(input, ish);
        }
        let shifted = bit << osh;
        let ghost before = *output;
        *output = *output | shifted;
        proof {
            assert forall|k: int| 0 <= k < 8 implies byte_bit(*output, k) == (byte_bit(*old(output), k) || (output_offset
                <= k < output_offset + copied_bits + 1 && char_bit(input, input_offset + k - output_offset))) by {
                lemma_or_bit(before, bit, osh, (7 - k) as u8);
            }
        }
        copied_bits = copied_bits + 1;

        if current_output_offset == 0 {
            full = true;
        } else {
            current_output_offset = current_output_offset - 1;
        }
    }

    copied_bits
}

/// Decodes base64 text read from an in-memory input, byte by byte.
///
/// Each output byte is made of the next eight decoded bits; bits of a
/// character that do not fit in the current byte are kept for the next one.
/// At the end of the input a partly filled byte is completed with zero bits.
pub struct Base64Reader {
    inner_reader: Vec<u8>,
    inner_reader_pos: usize,
    partial_byte: u8,
    partial_byte_index: usize,
}

impl Base64Reader {
    /// The text being decoded.
    pub closed spec fn spec_input(&self) -> Seq<u8> {
        self.inner_reader@
    }

    /// The index of the next byte of the input to be decoded.
    pub closed spec fn spec_pos(&self) -> int {
        self.inner_reader_pos as int
    }

    /// The decoded bits of the last character that are not yet in the output.
    pub closed spec fn spec_partial(&self) -> Seq<bool> {
        if self.partial_byte_index == 0 {
            Seq::empty()
        } else {
            char_bits(self.partial_byte).subrange(self.partial_byte_index as int, 6)
        }
    }

    /// The bits the next reads yield, in order, before decoding stops.
    pub open spec fn pending(&self) -> Seq<bool> {
        self.spec_partial() + decoded_bits(self.spec_input(), self.spec_pos())
    }

    /// Why decoding stops after the pending bits.
    pub open spec fn stop(&self) -> Option<DecodeError> {
        decode_stop(self.spec_input(), self.spec_pos())
    }

    /// The reader's internal consistency.
    pub closed spec fn wf(&self) -> bool {
        &&& self.inner_reader_pos <= self.inner_reader@.len()
        &&& self.partial_byte_index < 6
    }

    /// A reader that decodes `input` from its start.
    pub fn new(input: &[u8]) -> (r: Base64Reader)
        ensures
            r.wf(),
            r.spec_input() == input@,
            r.spec_pos() == 0,
            r.spec_partial() == Seq::<bool>::empty(),
    {
        let mut v: Vec<u8> = Vec::new();
        let mut i: usize = 0;
        while i < input.len()
            invariant
                i <= input@.len(),
                v@ == input@.subrange(0, i as int),
            decreases input@.len() - i,
        {
            v.push(input[i]);
            i = i + 1;
            assert(v@ =~= input@.subrange(0, i as int));
        }
        assert(v@ =~= input@);
        Base64Reader { inner_reader: v, inner_reader_pos: 0, partial_byte: 0, partial_byte_index: 0 }
    }

    /// Fills `buf` with decoded bytes, each bit `|`-ed into what `buf` holds.
    ///
    /// Returns the number of bytes written: the length of `buf` when enough bits
    /// are pending; otherwise every pending bit is written, the last byte
    /// completed with zero bits, unless decoding stopped at an invalid byte, in
    /// which case that byte is reported and the reader resumes after it.
    pub fn read(&mut self, buf: &mut [u8]) -> (r: Result<usize, DecodeError>)
        requires
            old(self).wf(),
        ensures
            final(self).wf(),
            final(self).spec_input() == old(self).spec_input(),
            final(buf)@.len() == old(buf)@.len(),
            forall|k: int|
                0 <= k < old(buf)@.len() ==> or_chunk(#[trigger] old(buf)@[k], final(buf)@[k], old(self).pending(), 8 * k),
            8 * old(buf)@.len() <= old(self).pending().len() ==> {
                &&& r == Ok::<usize, DecodeError>(old(buf)@.len() as usize)
                &&& final(self).pending() == old(self).pending().skip(8 * old(buf)@.len() as int)
                &&& final(self).stop() == old(self).stop()
            },
            8 * old(buf)@.len() > old(self).pending().len() && old(self).stop() is None ==> {
                &&& r == Ok::<usize, DecodeError>(((old(self).pending().len() + 7) / 8) as usize)
                &&& final(self).pending() == Seq::<bool>::empty()
                &&& final(self).stop() is None
            },
            8 * old(buf)@.len() > old(self).pending().len() && old(self).stop() is Some ==> {
                &&& r == Err::<usize, DecodeError>(old(self).stop().unwrap())
                &&& final(self).spec_pos() == first_invalid(old(self).spec_input(), old(self).spec_pos()) + 1
                &&& final(self).spec_partial() == Seq::<bool>::empty()
            },
    {
        let ghost p_all = self.pending();
        let ghost st = self.stop();
        let ghost inp = self.spec_input();
        let ghost fi0 = first_invalid(inp, self.spec_pos());
        let ghost ob = buf@;
        let mut bytes_written: usize = 0;
        let mut k: usize = 0;

        while k < buf.len()
            invariant
                self.wf(),
                self.spec_input() == inp,
                p_all == old(self).pending(),
                st == old(self).stop(),
                inp == old(self).spec_input(),
                fi0 == first_invalid(inp, old(self).spec_pos()),
                ob == old(buf)@,
                buf@.len() == ob.len(),
                8 * k <= p_all.len(),
                self.pending() == p_all.skip(8 * k),
                self.stop() == st,
                first_invalid(inp, self.spec_pos()) == fi0,
                bytes_written == k,
                k <= buf@.len(),
                forall|j: int| 0 <= j < k ==> or_chunk(#[trigger] ob[j], buf@[j], p_all, 8 * j),
                forall|j: int| k <= j < buf@.len() ==> #[trigger] buf@[j] == ob[j],
            decreases buf@.len() - k,
        {
            let mut output_byte_index: usize = 0;
            let mut b: u8 = buf[k];

            // 1. write any remaining bits of the last character
            if self.partial_byte_index != 0 {
                let ghost before = b;
                let ghost rest = decoded_bits(inp, self.spec_pos());
                assert(self.pending() == self.spec_partial() + rest);
                assert(self.spec_partial().len() == 6 - self.partial_byte_index);
                let copied = copy_bits(self.partial_byte, self.partial_byte_index, &mut b, 0);
                proof {
                    assert(copied == 6 - self.partial_byte_index);
                    assert(self.pending().len() >= copied);
                    assert(p_all.skip(8 * k).len() == p_all.len() - 8 * k);
                    assert forall|j: int| 0 <= j < copied implies p_all[8 * k + j] == #[trigger] char_bit(self.partial_byte, self.partial_byte_index + j) by {
                        assert(self.pending()[j] == self.spec_partial()[j]);
                        assert(p_all.skip(8 * k)[j] == p_all[8 * k + j]);
                    }
                    assert((self.spec_partial() + rest).skip(copied as int) =~= rest);
                    assert(p_all.skip(8 * k).skip(copied as int) =~= p_all.skip(8 * k + copied));
                }
                self.partial_byte_index = self.partial_byte_index + copied;
                if self.partial_byte_index >= 6 {
                    self.partial_byte_index = 0;
                }
                output_byte_index = output_byte_index + copied;
            }

            while output_byte_index < 8
                invariant
                    self.wf(),
                    self.spec_input() == inp,
                    p_all == old(self).pending(),
                    st == old(self).stop(),
                    inp == old(self).spec_input(),
                    fi0 == first_invalid(inp, old(self).spec_pos()),
                    ob == old(buf)@,
                    buf@.len() == ob.len(),
                    k < buf@.len(),
                    bytes_written == k + if output_byte_index == 8 { 1usize } else { 0usize },
                    output_byte_index <= 8,
                    output_byte_index < 8 ==> self.partial_byte_index == 0,
                    8 * k + output_byte_index <= p_all.len(),
                    self.pending() == p_all.skip(8 * k + output_byte_index),
                    self.stop() == st,
                    first_invalid(inp, self.spec_pos()) == fi0,
                    forall|j: int| 0 <= j < k ==> or_chunk(#[trigger] ob[j], buf@[j], p_all, 8 * j),
                    forall|j: int| k <= j < buf@.len() ==> #[trigger] buf@[j] == ob[j],
                    forall|j: int|
                        0 <= j < 8 ==> byte_bit(b, j) == (byte_bit(ob[k as int], j) || (j < output_byte_index
                            && p_all[8 * k + j])),
                decreases 8 - output_byte_index,
            {
                // 4. read the next character of the input
                if self.inner_reader_pos >= self.inner_reader.len() {
                    // end of input: pad the byte being written if it holds bits
                    proof {
                        assert(p_all.skip(8 * k + output_byte_index).len() == 0);
                    }
                    buf[k] = b;
                    if output_byte_index > 0 {
                        bytes_written = bytes_written + 1;
                    }
                    proof {
                        assert forall|j: int| 0 <= j < buf@.len() implies or_chunk(#[trigger] ob[j], buf@[j], p_all, 8 * j) by {
                            if j > k {
                                assert(8 * j >= p_all.len());
                            }
                        }
                    }
                    return Ok(bytes_written);
                }
                let ghost pend0 = self.pending();
                let ghost pos0 = self.spec_pos();
                proof {
                    lemma_first_invalid_bounds(inp, pos0 + 1);
                    assert(self.spec_partial() =~= Seq::<bool>::empty());
                    assert(pend0 =~= decoded_bits(inp, pos0));
                }
                let val = self.inner_reader[self.inner_reader_pos];
                self.inner_reader_pos = self.inner_reader_pos + 1;

                // 5. decode into a six-bit value
                let decoded = base64_value(val);
                match decoded {
                    None => {
                        proof {
                            assert(first_invalid(inp, pos0) == pos0);
                            assert(pend0.len() == 0);
                        }
                        buf[k] = b;
                        proof {
                            assert forall|j: int| 0 <= j < buf@.len() implies or_chunk(#[trigger] ob[j], buf@[j], p_all, 8 * j) by {
                                if j > k {
                                    assert(8 * j >= p_all.len());
                                }
                            }
                        }
                        return Err(DecodeError::InvalidByte(self.inner_reader_pos - 1, val));
                    },
                    Some(v) => {
                        self.partial_byte = v;
                    },
                }

                // 6. copy bits to output
                let ghost before = b;
                let ghost pos1 = self.spec_pos();
                let ghost rest = decoded_bits(inp, pos1);
                proof {
                    assert(first_invalid(inp, pos0) == first_invalid(inp, pos1));
                    assert(decoded_bits(inp, pos0) == char_bits(self.partial_byte) + rest);
                    assert(p_all.skip(8 * k + output_byte_index) =~= char_bits(self.partial_byte) + rest);
                }
                let copied = copy_bits(self.partial_byte, 0, &mut b, output_byte_index);
                proof {
                    assert forall|j: int| 0 <= j < copied implies p_all[8 * k + output_byte_index + j] == #[trigger] char_bit(self.partial_byte, j) by {
                        assert((char_bits(self.partial_byte) + rest)[j] == char_bits(self.partial_byte)[j]);
                        assert(p_all.skip(8 * k + output_byte_index)[j] == p_all[8 * k + output_byte_index + j]);
                    }
                    assert((char_bits(self.partial_byte) + rest).skip(copied as int) =~= char_bits(self.partial_byte).subrange(copied as int, 6) + rest);
                    assert(p_all.skip(8 * k + output_byte_index).skip(copied as int) =~= p_all.skip(8 * k + output_byte_index + copied));
                    if copied == 6 {
                        assert(char_bits(self.partial_byte).subrange(6, 6) =~= Seq::<bool>::empty());
                    }
                }
                self.partial_byte_index = self.partial_byte_index + copied;
                if self.partial_byte_index >= 6 {
                    self.partial_byte_index = 0;
                }
                output_byte_index = output_byte_index + copied;
                if output_byte_index >= 8 {
                    bytes_written = bytes_written + 1;
                }
            }

            buf[k] = b;
            k = k + 1;
        }

        Ok(bytes_written)
    }
}

/// Decodes a URL-safe base64 text without padding: six bits per character,
/// the last byte completed with zero bits.
///
/// Fails with the first character that is not in the alphabet.
pub fn decode(s: &str) -> (r: Result<Vec<u8>, DecodeError>)
    ensures
        match decode_stop(vstd::utf8::encode_utf8(s@), 0) {
            None => r matches Ok(v) && bytes_to_bits(v@) == pad_bits(decoded_bits(vstd::utf8::encode_utf8(s@), 0)),
            Some(e) => r == Err::<Vec<u8>, DecodeError>(e),
        },
{
    let (bytes, stop) = decode_base64_bytes(s.as_bytes());
    match stop {
        None => Ok(bytes),
        Some(e) => Err(e),
    }
}

/// Decoding of URL-safe base64 text without padding.
pub trait DecodeExt {
    /// What the text decodes to: the decoded bytes, or the first invalid character.
    spec fn spec_decoded(&self) -> Result<Seq<bool>, DecodeError>;

    /// Decodes the text.
    fn decode_base64_url(&self) -> (r: Result<Vec<u8>, DecodeError>)
        ensures
            match self.spec_decoded() {
                Ok(bits) => r matches Ok(v) && bytes_to_bits(v@) == bits,
                Err(e) => r == Err::<Vec<u8>, DecodeError>(e),
            },
    ;
}

impl<'a> DecodeExt for &'a str {
    /// The decoded bits padded to whole bytes, or the first invalid character.
    open spec fn spec_decoded(&self) -> Result<Seq<bool>, DecodeError> {
        let inp = vstd::utf8::encode_utf8((*self)@);
        match decode_stop(inp, 0) {
            None => Ok(pad_bits(decoded_bits(inp, 0))),
            Some(e) => Err(e),
        }
    }

    fn decode_base64_url(&self) -> (r: Result<Vec<u8>, DecodeError>) {
        decode(*self)
    }
}

/// The decoded bits completed with zero bits up to a whole number of bytes.
pub open spec fn pad_bits(d: Seq<bool>) -> Seq<bool> {
    d + Seq::new(((8 - d.len() % 8) % 8) as nat, |i: int| false)
}

/// The bits a reader of the base64 text `inp` can read: all decoded bits padded
/// to whole bytes, or, when decoding stops at an invalid byte, the whole bytes
/// decoded before it.
pub open spec fn base64_bits(inp: Seq<u8>) -> Seq<bool> {
    let d = decoded_bits(inp, 0);
    match decode_stop(inp, 0) {
        None => pad_bits(d),
        Some(_) => d.take(8 * (d.len() as int / 8)),
    }
}

/// Six bits per character.
pub proof fn lemma_chars_bits_len(inp: Seq<u8>, i: int, j: int)
    requires
        i <= j,
    ensures
        chars_bits(inp, i, j).len() == 6 * (j - i),
    decreases j - i,
{
    if i < j {
        lemma_chars_bits_len(inp, i + 1, j);
    }
}

/// Decoding from `i` stops somewhere between `i` and the end of the input.
pub proof fn lemma_first_invalid_bounds(inp: Seq<u8>, i: int)
    requires
        0 <= i <= inp.len(),
    ensures
        i <= first_invalid(inp, i) <= inp.len(),
    decreases inp.len() - i,
{
    if i < inp.len() && spec_base64_value(inp[i]) is Some {
        lemma_first_invalid_bounds(inp, i + 1);
    }
}

/// `new` is `old` with the bits `bits[start..start + 8]` `|`-ed in, bits past
/// the end of `bits` counting as zero.
pub open spec fn or_chunk(old: u8, new: u8, bits: Seq<bool>, start: int) -> bool {
    forall|j: int|
        0 <= j < 8 ==> byte_bit(new, j) == (byte_bit(old, j) || (start + j < bits.len() && bits[start + j]))
}

/// Reading in several calls delivers what one read delivers: when a read
/// into the buffer `first` takes `8 * first.len()` of the pending bits `p`,
/// and a next read into the buffer `rest` takes from the bits left after
/// them, the bytes of both buffers stand as one read of `p` into `first + rest`
/// would leave them; and the byte counts of a read that fills `first` and of
/// one that then writes every remaining bit add up to that of a single read of
/// all of `p`.
pub proof fn lemma_reads_concatenate(olds: Seq<u8>, p: Seq<bool>, first: Seq<u8>, rest: Seq<u8>)
    requires
        8 * first.len() <= p.len(),
        olds.len() == first.len() + rest.len(),
        forall|k: int| 0 <= k < first.len() ==> or_chunk(#[trigger] olds[k], first[k], p, 8 * k),
        forall|k: int|
            0 <= k < rest.len() ==> or_chunk(#[trigger] olds[first.len() as int + k], rest[k], p.skip(8 * first.len() as int), 8 * k),
    ensures
        forall|k: int| 0 <= k < olds.len() ==> or_chunk(#[trigger] olds[k], (first + rest)[k], p, 8 * k),
        first.len() + (p.len() - 8 * first.len() + 7) / 8 == (p.len() + 7) / 8,
{
    let n = first.len() as int;
    let q = p.skip(8 * n);
    assert forall|k: int| 0 <= k < olds.len() implies or_chunk(#[trigger] olds[k], (first + rest)[k], p, 8 * k) by {
        if k >= n {
            let k2 = k - n;
            assert(or_chunk(olds[n + k2], rest[k2], q, 8 * k2));
            assert((first + rest)[k] == rest[k2]);
            assert forall|j: int| 0 <= j < 8 implies #[trigger] byte_bit((first + rest)[k], j) == (byte_bit(olds[k], j) || (8 * k
                + j < p.len() && p[8 * k + j])) by {
                assert(byte_bit(rest[k2], j) == (byte_bit(olds[n + k2], j) || (8 * k2 + j < q.len() && q[8 * k2 + j])));
                if 8 * k2 + j < q.len() {
                    assert(q[8 * k2 + j] == p[8 * n + 8 * k2 + j]);
                }
            }
        }
    }
    assert((p.len() - 8 * n + 7) / 8 == (p.len() + 7) / 8 - n) by (nonlinear_arith)
        requires
            8 * n <= p.len(),
            0 <= n,
    ;
}

} // verus!
