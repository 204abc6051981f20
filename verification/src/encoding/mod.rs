//! The bit-level reader that every base64 section is decoded with.
use vstd::prelude::*;
use crate::encoding::bits::{byte_bit, bytes_to_bits, bits_value, lemma_subrange_push, lemma_bits_value_push};
use vstd::arithmetic::power2::pow2;
use crate::encoding::fibonacci::{Unsigned, fib, fibonacci_iterator, lemma_fib_increasing};
use crate::encoding::base64::{DecodeError, Base64Reader, decoded_bits, decode_stop, pad_bits, base64_bits, first_invalid, lemma_first_invalid_bounds, lemma_chars_bits_len};

pub mod base64;
pub mod bits;
pub mod fibonacci;
pub mod ranges;

verus! {

/// Why a read from a [`DataReader`] failed.
#[derive(Debug, Clone, Copy, PartialEq, Eq)]
pub enum ReadError {
    /// The data ended before the value was complete.
    UnexpectedEof,
    /// More bits were asked for than the result type holds.
    InvalidInput,
    /// The underlying base64 text holds an invalid character.
    InvalidData(DecodeError),
}

/// A reader of bits, most significant bit of each byte first.
///
/// Once the available bytes are exhausted, every read fails with the reader's
/// end condition: an unexpected end of data, or the invalid character that
/// stopped the decoding of the source text.
pub struct DataReader {
    bytes: Vec<u8>,
    byte_pos: usize,
    bit_pos: u8,
    end: ReadError,
}

/// A value read from position `pos` together with the position after it.
pub type Step<T> = Result<(T, int), ReadError>;

/// Reading `n` bits at `pos`: their big-endian value, or the end condition when
/// fewer than `n` bits remain.
pub open spec fn spec_read_bits(bits: Seq<bool>, end: ReadError, pos: int, n: int) -> Step<nat> {
    if pos + n <= bits.len() {
        Ok((bits_value(bits.subrange(pos, pos + n)), pos + n))
    } else {
        Err(end)
    }
}

/// Reading one bit as a boolean.
pub open spec fn spec_read_bool(bits: Seq<bool>, end: ReadError, pos: int) -> Step<bool> {
    if pos + 1 <= bits.len() {
        Ok((bits[pos], pos + 1))
    } else {
        Err(end)
    }
}

/// Reading a fixed-width integer: at most 64 bits can be read at once.
pub open spec fn spec_read_fixed_integer(bits: Seq<bool>, end: ReadError, pos: int, n: int) -> Step<
    u64,
> {
    if n > 64 {
        Err(ReadError::InvalidInput)
    } else {
        match spec_read_bits(bits, end, pos, n) {
            Ok((v, p)) => Ok((v as u64, p)),
            Err(e) => Err(e),
        }
    }
}

/// The Fibonacci number of index `k` when it fits below `m`, zero otherwise.
pub open spec fn fib_or_zero(k: nat, m: int) -> int {
    if fib(k) < m {
        fib(k) as int
    } else {
        0
    }
}

/// Fibonacci decoding from `pos`, with `k` bits already read, `last` the
/// previous bit and `total` the sum so far: each set bit adds the Fibonacci
/// number of its index (zero once they no longer fit), sums wrap modulo `m`,
/// and two consecutive set bits end the value.
pub open spec fn spec_read_fib_from(
    bits: Seq<bool>,
    end: ReadError,
    pos: int,
    k: nat,
    last: bool,
    total: int,
    m: int,
) -> Step<int>
    decreases bits.len() - pos,
{
    if pos < 0 || pos >= bits.len() {
        Err(end)
    } else if last && bits[pos] {
        Ok((total, pos + 1))
    } else {
        spec_read_fib_from(
            bits,
            end,
            pos + 1,
            k + 1,
            bits[pos],
            if bits[pos] { (total + fib_or_zero(k, m)) % m } else { total },
            m,
        )
    }
}

/// Reading a Fibonacci-coded integer of a type with modulus `m`.
pub open spec fn spec_read_fibonacci_integer(bits: Seq<bool>, end: ReadError, pos: int, m: int) -> Step<int> {
    spec_read_fib_from(bits, end, pos, 0, false, 0, m)
}

/// A read of a value of type `T` related to the reading of its mathematical value.
pub open spec fn unsigned_step<T: Unsigned>(old: DataReader, new: DataReader, r: Result<T, ReadError>, s: Step<int>) -> bool {
    &&& new.wf()
    &&& new.spec_bits() == old.spec_bits()
    &&& new.spec_end() == old.spec_end()
    &&& match s {
        Ok((v, p)) => r matches Ok(x) && x.spec_value() == v && new.spec_pos() == p,
        Err(e) => r == Err::<T, ReadError>(e),
    }
}

impl DataReader {
    /// All the bits this reader was created with.
    pub closed spec fn spec_bits(&self) -> Seq<bool> {
        bytes_to_bits(self.bytes@)
    }

    /// The number of bits already consumed.
    pub closed spec fn spec_pos(&self) -> int {
        8 * self.byte_pos + self.bit_pos
    }

    /// The error every read past the available bits fails with.
    pub closed spec fn spec_end(&self) -> ReadError {
        self.end
    }

    /// The reader's internal consistency.
    pub closed spec fn wf(&self) -> bool {
        &&& self.byte_pos <= self.bytes.len()
        &&& self.bit_pos < 8
        &&& self.byte_pos == self.bytes.len() ==> self.bit_pos == 0
    }

    /// A consistent reader stands within its bits.
    pub proof fn lemma_pos_bounds(&self)
        requires
            self.wf(),
        ensures
            0 <= self.spec_pos() <= self.spec_bits().len(),
    {
    }

    /// The current position, as a byte index and a bit index within that byte.
    pub fn position(&self) -> (r: (usize, u8))
        requires
            self.wf(),
        ensures
            8 * r.0 + r.1 == self.spec_pos(),
            r.1 < 8,
    {
        (self.byte_pos, self.bit_pos)
    }

    /// Moves to a position within the bits, such as one read earlier.
    pub fn rewind(&mut self, to: (usize, u8))
        requires
            old(self).wf(),
            to.1 < 8,
            8 * to.0 + to.1 <= old(self).spec_bits().len(),
        ensures
            final(self).wf(),
            final(self).spec_bits() == old(self).spec_bits(),
            final(self).spec_end() == old(self).spec_end(),
            final(self).spec_pos() == 8 * to.0 + to.1,
    {
        self.byte_pos = to.0;
        self.bit_pos = to.1;
    }

    /// A reader over `bytes`; reading past them fails with an unexpected end of data.
    pub fn new(bytes: &[u8]) -> (r: DataReader)
        ensures
            r.wf(),
            r.spec_bits() == bytes_to_bits(bytes@),
            r.spec_pos() == 0,
            r.spec_end() == ReadError::UnexpectedEof,
    {
        let mut v: Vec<u8> = Vec::new();
        let mut i: usize = 0;
        while i < bytes.len()
            invariant
                i <= bytes@.len(),
                v@ == bytes@.subrange(0, i as int),
            decreases bytes@.len() - i,
        {
            v.push(bytes[i]);
            i = i + 1;
            assert(v@ =~= bytes@.subrange(0, i as int));
        }
        assert(v@ =~= bytes@);
        DataReader { bytes: v, byte_pos: 0, bit_pos: 0, end: ReadError::UnexpectedEof }
    }

    /// A reader over `bytes` whose reads past the end fail with `end`.
    pub fn from_parts(bytes: Vec<u8>, end: ReadError) -> (r: DataReader)
        ensures
            r.wf(),
            r.spec_bits() == bytes_to_bits(bytes@),
            r.spec_pos() == 0,
            r.spec_end() == end,
    {
        DataReader { bytes, byte_pos: 0, bit_pos: 0, end }
    }

    /// Reads one bit.
    pub fn read_bool(&mut self) -> (r: Result<bool, ReadError>)
        requires
            old(self).wf(),
        ensures
            reader_step(*old(self), *final(self), r, spec_read_bool(old(self).spec_bits(), old(self).spec_end(), old(self).spec_pos())),
    {
        if self.byte_pos >= self.bytes.len() {
            return Err(self.end);
        }
        let byte = self.bytes[self.byte_pos];
        let sh: u8 = 7 - self.bit_pos;
        let bit = (byte >> sh) & 1u8 == 1u8;
        if self.bit_pos == 7 {
            self.byte_pos = self.byte_pos + 1;
            self.bit_pos = 0;
        } else {
            self.bit_pos = self.bit_pos + 1;
        }
        Ok(bit)
    }

    /// Reads a Fibonacci-coded integer: a sum of distinct Fibonacci numbers
    /// (1, 2, 3, 5, ...), one bit per number, ended by two consecutive set bits.
    /// Numbers too large for `T` count as zero and the sum wraps around.
    pub fn read_fibonacci_integer<T: Unsigned>(&mut self) -> (r: Result<T, ReadError>)
        requires
            old(self).wf(),
        ensures
            unsigned_step(*old(self), *final(self), r, spec_read_fibonacci_integer(old(self).spec_bits(), old(self).spec_end(), old(self).spec_pos(), T::spec_modulus())),
    {
        let ghost all = self.spec_bits();
        let ghost m = T::spec_modulus();
        let ghost target = spec_read_fibonacci_integer(all, self.spec_end(), self.spec_pos(), m);
        let mut fibs = fibonacci_iterator::<T>();
        let mut total = T::zero();
        let mut last_bit = false;
        let ghost mut k: nat = 0;
        proof {
            T::lemma_range(total);
        }

        loop
            invariant
                self.wf(),
                self.spec_bits() == all,
                all == old(self).spec_bits(),
                self.spec_end() == old(self).spec_end(),
                m == T::spec_modulus(),
                target == spec_read_fibonacci_integer(all, old(self).spec_end(), old(self).spec_pos(), m),
                fibs.wf(),
                k == fibs.yielded() || (fibs.yielded() <= k && fib(fibs.yielded()) >= m),
                0 <= total.spec_value() < m,
                target == spec_read_fib_from(all, self.spec_end(), self.spec_pos(), k, last_bit, total.spec_value(), m),
            decreases all.len() - self.spec_pos(),
        {
            let bit = match self.read_bool() {
                Ok(b) => b,
                Err(e) => {
                    return Err(e);
                },
            };

            // two consecutive 1's signal the end of the value
            if last_bit && bit {
                return Ok(total);
            }

            let ghost y = fibs.yielded();
            let fib_value = match fibs.next() {
                Some(v) => v,
                None => T::zero(),
            };
            proof {
                if fibs.yielded() == y {
                    if y < k {
                        lemma_fib_increasing(y, k);
                    }
                }
                T::lemma_range(fib_value);
                T::lemma_range(total);
            }
            if bit {
                total = total.add_wrapping(fib_value);
            }
            last_bit = bit;
            proof {
                k = k + 1;
                T::lemma_range(total);
            }
        }
    }

    /// Reads an unsigned integer of `bits` bits, at most 64.
    pub fn read_fixed_integer(&mut self, bits: u32) -> (r: Result<u64, ReadError>)
        requires
            old(self).wf(),
        ensures
            reader_step(*old(self), *final(self), r, spec_read_fixed_integer(old(self).spec_bits(), old(self).spec_end(), old(self).spec_pos(), bits as int)),
            r matches Ok(v) ==> v < pow2(bits as nat) && v as nat == bits_value(old(self).spec_bits().subrange(old(self).spec_pos(), old(self).spec_pos() + bits)),
    {
        if bits > 64 {
            return Err(ReadError::InvalidInput);
        }
        let ghost all = self.spec_bits();
        let ghost p0 = self.spec_pos();
        let mut v: u64 = 0;
        let mut i: u32 = 0;
        proof {
            vstd::arithmetic::power2::lemma2_to64();
            assert(all.subrange(p0, p0) =~= Seq::<bool>::empty());
        }
        while i < bits
            invariant
                i <= bits <= 64,
                self.wf(),
                self.spec_bits() == all,
                self.spec_end() == old(self).spec_end(),
                self.spec_pos() == p0 + i,
                p0 == old(self).spec_pos(),
                all == old(self).spec_bits(),
                v == bits_value(all.subrange(p0, p0 + i)),
                v < pow2(i as nat),
            decreases bits - i,
        {
            let b = match self.read_bool() {
                Ok(b) => b,
                Err(e) => {
                    assert(e == self.spec_end());
                    assert(!(p0 + bits <= all.len()));
                    return Err(e);
                },
            };
            proof {
                lemma_subrange_push(all, p0, p0 + i);
                lemma_bits_value_push(all.subrange(p0, p0 + i), b);
                vstd::arithmetic::power2::lemma_pow2_unfold((i + 1) as nat);
                if i + 1 < 64 {
                    vstd::arithmetic::power2::lemma_pow2_strictly_increases((i + 1) as nat, 64);
                }
                vstd::arithmetic::power2::lemma2_to64();
            }
            v = v * 2 + if b { 1u64 } else { 0u64 };
            i = i + 1;
        }
        Ok(v)
    }
}

/// The error reads past the end of the base64 text `inp` fail with.
pub open spec fn base64_end(inp: Seq<u8>) -> ReadError {
    match decode_stop(inp, 0) {
        None => ReadError::UnexpectedEof,
        Some(e) => ReadError::InvalidData(e),
    }
}

/// A byte whose bits are all clear.
proof fn lemma_zero_bits(j: u8)
    by (bit_vector)
    requires
        j < 8,
    ensures
        (0u8 >> ((7 - j) as u8)) & 1u8 != 1u8,
{
}

/// Appending a byte appends its eight bits.
pub proof fn lemma_bytes_to_bits_push(v: Seq<u8>, b: u8)
    ensures
        bytes_to_bits(v.push(b)) == bytes_to_bits(v) + Seq::new(8, |j: int| byte_bit(b, j)),
{
    assert forall|i: int| 0 <= i < 8 * v.len() + 8 implies #[trigger] bytes_to_bits(v.push(b))[i] == (bytes_to_bits(v) + Seq::new(8, |j: int| byte_bit(b, j)))[i] by {
        if i < 8 * v.len() {
            assert(i / 8 < v.len());
        } else {
            assert(i / 8 == v.len());
        }
    }
    assert(bytes_to_bits(v.push(b)) =~= bytes_to_bits(v) + Seq::new(8, |j: int| byte_bit(b, j)));
}

/// The bytes that the URL-safe base64 text `input` decodes to, up to its
/// first invalid character, with the reason decoding stopped: a last byte that
/// the text fills only in part is completed with zero bits, unless decoding
/// stopped at an invalid character.
pub fn decode_base64_bytes(input: &[u8]) -> (r: (Vec<u8>, Option<DecodeError>))
    ensures
        bytes_to_bits(r.0@) == base64_bits(input@),
        r.1 == decode_stop(input@, 0),
{
    let mut reader = Base64Reader::new(input);
    let mut bytes: Vec<u8> = Vec::new();
    let ghost d = decoded_bits(input@, 0);
    let ghost padded = pad_bits(d);
    let ghost st = decode_stop(input@, 0);
    proof {
        lemma_first_invalid_bounds(input@, 0);
        lemma_chars_bits_len(input@, 0, first_invalid(input@, 0));
        assert(reader.pending() =~= d);
        assert(bytes_to_bits(bytes@) =~= padded.take(0));
    }
    loop
        invariant
            reader.wf(),
            reader.spec_input() == input@,
            d == decoded_bits(input@, 0),
            padded == pad_bits(d),
            st == decode_stop(input@, 0),
            d.len() <= 6 * input@.len(),
            8 * bytes@.len() <= padded.len(),
            bytes_to_bits(bytes@) == padded.take(8 * bytes@.len() as int),
            reader.pending() == if 8 * bytes@.len() <= d.len() { d.skip(8 * bytes@.len() as int) } else { Seq::<bool>::empty() },
            reader.stop() == st,
            st is Some ==> 8 * bytes@.len() <= d.len(),
        decreases padded.len() - 8 * bytes@.len(),
    {
        let mut one: [u8; 1] = [0u8];
        let ghost pend = reader.pending();
        let res = reader.read(&mut one);
        match res {
            Ok(n) => {
                if n == 0 {
                    proof {
                        assert(padded.take(8 * bytes@.len() as int) =~= padded);
                    }
                    return (bytes, None);
                }
                let byte = one[0];
                proof {
                    assert forall|j: int| 0 <= j < 8 implies byte_bit(byte, j) == (j < pend.len() && pend[j]) by {
                        lemma_zero_bits(j as u8);
                    }
                    lemma_bytes_to_bits_push(bytes@, byte);
                }
                bytes.push(byte);
                proof {
                    assert(bytes_to_bits(bytes@) =~= padded.take(8 * bytes@.len() as int));
                    if 8 * bytes@.len() <= d.len() {
                        assert(d.skip(8 * (bytes@.len() - 1)).skip(8) =~= d.skip(8 * bytes@.len() as int));
                    }
                }
            },
            Err(e) => {
                proof {
                    assert(bytes_to_bits(bytes@) =~= d.take(8 * (d.len() as int / 8)));
                }
                return (bytes, Some(e));
            },
        }
    }
}

/// A reader of the bits that the URL-safe base64 text `input` encodes.
///
/// Reading past the last whole byte decoded before an invalid character fails
/// with that character, and a last byte that the text fills only in part is
/// completed with zero bits.
pub fn base64_bit_reader(input: &[u8]) -> (r: DataReader)
    ensures
        r.wf(),
        r.spec_bits() == base64_bits(input@),
        r.spec_pos() == 0,
        r.spec_end() == base64_end(input@),
{
    let (bytes, stop) = decode_base64_bytes(input);
    let end = match stop {
        None => ReadError::UnexpectedEof,
        Some(e) => ReadError::InvalidData(e),
    };
    DataReader::from_parts(bytes, end)
}

/// `String::push` (std): appends the character `c` to `s`; the contract
/// claims that the characters of `s` are then those it had, followed by `c`.
#[verifier::external_body]
pub(crate) fn string_push(s: &mut String, c: char)
    ensures
        final(s)@ == old(s)@.push(c),
{
    s.push(c);
}

/// The decimal digits of a number, most significant first.
pub open spec fn spec_decimal(v: nat) -> Seq<char>
    decreases v,
{
    if v < 10 {
        seq![(v + 48) as char]
    } else {
        spec_decimal(v / 10).push(((v % 10) + 48) as char)
    }
}

/// The decimal representation of a byte.
pub fn u8_to_decimal(v: u8) -> (r: String)
    ensures
        r@ == spec_decimal(v as nat),
{
    let mut s = String::new();
    if v >= 100 {
        string_push(&mut s, ((v / 100) + 48) as char);
    }
    if v >= 10 {
        string_push(&mut s, (((v / 10) % 10) + 48) as char);
    }
    string_push(&mut s, ((v % 10) + 48) as char);
    proof {
        if v >= 100 {
            assert(spec_decimal((v / 100) as nat) == seq![((v / 100) + 48) as char]);
            assert(spec_decimal((v / 10) as nat) =~= seq![((v / 100) + 48) as char].push((((v / 10) % 10) + 48) as char));
        } else if v >= 10 {
            assert(spec_decimal((v / 10) as nat) == seq![((v / 10) + 48) as char]);
        }
        assert(s@ =~= spec_decimal(v as nat));
    }
    s
}

/// How a read relates the reader before and after it to the value it returns:
/// the bits and the end condition never change, and the position moves past
/// what was read.
pub open spec fn reader_step<T>(old: DataReader, new: DataReader, r: Result<T, ReadError>, s: Step<T>) -> bool {
    &&& new.wf()
    &&& new.spec_bits() == old.spec_bits()
    &&& new.spec_end() == old.spec_end()
    &&& match s {
        Ok((v, p)) => r == Ok::<T, ReadError>(v) && new.spec_pos() == p,
        Err(e) => r == Err::<T, ReadError>(e),
    }
}

} // verus!
