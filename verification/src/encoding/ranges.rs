//! Readers of the composite fields of GPP sections: strings, timestamps,
//! bit fields and ranges of identifiers.
use vstd::prelude::*;
use std::collections::BTreeSet;
use crate::encoding::{DataReader, ReadError, Step, string_push, reader_step, spec_read_bits, spec_read_bool, spec_read_fibonacci_integer};
use crate::encoding::bits::{bits_value, lemma_bits_value_bound};
use crate::encoding::fibonacci::Unsigned;

verus! {

broadcast use {vstd::laws_cmp::group_laws_cmp, vstd::std_specs::btree::group_btree_axioms};

/// A read whose result is related to the spec value through its view.
pub open spec fn view_step<T: View>(old: DataReader, new: DataReader, r: Result<T, ReadError>, s: Step<T::V>) -> bool {
    &&& new.wf()
    &&& new.spec_bits() == old.spec_bits()
    &&& new.spec_end() == old.spec_end()
    &&& match s {
        Ok((v, p)) => r matches Ok(x) && x@ == v && new.spec_pos() == p,
        Err(e) => r matches Err(x) && x == e,
    }
}

/// The character of a six-bit value: 'A' for 0, 'B' for 1, and so on.
pub open spec fn six_bit_char(v: nat) -> char {
    (v + 65) as char
}

/// The `n` characters of six bits each that start at `pos`.
pub open spec fn chars_at(bits: Seq<bool>, pos: int, n: int) -> Seq<char> {
    Seq::new(n as nat, |i: int| six_bit_char(bits_value(bits.subrange(pos + 6 * i, pos + 6 * i + 6))))
}

/// Reading `n` characters of six bits each.
pub open spec fn spec_read_string(bits: Seq<bool>, end: ReadError, pos: int, n: int) -> Step<Seq<char>> {
    if pos + 6 * n <= bits.len() {
        Ok((chars_at(bits, pos, n), pos + 6 * n))
    } else {
        Err(end)
    }
}

/// Reading a timestamp: 36 bits of deciseconds since the Unix epoch, in seconds.
pub open spec fn spec_read_datetime(bits: Seq<bool>, end: ReadError, pos: int) -> Step<u64> {
    match spec_read_bits(bits, end, pos, 36) {
        Ok((v, p)) => Ok(((v / 10) as u64, p)),
        Err(e) => Err(e),
    }
}

/// The 1-based indices, as `u16`, of the set bits among `bits[pos..pos + n]`.
pub open spec fn bitfield_set(bits: Seq<bool>, pos: int, n: nat) -> Set<u16>
    decreases n,
{
    if n == 0 {
        Set::empty()
    } else {
        let s = bitfield_set(bits, pos, (n - 1) as nat);
        if bits[pos + n - 1] {
            s.insert((n % 0x10000) as u16)
        } else {
            s
        }
    }
}

/// A bit field holds exactly the 1-based indices of its set bits.
pub proof fn lemma_bitfield_set_contains(bits: Seq<bool>, pos: int, n: nat, i: u16)
    requires
        n < 0x10000,
        0 <= pos,
        pos + n <= bits.len(),
    ensures
        bitfield_set(bits, pos, n).contains(i) <==> (1 <= i <= n && bits[pos + i - 1]),
    decreases n,
{
    if n > 0 {
        lemma_bitfield_set_contains(bits, pos, (n - 1) as nat, i);
    }
}

/// Reading a bit field of `n` bits.
pub open spec fn spec_read_fixed_bitfield(bits: Seq<bool>, end: ReadError, pos: int, n: int) -> Step<Set<u16>> {
    if pos + n <= bits.len() {
        Ok((bitfield_set(bits, pos, n as nat), pos + n))
    } else {
        Err(end)
    }
}

/// Reading a bit field preceded by its 16-bit length.
pub open spec fn spec_read_variable_bitfield(bits: Seq<bool>, end: ReadError, pos: int) -> Step<Set<u16>> {
    match spec_read_bits(bits, end, pos, 16) {
        Ok((n, p)) => spec_read_fixed_bitfield(bits, end, p, n as int),
        Err(e) => Err(e),
    }
}

/// The identifiers `s, s + 1, ..., e` (none when `e < s`).
pub open spec fn id_span(s: u16, e: u16) -> Seq<u16> {
    Seq::new(if s <= e { (e - s + 1) as nat } else { 0 }, |i: int| (s + i) as u16)
}

/// The `n` remaining entries of an integer range, appended to `acc`: a bit
/// that tells a group from a single identifier, then one or two 16-bit
/// identifiers.
pub open spec fn spec_integer_range_entries(bits: Seq<bool>, end: ReadError, pos: int, n: nat, acc: Seq<u16>) -> Step<Seq<u16>>
    decreases n,
{
    if n == 0 {
        Ok((acc, pos))
    } else {
        match spec_read_bool(bits, end, pos) {
            Err(e) => Err(e),
            Ok((is_group, p1)) => if is_group {
                match spec_read_bits(bits, end, p1, 16) {
                    Err(e) => Err(e),
                    Ok((s, p2)) => match spec_read_bits(bits, end, p2, 16) {
                        Err(e) => Err(e),
                        Ok((e, p3)) => spec_integer_range_entries(bits, end, p3, (n - 1) as nat, acc + id_span(s as u16, e as u16)),
                    },
                }
            } else {
                match spec_read_bits(bits, end, p1, 16) {
                    Err(e) => Err(e),
                    Ok((id, p2)) => spec_integer_range_entries(bits, end, p2, (n - 1) as nat, acc.push(id as u16)),
                }
            },
        }
    }
}

/// Reading an integer range: a 12-bit count of entries, then the entries.
pub open spec fn spec_read_integer_range(bits: Seq<bool>, end: ReadError, pos: int) -> Step<Seq<u16>> {
    match spec_read_bits(bits, end, pos, 12) {
        Ok((n, p)) => spec_integer_range_entries(bits, end, p, n, Seq::empty()),
        Err(e) => Err(e),
    }
}

/// The values `s, s + 1, ..., e` (none when `e < s`).
pub open spec fn int_span(s: int, e: int) -> Seq<int> {
    Seq::new(if s <= e { (e - s + 1) as nat } else { 0 }, |i: int| s + i)
}

/// The `n` remaining entries of a Fibonacci range, appended to `acc`, with
/// `last` the last identifier: a group adds an offset and spans a count more
/// identifiers; a single entry adds its value to `last`, which then becomes
/// that value. Sums wrap modulo `m`.
pub open spec fn spec_fibonacci_range_entries(
    bits: Seq<bool>,
    end: ReadError,
    pos: int,
    n: nat,
    acc: Seq<int>,
    last: int,
    m: int,
) -> Step<Seq<int>>
    decreases n,
{
    if n == 0 {
        Ok((acc, pos))
    } else {
        match spec_read_bool(bits, end, pos) {
            Err(e) => Err(e),
            Ok((is_group, p1)) => if is_group {
                match spec_read_fibonacci_integer(bits, end, p1, m) {
                    Err(e) => Err(e),
                    Ok((offset, p2)) => match spec_read_fibonacci_integer(bits, end, p2, m) {
                        Err(e) => Err(e),
                        Ok((count, p3)) => {
                            let s = (last + offset) % m;
                            let e = (s + count) % m;
                            spec_fibonacci_range_entries(bits, end, p3, (n - 1) as nat, acc + int_span(s, e), if s <= e { e } else { last }, m)
                        },
                    },
                }
            } else {
                match spec_read_fibonacci_integer(bits, end, p1, m) {
                    Err(e) => Err(e),
                    Ok((id, p2)) => spec_fibonacci_range_entries(bits, end, p2, (n - 1) as nat, acc.push((last + id) % m), id, m),
                }
            },
        }
    }
}

/// Reading a Fibonacci range of identifiers of a type with modulus `m`.
pub open spec fn spec_read_fibonacci_range(bits: Seq<bool>, end: ReadError, pos: int, m: int) -> Step<Seq<int>> {
    match spec_read_bits(bits, end, pos, 12) {
        Ok((n, p)) => spec_fibonacci_range_entries(bits, end, p, n, Seq::empty(), 0, m),
        Err(e) => Err(e),
    }
}

/// A Fibonacci-coded integer read modulo `m` lies in `0..m`.
pub proof fn lemma_fibonacci_integer_range(bits: Seq<bool>, end: ReadError, pos: int, m: int)
    requires
        m > 0,
    ensures
        spec_read_fibonacci_integer(bits, end, pos, m) matches Ok((v, _)) ==> 0 <= v < m,
{
    lemma_fib_from_range(bits, end, pos, 0, false, 0, m);
}

/// The running total of a Fibonacci decoding stays in `0..m`.
proof fn lemma_fib_from_range(bits: Seq<bool>, end: ReadError, pos: int, k: nat, last: bool, total: int, m: int)
    requires
        m > 0,
        0 <= total < m,
    ensures
        crate::encoding::spec_read_fib_from(bits, end, pos, k, last, total, m) matches Ok((v, _)) ==> 0 <= v < m,
    decreases bits.len() - pos,
{
    if 0 <= pos < bits.len() && !(last && bits[pos]) {
        let t = if bits[pos] { (total + crate::encoding::fib_or_zero(k, m)) % m } else { total };
        lemma_fib_from_range(bits, end, pos + 1, k + 1, bits[pos], t, m);
    }
}

/// A Fibonacci range of two entries, a group of offset `a` and count `c`
/// followed by a single entry of offset `d`, holds the identifiers
/// `a, a + 1, ..., a + c` and then `a + c + d`: an entry after a group is
/// offset from the group's last identifier.
pub proof fn lemma_fibonacci_range_group_then_single(bits: Seq<bool>, end: ReadError, pos: int, m: int)
    requires
        m > 0,
        spec_read_bits(bits, end, pos, 12) == Ok::<(nat, int), ReadError>((2nat, pos + 12)),
        spec_read_bool(bits, end, pos + 12) == Ok::<(bool, int), ReadError>((true, pos + 13)),
        spec_read_fibonacci_integer(bits, end, pos + 13, m) is Ok,
        spec_read_fibonacci_integer(bits, end, spec_read_fibonacci_integer(bits, end, pos + 13, m)->Ok_0.1, m) is Ok,
        spec_read_bool(
            bits,
            end,
            spec_read_fibonacci_integer(bits, end, spec_read_fibonacci_integer(bits, end, pos + 13, m)->Ok_0.1, m)->Ok_0.1,
        ) matches Ok((false, _)),
        spec_read_fibonacci_integer(
            bits,
            end,
            spec_read_fibonacci_integer(bits, end, spec_read_fibonacci_integer(bits, end, pos + 13, m)->Ok_0.1, m)->Ok_0.1 + 1,
            m,
        ) is Ok,
        spec_read_fibonacci_integer(bits, end, pos + 13, m)->Ok_0.0 + spec_read_fibonacci_integer(
            bits,
            end,
            spec_read_fibonacci_integer(bits, end, pos + 13, m)->Ok_0.1,
            m,
        )->Ok_0.0 + spec_read_fibonacci_integer(
            bits,
            end,
            spec_read_fibonacci_integer(bits, end, spec_read_fibonacci_integer(bits, end, pos + 13, m)->Ok_0.1, m)->Ok_0.1 + 1,
            m,
        )->Ok_0.0 < m,
    ensures
        ({
            let (a, p2) = spec_read_fibonacci_integer(bits, end, pos + 13, m)->Ok_0;
            let (c, p3) = spec_read_fibonacci_integer(bits, end, p2, m)->Ok_0;
            let (d, p5) = spec_read_fibonacci_integer(bits, end, p3 + 1, m)->Ok_0;
            spec_read_fibonacci_range(bits, end, pos, m) == Ok::<(Seq<int>, int), ReadError>(
                (int_span(a, a + c).push(a + c + d), p5),
            )
        }),
{
    let (a, p2) = spec_read_fibonacci_integer(bits, end, pos + 13, m)->Ok_0;
    let (c, p3) = spec_read_fibonacci_integer(bits, end, p2, m)->Ok_0;
    let (d, p5) = spec_read_fibonacci_integer(bits, end, p3 + 1, m)->Ok_0;
    lemma_fibonacci_integer_range(bits, end, pos + 13, m);
    lemma_fibonacci_integer_range(bits, end, p2, m);
    lemma_fibonacci_integer_range(bits, end, p3 + 1, m);
    assert(spec_read_bool(bits, end, p3) == Ok::<(bool, int), ReadError>((false, p3 + 1)));
    let acc1 = int_span(a, a + c);
    assert((0 + a) % m == a) by (nonlinear_arith) requires 0 <= a < m;
    assert((a + c) % m == a + c) by (nonlinear_arith) requires 0 <= a + c < m;
    assert((a + c + d) % m == a + c + d) by (nonlinear_arith) requires 0 <= a + c + d < m;
    assert(spec_fibonacci_range_entries(bits, end, pos + 12, 2, Seq::empty(), 0, m)
        == spec_fibonacci_range_entries(bits, end, p3, 1, Seq::<int>::empty() + acc1, a + c, m));
    assert(Seq::<int>::empty() + acc1 =~= acc1);
    assert(spec_fibonacci_range_entries(bits, end, p3, 1, acc1, a + c, m)
        == spec_fibonacci_range_entries(bits, end, p5, 0, acc1.push(a + c + d), d, m));
}

/// A Fibonacci range of two groups, of offsets and counts `(a, c)` and then
/// `(b, k)`, holds `a, ..., a + c` and then `a + c + b, ..., a + c + b + k`:
/// the second group is offset from the first group's last identifier.
pub proof fn lemma_fibonacci_range_two_groups(bits: Seq<bool>, end: ReadError, pos: int, m: int)
    requires
        m > 0,
        spec_read_bits(bits, end, pos, 12) == Ok::<(nat, int), ReadError>((2nat, pos + 12)),
        spec_read_bool(bits, end, pos + 12) == Ok::<(bool, int), ReadError>((true, pos + 13)),
        spec_read_fibonacci_integer(bits, end, pos + 13, m) is Ok,
        spec_read_fibonacci_integer(bits, end, spec_read_fibonacci_integer(bits, end, pos + 13, m)->Ok_0.1, m) is Ok,
        spec_read_bool(
            bits,
            end,
            spec_read_fibonacci_integer(bits, end, spec_read_fibonacci_integer(bits, end, pos + 13, m)->Ok_0.1, m)->Ok_0.1,
        ) matches Ok((true, _)),
        ({
            let (a, p2) = spec_read_fibonacci_integer(bits, end, pos + 13, m)->Ok_0;
            let (c, p3) = spec_read_fibonacci_integer(bits, end, p2, m)->Ok_0;
            &&& spec_read_fibonacci_integer(bits, end, p3 + 1, m) is Ok
            &&& spec_read_fibonacci_integer(bits, end, spec_read_fibonacci_integer(bits, end, p3 + 1, m)->Ok_0.1, m) is Ok
            &&& a + c + spec_read_fibonacci_integer(bits, end, p3 + 1, m)->Ok_0.0 + spec_read_fibonacci_integer(
                bits,
                end,
                spec_read_fibonacci_integer(bits, end, p3 + 1, m)->Ok_0.1,
                m,
            )->Ok_0.0 < m
        }),
    ensures
        ({
            let (a, p2) = spec_read_fibonacci_integer(bits, end, pos + 13, m)->Ok_0;
            let (c, p3) = spec_read_fibonacci_integer(bits, end, p2, m)->Ok_0;
            let (b, p5) = spec_read_fibonacci_integer(bits, end, p3 + 1, m)->Ok_0;
            let (k, p6) = spec_read_fibonacci_integer(bits, end, p5, m)->Ok_0;
            spec_read_fibonacci_range(bits, end, pos, m) == Ok::<(Seq<int>, int), ReadError>(
                (int_span(a, a + c) + int_span(a + c + b, a + c + b + k), p6),
            )
        }),
{
    let (a, p2) = spec_read_fibonacci_integer(bits, end, pos + 13, m)->Ok_0;
    let (c, p3) = spec_read_fibonacci_integer(bits, end, p2, m)->Ok_0;
    let (b, p5) = spec_read_fibonacci_integer(bits, end, p3 + 1, m)->Ok_0;
    let (k, p6) = spec_read_fibonacci_integer(bits, end, p5, m)->Ok_0;
    lemma_fibonacci_integer_range(bits, end, pos + 13, m);
    lemma_fibonacci_integer_range(bits, end, p2, m);
    lemma_fibonacci_integer_range(bits, end, p3 + 1, m);
    lemma_fibonacci_integer_range(bits, end, p5, m);
    assert(spec_read_bool(bits, end, p3) == Ok::<(bool, int), ReadError>((true, p3 + 1)));
    let acc1 = int_span(a, a + c);
    assert((0 + a) % m == a) by (nonlinear_arith) requires 0 <= a < m;
    assert((a + c) % m == a + c) by (nonlinear_arith) requires 0 <= a + c < m;
    assert((a + c + b) % m == a + c + b) by (nonlinear_arith) requires 0 <= a + c + b < m;
    assert((a + c + b + k) % m == a + c + b + k) by (nonlinear_arith) requires 0 <= a + c + b + k < m;
    assert(spec_fibonacci_range_entries(bits, end, pos + 12, 2, Seq::empty(), 0, m)
        == spec_fibonacci_range_entries(bits, end, p3, 1, Seq::<int>::empty() + acc1, a + c, m));
    assert(Seq::<int>::empty() + acc1 =~= acc1);
    assert(spec_fibonacci_range_entries(bits, end, p3, 1, acc1, a + c, m)
        == spec_fibonacci_range_entries(bits, end, p6, 0, acc1 + int_span(a + c + b, a + c + b + k), a + c + b + k, m));
}

/// The values of a sequence of unsigned integers.
pub open spec fn values<T: Unsigned>(s: Seq<T>) -> Seq<int> {
    s.map_values(|x: T| x.spec_value())
}

/// The identifiers of a sequence, as a set.
pub open spec fn id_set(s: Seq<int>) -> Set<u16> {
    Set::new(|v: u16| s.contains(v as int))
}

/// Reading an optimized range: a bit choosing between a Fibonacci range and a
/// variable bit field.
pub open spec fn spec_read_optimized_range(bits: Seq<bool>, end: ReadError, pos: int) -> Step<Set<u16>> {
    match spec_read_bool(bits, end, pos) {
        Err(e) => Err(e),
        Ok((is_fibo, p)) => if is_fibo {
            match spec_read_fibonacci_range(bits, end, p, 0x10000) {
                Ok((s, p2)) => Ok((id_set(s), p2)),
                Err(e) => Err(e),
            }
        } else {
            spec_read_variable_bitfield(bits, end, p)
        },
    }
}

/// Reading an optimized integer range: a 16-bit length and a bit choosing
/// between an integer range and a bit field of that length.
pub open spec fn spec_read_optimized_integer_range(bits: Seq<bool>, end: ReadError, pos: int) -> Step<Set<u16>> {
    match spec_read_bits(bits, end, pos, 16) {
        Err(e) => Err(e),
        Ok((n, p1)) => match spec_read_bool(bits, end, p1) {
            Err(e) => Err(e),
            Ok((is_int_range, p2)) => if is_int_range {
                match spec_read_integer_range(bits, end, p2) {
                    Ok((s, p3)) => Ok((s.to_set(), p3)),
                    Err(e) => Err(e),
                }
            } else {
                spec_read_fixed_bitfield(bits, end, p2, n as int)
            },
        },
    }
}

impl DataReader {
    /// Reads `chars` characters of six bits each, 0 being 'A'.
    pub fn read_string(&mut self, chars: usize) -> (r: Result<String, ReadError>)
        requires
            old(self).wf(),
        ensures
            view_step(*old(self), *final(self), r, spec_read_string(old(self).spec_bits(), old(self).spec_end(), old(self).spec_pos(), chars as int)),
    {
        let ghost all = self.spec_bits();
        let ghost p0 = self.spec_pos();
        let mut s = String::new();
        let mut i: usize = 0;
        while i < chars
            invariant
                self.wf(),
                self.spec_bits() == all,
                all == old(self).spec_bits(),
                self.spec_end() == old(self).spec_end(),
                p0 == old(self).spec_pos(),
                i <= chars,
                self.spec_pos() == p0 + 6 * i,
                p0 + 6 * i <= all.len(),
                s@ == Seq::new(i as nat, |j: int| six_bit_char(bits_value(all.subrange(p0 + 6 * j, p0 + 6 * j + 6)))),
            decreases chars - i,
        {
            let n = match self.read_fixed_integer(6) {
                Ok(n) => n,
                Err(e) => {
                    return Err(e);
                },
            };
            proof {
                lemma_bits_value_bound(all.subrange(p0 + 6 * i, p0 + 6 * i + 6));
                vstd::arithmetic::power2::lemma2_to64();
            }
            let c = ((n as u8) + 65) as char;
            string_push(&mut s, c);
            i = i + 1;
            proof {
                assert(s@ =~= Seq::new(i as nat, |j: int| six_bit_char(bits_value(all.subrange(p0 + 6 * j, p0 + 6 * j + 6)))));
            }
        }
        Ok(s)
    }

    /// Reads a timestamp in seconds, stored as 36 bits of deciseconds.
    pub fn read_datetime_as_unix_timestamp(&mut self) -> (r: Result<u64, ReadError>)
        requires
            old(self).wf(),
        ensures
            reader_step(*old(self), *final(self), r, spec_read_datetime(old(self).spec_bits(), old(self).spec_end(), old(self).spec_pos())),
            r matches Ok(t) ==> t < 0x10_0000_0000,
    {
        let v = self.read_fixed_integer(36)?;
        proof {
            vstd::arithmetic::power2::lemma2_to64_rest();
        }
        Ok(v / 10)
    }

    /// Reads a bit field of `bits` bits: the set of the 1-based indices of its set bits.
    pub fn read_fixed_bitfield(&mut self, bits: usize) -> (r: Result<BTreeSet<u16>, ReadError>)
        requires
            old(self).wf(),
        ensures
            view_step(*old(self), *final(self), r, spec_read_fixed_bitfield(old(self).spec_bits(), old(self).spec_end(), old(self).spec_pos(), bits as int)),
    {
        let ghost all = self.spec_bits();
        let ghost p0 = self.spec_pos();
        let mut result: BTreeSet<u16> = BTreeSet::new();
        let mut i: usize = 0;
        while i < bits
            invariant
                self.wf(),
                self.spec_bits() == all,
                all == old(self).spec_bits(),
                self.spec_end() == old(self).spec_end(),
                p0 == old(self).spec_pos(),
                i <= bits,
                self.spec_pos() == p0 + i,
                p0 + i <= all.len(),
                result@ == bitfield_set(all, p0, i as nat),
            decreases bits - i,
        {
            let b = match self.read_bool() {
                Ok(b) => b,
                Err(e) => {
                    return Err(e);
                },
            };
            i = i + 1;
            if b {
                result.insert((i % 0x10000) as u16);
            }
        }
        Ok(result)
    }

    /// Reads a bit field preceded by its 16-bit length.
    pub fn read_variable_bitfield(&mut self) -> (r: Result<BTreeSet<u16>, ReadError>)
        requires
            old(self).wf(),
        ensures
            view_step(*old(self), *final(self), r, spec_read_variable_bitfield(old(self).spec_bits(), old(self).spec_end(), old(self).spec_pos())),
    {
        let n = self.read_fixed_integer(16)?;
        proof {
            vstd::arithmetic::power2::lemma2_to64();
        }
        self.read_fixed_bitfield(n as usize)
    }
}

impl DataReader {
    /// Reads a 16-bit identifier.
    fn read_u16(&mut self) -> (r: Result<u16, ReadError>)
        requires
            old(self).wf(),
        ensures
            match spec_read_bits(old(self).spec_bits(), old(self).spec_end(), old(self).spec_pos(), 16) {
                Ok((v, p)) => r == Ok::<u16, ReadError>(v as u16) && v < 0x10000 && final(self).spec_pos() == p,
                Err(e) => r == Err::<u16, ReadError>(e),
            },
            final(self).wf(),
            final(self).spec_bits() == old(self).spec_bits(),
            final(self).spec_end() == old(self).spec_end(),
    {
        let v = self.read_fixed_integer(16)?;
        proof {
            vstd::arithmetic::power2::lemma2_to64();
        }
        Ok(v as u16)
    }

    /// Reads an integer range: a 12-bit count of entries, each either a single
    /// 16-bit identifier or a group of all identifiers between two 16-bit bounds.
    pub fn read_integer_range(&mut self) -> (r: Result<Vec<u16>, ReadError>)
        requires
            old(self).wf(),
        ensures
            view_step(*old(self), *final(self), r, spec_read_integer_range(old(self).spec_bits(), old(self).spec_end(), old(self).spec_pos())),
    {
        let ghost all = self.spec_bits();
        let ghost end = self.spec_end();
        let ghost target = spec_read_integer_range(all, end, self.spec_pos());
        let n = self.read_fixed_integer(12)?;
        let mut range: Vec<u16> = Vec::new();
        let mut c: u64 = 0;
        while c < n
            invariant
                self.wf(),
                self.spec_bits() == all,
                all == old(self).spec_bits(),
                self.spec_end() == end,
                end == old(self).spec_end(),
                target == spec_read_integer_range(all, end, old(self).spec_pos()),
                c <= n,
                target == spec_integer_range_entries(all, end, self.spec_pos(), (n - c) as nat, range@),
            decreases n - c,
        {
            let ghost acc = range@;
            let is_group = self.read_bool()?;
            if is_group {
                let start = self.read_u16()?;
                let end_id = self.read_u16()?;
                let mut id = start;
                let mut done = end_id < start;
                let ghost mut cnt: nat = 0;
                while !done
                    invariant
                        range@ == acc + Seq::new(cnt, |i: int| (start + i) as u16),
                        !done ==> start <= id <= end_id && id == start + cnt,
                        done ==> cnt == (if start <= end_id { (end_id - start + 1) as nat } else { 0nat }),
                    decreases (end_id - start + 1 - cnt),
                {
                    range.push(id);
                    proof {
                        assert(range@ =~= acc + Seq::new(cnt + 1, |i: int| (start + i) as u16));
                        cnt = cnt + 1;
                    }
                    if id == end_id {
                        done = true;
                    } else {
                        id = id + 1;
                    }
                }
                proof {
                    assert(range@ =~= acc + id_span(start, end_id));
                }
            } else {
                let id = self.read_u16()?;
                range.push(id);
            }
            c = c + 1;
        }
        Ok(range)
    }

    /// Reads a Fibonacci range: a 12-bit count of entries, each either a
    /// Fibonacci-coded increment of the previous identifier or a group given
    /// by a Fibonacci-coded offset and count.
    pub fn read_fibonacci_range<T: Unsigned>(&mut self) -> (r: Result<Vec<T>, ReadError>)
        requires
            old(self).wf(),
        ensures
            final(self).wf(),
            final(self).spec_bits() == old(self).spec_bits(),
            final(self).spec_end() == old(self).spec_end(),
            match spec_read_fibonacci_range(old(self).spec_bits(), old(self).spec_end(), old(self).spec_pos(), T::spec_modulus()) {
                Ok((v, p)) => r matches Ok(x) && values(x@) == v && final(self).spec_pos() == p,
                Err(e) => r matches Err(x) && x == e,
            },
    {
        let ghost all = self.spec_bits();
        let ghost end = self.spec_end();
        let ghost m = T::spec_modulus();
        let ghost target = spec_read_fibonacci_range(all, end, self.spec_pos(), m);
        let n = self.read_fixed_integer(12)?;
        let mut range: Vec<T> = Vec::new();
        let mut last_id = T::zero();
        let mut c: u64 = 0;
        proof {
            assert(values(range@) =~= Seq::<int>::empty());
        }
        while c < n
            invariant
                self.wf(),
                self.spec_bits() == all,
                all == old(self).spec_bits(),
                self.spec_end() == end,
                end == old(self).spec_end(),
                m == T::spec_modulus(),
                target == spec_read_fibonacci_range(all, end, old(self).spec_pos(), m),
                c <= n,
                target == spec_fibonacci_range_entries(all, end, self.spec_pos(), (n - c) as nat, values(range@), last_id.spec_value(), m),
            decreases n - c,
        {
            let ghost acc = values(range@);
            let is_group = self.read_bool()?;
            if is_group {
                let offset: T = self.read_fibonacci_integer()?;
                let count: T = self.read_fibonacci_integer()?;
                let start = last_id.add_wrapping(offset);
                let stop = start.add_wrapping(count);
                proof {
                    T::lemma_range(last_id);
                    T::lemma_range(offset);
                    T::lemma_range(count);
                    T::lemma_range(start);
                    T::lemma_range(stop);
                }
                let mut done = stop.less_than(start);
                let mut id = start;
                let ghost mut cnt: nat = 0;
                let ghost last0 = last_id.spec_value();
                while !done
                    invariant
                        m == T::spec_modulus(),
                        0 <= start.spec_value() < m,
                        0 <= stop.spec_value() < m,
                        values(range@) == acc + int_span(start.spec_value(), start.spec_value() + cnt - 1),
                        !done ==> start.spec_value() <= id.spec_value() <= stop.spec_value() && id.spec_value() == start.spec_value() + cnt,
                        done ==> cnt == (if start.spec_value() <= stop.spec_value() { (stop.spec_value() - start.spec_value() + 1) as nat } else { 0nat }),
                        last_id.spec_value() == if cnt == 0 { last0 } else { start.spec_value() + cnt - 1 },
                    decreases (stop.spec_value() - start.spec_value() + 1 - cnt),
                {
                    let ghost prev = range@;
                    range.push(id);
                    last_id = id;
                    proof {
                        assert(values(range@) =~= values(prev).push(id.spec_value()));
                        assert(values(range@) =~= acc + int_span(start.spec_value(), start.spec_value() + cnt));
                        cnt = cnt + 1;
                    }
                    if id.equals(stop) {
                        done = true;
                    } else {
                        let one = T::one();
                        proof {
                            T::lemma_range(id);
                            vstd::arithmetic::div_mod::lemma_small_mod((id.spec_value() + 1) as nat, m as nat);
                        }
                        id = id.add_wrapping(one);
                    }
                }
                proof {
                    assert(values(range@) =~= acc + int_span(start.spec_value(), stop.spec_value()));
                }
            } else {
                let id: T = self.read_fibonacci_integer()?;
                let v = last_id.add_wrapping(id);
                let ghost prev = range@;
                range.push(v);
                proof {
                    assert(values(range@) =~= values(prev).push(v.spec_value()));
                    assert(values(range@) =~= acc.push(v.spec_value()));
                }
                last_id = id;
            }
            c = c + 1;
        }
        Ok(range)
    }
}

/// The elements of a vector of identifiers, as a set.
pub fn ids_to_set(v: &Vec<u16>) -> (r: BTreeSet<u16>)
    ensures
        r@ == v@.to_set(),
{
    let mut set: BTreeSet<u16> = BTreeSet::new();
    let mut i: usize = 0;
    while i < v.len()
        invariant
            i <= v@.len(),
            set@ == v@.take(i as int).to_set(),
        decreases v@.len() - i,
    {
        set.insert(v[i]);
        proof {
            assert(v@.take(i + 1) =~= v@.take(i as int).push(v@[i as int]));
            assert(v@.take(i as int).push(v@[i as int]).to_set() =~= v@.take(i as int).to_set().insert(v@[i as int])) by {
                vstd::seq_lib::lemma_seq_contains_after_push(v@.take(i as int), v@[i as int], v@[i as int]);
                assert forall|x: u16| #[trigger] v@.take(i as int).push(v@[i as int]).contains(x) <==> v@.take(i as int).contains(x) || x == v@[i as int] by {
                    vstd::seq_lib::lemma_seq_contains_after_push(v@.take(i as int), v@[i as int], x);
                }
            }
        }
        i = i + 1;
    }
    assert(v@.take(v@.len() as int) =~= v@);
    set
}

impl DataReader {
    /// Reads an optimized range: a bit choosing between a Fibonacci range of
    /// 16-bit identifiers and a variable bit field.
    pub fn read_optimized_range(&mut self) -> (r: Result<BTreeSet<u16>, ReadError>)
        requires
            old(self).wf(),
        ensures
            view_step(*old(self), *final(self), r, spec_read_optimized_range(old(self).spec_bits(), old(self).spec_end(), old(self).spec_pos())),
    {
        let is_fibo = self.read_bool()?;
        if is_fibo {
            let ids: Vec<u16> = self.read_fibonacci_range()?;
            let set = ids_to_set(&ids);
            proof {
                assert(set@ =~= id_set(values(ids@))) by {
                    assert forall|x: u16| set@.contains(x) <==> #[trigger] id_set(values(ids@)).contains(x) by {
                        if set@.contains(x) {
                            let i = choose|i: int| 0 <= i < ids@.len() && ids@[i] == x;
                            assert(values(ids@)[i] == x as int);
                        }
                        if id_set(values(ids@)).contains(x) {
                            let i = choose|i: int| 0 <= i < values(ids@).len() && values(ids@)[i] == x as int;
                            assert(ids@[i] == x);
                        }
                    }
                }
            }
            Ok(set)
        } else {
            self.read_variable_bitfield()
        }
    }

    /// Reads an optimized integer range: a 16-bit length, then a bit choosing
    /// between an integer range and a bit field of that length.
    pub fn read_optimized_integer_range(&mut self) -> (r: Result<BTreeSet<u16>, ReadError>)
        requires
            old(self).wf(),
        ensures
            view_step(*old(self), *final(self), r, spec_read_optimized_integer_range(old(self).spec_bits(), old(self).spec_end(), old(self).spec_pos())),
    {
        let n = self.read_u16()?;
        let is_int_range = self.read_bool()?;
        if is_int_range {
            let ids = self.read_integer_range()?;
            Ok(ids_to_set(&ids))
        } else {
            self.read_fixed_bitfield(n as usize)
        }
    }
}

/// A set of identifiers tagged with a key and a range type.
#[derive(Debug, PartialEq, Eq)]
pub struct GenericRange<X, Y> {
    pub key: X,
    pub range_type: Y,
    pub ids: BTreeSet<u16>,
}

/// A range with a 6-bit key and a 2-bit range type.
pub type Range = GenericRange<u8, u8>;

impl<X: Copy, Y: Copy> View for GenericRange<X, Y> {
    type V = (X, Y, Set<u16>);

    open spec fn view(&self) -> (X, Y, Set<u16>) {
        (self.key, self.range_type, self.ids@)
    }
}

/// The views of a sequence of ranges.
pub open spec fn ranges_view(s: Seq<Range>) -> Seq<(u8, u8, Set<u16>)> {
    s.map_values(|g: Range| g@)
}

/// Reading an unsigned value of `n` bits into a `u8`: more than 8 bits do not fit.
pub open spec fn spec_read_u8_var(bits: Seq<bool>, end: ReadError, pos: int, n: int) -> Step<u8> {
    if n > 8 {
        Err(ReadError::InvalidInput)
    } else {
        match spec_read_bits(bits, end, pos, n) {
            Ok((v, p)) => Ok((v as u8, p)),
            Err(e) => Err(e),
        }
    }
}

/// The `n` remaining entries of an array of ranges, appended to `acc`: a
/// key of `x` bits, a range type of `y` bits, then identifiers read by
/// `optimized_integer` (an optimized integer range) or an optimized range.
pub open spec fn spec_range_entries(
    bits: Seq<bool>,
    end: ReadError,
    pos: int,
    n: nat,
    x: int,
    y: int,
    optimized_integer: bool,
    acc: Seq<(u8, u8, Set<u16>)>,
) -> Step<Seq<(u8, u8, Set<u16>)>>
    decreases n,
{
    if n == 0 {
        Ok((acc, pos))
    } else {
        match spec_read_u8_var(bits, end, pos, x) {
            Err(e) => Err(e),
            Ok((key, p1)) => match spec_read_u8_var(bits, end, p1, y) {
                Err(e) => Err(e),
                Ok((range_type, p2)) => match if optimized_integer {
                    spec_read_optimized_integer_range(bits, end, p2)
                } else {
                    spec_read_optimized_range(bits, end, p2)
                } {
                    Err(e) => Err(e),
                    Ok((ids, p3)) => spec_range_entries(bits, end, p3, (n - 1) as nat, x, y, optimized_integer, acc.push((key, range_type, ids))),
                },
            },
        }
    }
}

/// Reading a 12-bit count of ranges, then the ranges.
pub open spec fn spec_read_ranges(bits: Seq<bool>, end: ReadError, pos: int, x: int, y: int, optimized_integer: bool) -> Step<Seq<(u8, u8, Set<u16>)>> {
    match spec_read_bits(bits, end, pos, 12) {
        Ok((n, p)) => spec_range_entries(bits, end, p, n, x, y, optimized_integer, Seq::empty()),
        Err(e) => Err(e),
    }
}

impl DataReader {
    /// Reads an unsigned value of `bits` bits into a `u8`.
    fn read_u8_var(&mut self, bits: u32) -> (r: Result<u8, ReadError>)
        requires
            old(self).wf(),
        ensures
            reader_step(*old(self), *final(self), r, spec_read_u8_var(old(self).spec_bits(), old(self).spec_end(), old(self).spec_pos(), bits as int)),
    {
        if bits > 8 {
            return Err(ReadError::InvalidInput);
        }
        let v = self.read_fixed_integer(bits)?;
        proof {
            vstd::arithmetic::power2::lemma2_to64();
            if bits < 8 {
                vstd::arithmetic::power2::lemma_pow2_strictly_increases(bits as nat, 8);
            }
        }
        Ok(v as u8)
    }

    /// Reads ranges with keys of `x` bits and range types of `y` bits.
    fn read_ranges(&mut self, x: u32, y: u32, optimized_integer: bool) -> (r: Result<Vec<Range>, ReadError>)
        requires
            old(self).wf(),
        ensures
            final(self).wf(),
            final(self).spec_bits() == old(self).spec_bits(),
            final(self).spec_end() == old(self).spec_end(),
            match spec_read_ranges(old(self).spec_bits(), old(self).spec_end(), old(self).spec_pos(), x as int, y as int, optimized_integer) {
                Ok((v, p)) => r matches Ok(rs) && ranges_view(rs@) == v && final(self).spec_pos() == p,
                Err(e) => r matches Err(x) && x == e,
            },
    {
        let ghost all = self.spec_bits();
        let ghost end = self.spec_end();
        let ghost target = spec_read_ranges(all, end, self.spec_pos(), x as int, y as int, optimized_integer);
        let n = self.read_fixed_integer(12)?;
        let mut result: Vec<Range> = Vec::new();
        let mut c: u64 = 0;
        proof {
            assert(ranges_view(result@) =~= Seq::<(u8, u8, Set<u16>)>::empty());
        }
        while c < n
            invariant
                self.wf(),
                self.spec_bits() == all,
                all == old(self).spec_bits(),
                self.spec_end() == end,
                end == old(self).spec_end(),
                target == spec_read_ranges(all, end, old(self).spec_pos(), x as int, y as int, optimized_integer),
                c <= n,
                target == spec_range_entries(all, end, self.spec_pos(), (n - c) as nat, x as int, y as int, optimized_integer, ranges_view(result@)),
            decreases n - c,
        {
            let key = self.read_u8_var(x)?;
            let range_type = self.read_u8_var(y)?;
            let ids = if optimized_integer {
                self.read_optimized_integer_range()?
            } else {
                self.read_optimized_range()?
            };
            let ghost prev = result@;
            let g = GenericRange { key, range_type, ids };
            result.push(g);
            proof {
                assert(ranges_view(result@) =~= ranges_view(prev).push(g@));
            }
            c = c + 1;
        }
        Ok(result)
    }

    /// Reads an array of ranges: a 12-bit count, then for each range a 6-bit
    /// key, a 2-bit range type and an optimized integer range.
    pub fn read_array_of_ranges(&mut self) -> (r: Result<Vec<Range>, ReadError>)
        requires
            old(self).wf(),
        ensures
            final(self).wf(),
            final(self).spec_bits() == old(self).spec_bits(),
            final(self).spec_end() == old(self).spec_end(),
            match spec_read_ranges(old(self).spec_bits(), old(self).spec_end(), old(self).spec_pos(), 6, 2, true) {
                Ok((v, p)) => r matches Ok(rs) && ranges_view(rs@) == v && final(self).spec_pos() == p,
                Err(e) => r matches Err(x) && x == e,
            },
    {
        self.read_ranges(6, 2, true)
    }

    /// Reads an array of ranges: a 12-bit count, then for each range a key of
    /// `x` bits, a range type of `y` bits and an optimized range.
    pub fn read_n_array_of_ranges(&mut self, x: u32, y: u32) -> (r: Result<Vec<Range>, ReadError>)
        requires
            old(self).wf(),
        ensures
            final(self).wf(),
            final(self).spec_bits() == old(self).spec_bits(),
            final(self).spec_end() == old(self).spec_end(),
            match spec_read_ranges(old(self).spec_bits(), old(self).spec_end(), old(self).spec_pos(), x as int, y as int, false) {
                Ok((v, p)) => r matches Ok(rs) && ranges_view(rs@) == v && final(self).spec_pos() == p,
                Err(e) => r matches Err(x) && x == e,
            },
    {
        self.read_ranges(x, y, false)
    }
}

} // verus!
