//! Fibonacci numbers of a bounded unsigned type, as used by Fibonacci coding.
use vstd::prelude::*;

verus! {

/// The Fibonacci numbers used by Fibonacci coding: 1, 2, 3, 5, 8, ...
pub open spec fn fib(k: nat) -> nat
    decreases k,
{
    if k == 0 {
        1
    } else if k == 1 {
        2
    } else {
        fib((k - 1) as nat) + fib((k - 2) as nat)
    }
}

/// The Fibonacci numbers grow with their index.
pub proof fn lemma_fib_increasing(i: nat, j: nat)
    requires
        i < j,
    ensures
        fib(i) < fib(j),
    decreases j,
{
    if j > 1 {
        lemma_fib_positive((j - 2) as nat);
        if i < j - 1 {
            lemma_fib_increasing(i, (j - 1) as nat);
        }
    }
}

/// Every Fibonacci number is positive.
pub proof fn lemma_fib_positive(k: nat)
    ensures
        fib(k) >= 1,
    decreases k,
{
    if k > 1 {
        lemma_fib_positive((k - 1) as nat);
    }
}

/// An unsigned integer type of fixed width, with the operations that
/// Fibonacci coding needs.
pub trait Unsigned: Copy + Sized {
    /// The mathematical value.
    spec fn spec_value(self) -> int;

    /// One more than the largest value of the type.
    spec fn spec_modulus() -> int;

    /// Every value lies between zero and the modulus.
    proof fn lemma_range(v: Self)
        ensures
            0 <= v.spec_value() < Self::spec_modulus(),
            Self::spec_modulus() >= 256,
    ;

    /// Two values with the same mathematical value are equal.
    proof fn lemma_value_injective(a: Self, b: Self)
        requires
            a.spec_value() == b.spec_value(),
        ensures
            a == b,
    ;

    /// Zero.
    fn zero() -> (r: Self)
        ensures
            r.spec_value() == 0,
    ;

    /// One.
    fn one() -> (r: Self)
        ensures
            r.spec_value() == 1,
    ;

    /// The sum, or `None` when it does not fit.
    fn add_checked(self, other: Self) -> (r: Option<Self>)
        ensures
            match r {
                Some(v) => v.spec_value() == self.spec_value() + other.spec_value(),
                None => self.spec_value() + other.spec_value() >= Self::spec_modulus(),
            },
    ;

    /// The sum modulo the modulus.
    fn add_wrapping(self, other: Self) -> (r: Self)
        ensures
            r.spec_value() == (self.spec_value() + other.spec_value()) % Self::spec_modulus(),
    ;

    /// Whether `self` is below `other`.
    fn less_than(self, other: Self) -> (r: bool)
        ensures
            r == (self.spec_value() < other.spec_value()),
    ;

    /// Whether `self` equals `other`.
    fn equals(self, other: Self) -> (r: bool)
        ensures
            r == (self.spec_value() == other.spec_value()),
    ;

    /// The low bits of `v` as a value of this type.
    fn from_u64_wrapping(v: u64) -> (r: Self)
        ensures
            r.spec_value() == v as int % Self::spec_modulus(),
    ;
}

impl Unsigned for u8 {
    open spec fn spec_value(self) -> int {
        self as int
    }

    open spec fn spec_modulus() -> int {
        0x100
    }

    proof fn lemma_range(v: Self) {
    }

    proof fn lemma_value_injective(a: Self, b: Self) {
    }

    fn zero() -> (r: Self) {
        0
    }

    fn one() -> (r: Self) {
        1
    }

    fn add_checked(self, other: Self) -> (r: Option<Self>) {
        self.checked_add(other)
    }

    fn add_wrapping(self, other: Self) -> (r: Self) {
        if self <= u8::MAX - other {
            self + other
        } else {
            other - (u8::MAX - self) - 1
        }
    }

    fn less_than(self, other: Self) -> (r: bool) {
        self < other
    }

    fn equals(self, other: Self) -> (r: bool) {
        self == other
    }

    fn from_u64_wrapping(v: u64) -> (r: Self) {
        (v % 0x100) as u8
    }
}

impl Unsigned for u16 {
    open spec fn spec_value(self) -> int {
        self as int
    }

    open spec fn spec_modulus() -> int {
        0x10000
    }

    proof fn lemma_range(v: Self) {
    }

    proof fn lemma_value_injective(a: Self, b: Self) {
    }

    fn zero() -> (r: Self) {
        0
    }

    fn one() -> (r: Self) {
        1
    }

    fn add_checked(self, other: Self) -> (r: Option<Self>) {
        self.checked_add(other)
    }

    fn add_wrapping(self, other: Self) -> (r: Self) {
        if self <= u16::MAX - other {
            self + other
        } else {
            other - (u16::MAX - self) - 1
        }
    }

    fn less_than(self, other: Self) -> (r: bool) {
        self < other
    }

    fn equals(self, other: Self) -> (r: bool) {
        self == other
    }

    fn from_u64_wrapping(v: u64) -> (r: Self) {
        (v % 0x10000) as u16
    }
}

impl Unsigned for u32 {
    open spec fn spec_value(self) -> int {
        self as int
    }

    open spec fn spec_modulus() -> int {
        0x1_0000_0000
    }

    proof fn lemma_range(v: Self) {
    }

    proof fn lemma_value_injective(a: Self, b: Self) {
    }

    fn zero() -> (r: Self) {
        0
    }

    fn one() -> (r: Self) {
        1
    }

    fn add_checked(self, other: Self) -> (r: Option<Self>) {
        self.checked_add(other)
    }

    fn add_wrapping(self, other: Self) -> (r: Self) {
        if self <= u32::MAX - other {
            self + other
        } else {
            other - (u32::MAX - self) - 1
        }
    }

    fn less_than(self, other: Self) -> (r: bool) {
        self < other
    }

    fn equals(self, other: Self) -> (r: bool) {
        self == other
    }

    fn from_u64_wrapping(v: u64) -> (r: Self) {
        (v % 0x1_0000_0000) as u32
    }
}

impl Unsigned for u64 {
    open spec fn spec_value(self) -> int {
        self as int
    }

    open spec fn spec_modulus() -> int {
        0x1_0000_0000_0000_0000
    }

    proof fn lemma_range(v: Self) {
    }

    proof fn lemma_value_injective(a: Self, b: Self) {
    }

    fn zero() -> (r: Self) {
        0
    }

    fn one() -> (r: Self) {
        1
    }

    fn add_checked(self, other: Self) -> (r: Option<Self>) {
        self.checked_add(other)
    }

    fn add_wrapping(self, other: Self) -> (r: Self) {
        if self <= u64::MAX - other {
            self + other
        } else {
            other - (u64::MAX - self) - 1
        }
    }

    fn less_than(self, other: Self) -> (r: bool) {
        self < other
    }

    fn equals(self, other: Self) -> (r: bool) {
        self == other
    }

    fn from_u64_wrapping(v: u64) -> (r: Self) {
        v
    }
}

/// The value that the Fibonacci iterator holds before the one it yields next:
/// 1 at the start, then the Fibonacci number before.
pub open spec fn fib_before(k: nat) -> nat {
    if k == 0 {
        1
    } else {
        fib((k - 1) as nat)
    }
}

/// Iterative generic Fibonacci implementation: yields 1, 2, 3, 5, 8, ... and
/// stops after the last number that fits in `T`.
pub struct Fibonacci<T> {
    curr: Option<T>,
    next: Option<T>,
    yielded: Ghost<nat>,
}

impl<T: Unsigned> Fibonacci<T> {
    /// How many numbers this iterator has yielded.
    pub closed spec fn yielded(&self) -> nat {
        self.yielded@
    }

    /// The iterator's internal consistency.
    pub closed spec fn wf(&self) -> bool {
        &&& self.curr matches Some(c) && c.spec_value() == fib_before(self.yielded@)
        &&& fib_before(self.yielded@) < T::spec_modulus()
        &&& if fib(self.yielded@) < T::spec_modulus() {
            self.next matches Some(n) && n.spec_value() == fib(self.yielded@)
        } else {
            self.next is None
        }
    }

    /// Yields the next Fibonacci number, or `None` once they no longer fit in `T`.
    pub fn next(&mut self) -> (r: Option<T>)
        requires
            old(self).wf(),
        ensures
            final(self).wf(),
            match r {
                Some(v) => {
                    &&& v.spec_value() == fib(old(self).yielded())
                    &&& fib(old(self).yielded()) < T::spec_modulus()
                    &&& final(self).yielded() == old(self).yielded() + 1
                },
                None => {
                    &&& fib(old(self).yielded()) >= T::spec_modulus()
                    &&& final(self).yielded() == old(self).yielded()
                },
            },
    {
        let c = match self.curr {
            Some(c) => c,
            None => {
                return None;
            },
        };
        let n = match self.next {
            Some(n) => n,
            None => {
                return None;
            },
        };
        let next = c.add_checked(n);
        proof {
            let k = self.yielded@;
            if k == 0 {
                assert(fib(1) == 2);
            } else {
                assert(fib(k + 1) == fib(k) + fib((k - 1) as nat));
            }
            assert(c.spec_value() + n.spec_value() == fib(k + 1));
            assert(fib_before(k + 1) == fib(k));
            if let Some(v) = next {
                T::lemma_range(v);
            }
        }
        self.curr = self.next;
        self.next = next;
        self.yielded = Ghost((self.yielded@ + 1) as nat);
        self.curr
    }
}

/// Creates a new iterative Fibonacci iterator.
pub fn fibonacci_iterator<T: Unsigned>() -> (r: Fibonacci<T>)
    ensures
        r.wf(),
        r.yielded() == 0,
{
    let init = T::one();
    proof {
        T::lemma_range(init);
    }
    Fibonacci { curr: Some(init), next: Some(init), yielded: Ghost(0) }
}

} // verus!
