//! Console output: strings, and numbers formatted as `{}`, `{:x}` and
//! zero-padded `{:0Nx}` would format them.

use vstd::prelude::*;
use vstd::string::StringSliceAdditionalSpecFns;
use crate::machine::{Ev, Hexagon, RunState, Runtime, putcs};

verus! {

/// The ASCII digit for `d` in bases up to 16 (lower-case letters).
pub open spec fn digit_char(d: nat) -> u8 {
    if d < 10 { (48 + d) as u8 } else { (87 + d) as u8 }
}

/// The digits of `v` in `base`, most significant first, padded with
/// leading zeros to at least `width` digits; `v == 0` with `width <= 1` is
/// the single digit `0`.
pub open spec fn digits(v: nat, base: nat, width: nat) -> Seq<u8>
    decreases v, width,
{
    if base < 2 {
        Seq::empty()
    } else if v < base && width <= 1 {
        seq![digit_char(v)]
    } else {
        let w: nat = if width > 0 { (width - 1) as nat } else { 0 };
        proof {
            assert(v / base <= v) by (nonlinear_arith)
                requires base >= 2;
            assert(v >= base ==> v / base < v) by (nonlinear_arith)
                requires base >= 2;
            assert(v < base ==> v / base == 0) by (nonlinear_arith)
                requires base >= 2;
        }
        digits(v / base, base, w).push(digit_char(v % base))
    }
}

/// `{}` of an unsigned integer.
pub open spec fn dec(v: nat) -> Seq<u8> {
    digits(v, 10, 1)
}

/// `{:x}` of an unsigned integer.
pub open spec fn hex(v: nat) -> Seq<u8> {
    digits(v, 16, 1)
}

/// `{:0Nx}` of an unsigned integer.
pub open spec fn hexw(v: nat, width: nat) -> Seq<u8> {
    digits(v, 16, width)
}

/// The bytes of a string.
pub open spec fn text(s: &str) -> Seq<u8> {
    s.spec_bytes()
}

/// The newline byte.
pub open spec fn nl() -> Seq<u8> {
    seq![10u8]
}

proof fn lemma_putcs_push(b: Seq<u8>, c: u8)
    ensures
        putcs(b.push(c)) == putcs(b).push(Ev::Putc(c)),
{
    assert(putcs(b.push(c)) =~= putcs(b).push(Ev::Putc(c)));
}

proof fn lemma_putcs_append(a: Seq<u8>, b: Seq<u8>)
    ensures
        putcs(a + b) == putcs(a) + putcs(b),
{
    assert(putcs(a + b) =~= putcs(a) + putcs(b));
}

/// Writing two byte strings in turn is writing their concatenation.
pub proof fn lemma_out_append(s: RunState, a: Seq<u8>, b: Seq<u8>)
    ensures
        s.out(a).out(b) == s.out(a + b),
{
    lemma_putcs_append(a, b);
    assert(s.events + putcs(a) + putcs(b) =~= s.events + putcs(a + b));
}

proof fn lemma_out_push(s: RunState, a: Seq<u8>, c: u8)
    ensures
        s.out(a).ev(Ev::Putc(c)) == s.out(a.push(c)),
{
    lemma_putcs_push(a, c);
    assert((s.events + putcs(a)).push(Ev::Putc(c)) =~= s.events + putcs(a.push(c)));
}

impl<M: Hexagon> Runtime<M> {
    /// Write a byte string to the console, byte by byte.
    pub fn put_bytes(&mut self, bytes: &[u8])
        ensures
            final(self)@ == old(self)@.out(bytes@),
    {
        let ghost s0 = self@;
        let mut i: usize = 0;
        proof {
            assert(putcs(bytes@.take(0)) =~= Seq::<Ev>::empty());
            assert(s0.events + putcs(bytes@.take(0)) =~= s0.events);
        }
        while i < bytes.len()
            invariant
                i <= bytes.len(),
                self@ == s0.out(bytes@.take(i as int)),
            decreases bytes.len() - i,
        {
            let c = bytes[i];
            self.putc(c);
            proof {
                lemma_out_push(s0, bytes@.take(i as int), c);
                assert(bytes@.take(i as int).push(c) =~= bytes@.take(i + 1));
            }
            i = i + 1;
        }
        proof {
            assert(bytes@.take(i as int) =~= bytes@);
        }
    }

    /// Write a string to the console character by character.
    pub fn puts(&mut self, s: &str)
        ensures
            final(self)@ == old(self)@.out(text(s)),
    {
        self.put_bytes(s.as_bytes());
    }

    /// Write a newline.
    pub fn newline(&mut self)
        ensures
            final(self)@ == old(self)@.out(nl()),
    {
        self.putc(10u8);
        proof {
            lemma_out_push(old(self)@, Seq::empty(), 10u8);
            assert(Seq::<u8>::empty().push(10u8) =~= nl());
            assert(old(self)@.out(Seq::empty()) =~= old(self)@);
        }
    }

    /// Write a string followed by a newline.
    pub fn println(&mut self, s: &str)
        ensures
            final(self)@ == old(self)@.out(text(s)).out(nl()),
    {
        self.puts(s);
        self.newline();
    }

    /// Write `v` in `base`, zero-padded to `width` digits.
    pub fn put_digits(&mut self, v: u64, base: u64, width: u32)
        requires
            2 <= base <= 16,
        ensures
            final(self)@ == old(self)@.out(digits(v as nat, base as nat, width as nat)),
        decreases v, width,
    {
        let d = v % base;
        proof {
            assert(v < base ==> v % base == v) by (nonlinear_arith)
                requires base >= 2;
            assert(v / base <= v) by (nonlinear_arith)
                requires base >= 2;
            assert(v >= base ==> v / base < v) by (nonlinear_arith)
                requires base >= 2;
            assert(v < base ==> v / base == 0) by (nonlinear_arith)
                requires base >= 2;
        }
        if v < base && width <= 1 {
            let c: u8 = if d < 10 { 48 + d as u8 } else { 87 + d as u8 };
            self.putc(c);
            proof {
                lemma_out_push(old(self)@, Seq::empty(), c);
                assert(Seq::<u8>::empty().push(c) =~= seq![c]);
                assert(old(self)@.out(Seq::empty()) =~= old(self)@);
            }
        } else {
            let w: u32 = if width > 0 { width - 1 } else { 0 };
            self.put_digits(v / base, base, w);
            let c: u8 = if d < 10 { 48 + d as u8 } else { 87 + d as u8 };
            self.putc(c);
            proof {
                lemma_out_push(old(self)@, digits((v / base) as nat, base as nat, w as nat), c);
            }
        }
    }

    /// Print an unsigned integer as `{}` does.
    pub fn put_dec(&mut self, v: u64)
        ensures
            final(self)@ == old(self)@.out(dec(v as nat)),
    {
        self.put_digits(v, 10, 1)
    }

    /// Print an unsigned integer as `{:x}` does.
    pub fn put_hex(&mut self, v: u64)
        ensures
            final(self)@ == old(self)@.out(hex(v as nat)),
    {
        self.put_digits(v, 16, 1)
    }

    /// Print an unsigned integer as `{:0Nx}` does with `N == width`.
    pub fn put_hexw(&mut self, v: u64, width: u32)
        ensures
            final(self)@ == old(self)@.out(hexw(v as nat, width as nat)),
    {
        self.put_digits(v, 16, width)
    }
}

} // verus!
