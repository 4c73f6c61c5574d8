//! Register blocks and the access log that drivers keep of them.

use vstd::prelude::*;

verus! {

/// One access made to a register block: the slot index and the value read
/// from it or written to it.
pub enum Access<V> {
    Read(usize, V),
    Write(usize, V),
}

/// A block of up to eight registers, addressed by slot index.
///
/// A block may say what its accesses do through `read_spec` and
/// `write_spec`. On hardware a read may observe values that change on their
/// own and may clear latched conditions, so the defaults allow any outcome;
/// a block held in memory states exactly what it returns and keeps.
pub trait RegisterBus<V>: Sized {
    /// Whether a read of slot `offset` in this state may return `value` and
    /// leave the block as `next`.
    open spec fn read_spec(&self, offset: usize, value: V, next: Self) -> bool {
        true
    }

    /// Whether a write of `value` to slot `offset` in this state may leave
    /// the block as `next`.
    open spec fn write_spec(&self, offset: usize, value: V, next: Self) -> bool {
        true
    }

    /// Reads the register in slot `offset`.
    fn read(&mut self, offset: usize) -> (r: V)
        requires
            offset < 8,
        ensures
            old(self).read_spec(offset, r, *final(self)),
    ;

    /// Writes `value` to the register in slot `offset`.
    fn write(&mut self, offset: usize, value: V)
        requires
            offset < 8,
        ensures
            old(self).write_spec(offset, value, *final(self)),
    ;
}

/// A single read: the log grew by a read of `offset` that returned `v`, and
/// the block went from `b0` to `b1` as such a read may take it.
pub open spec fn read_one<V, B: RegisterBus<V>>(
    before: Seq<Access<V>>,
    after: Seq<Access<V>>,
    b0: B,
    b1: B,
    offset: usize,
    v: V,
) -> bool {
    after == before.push(Access::Read(offset, v)) && b0.read_spec(offset, v, b1)
}

/// A single write: the log grew by a write of `v` to `offset`, and the block
/// went from `b0` to `b1` as such a write may take it.
pub open spec fn wrote_one<V, B: RegisterBus<V>>(
    before: Seq<Access<V>>,
    after: Seq<Access<V>>,
    b0: B,
    b1: B,
    offset: usize,
    v: V,
) -> bool {
    after == before.push(Access::Write(offset, v)) && b0.write_spec(offset, v, b1)
}

/// A bit test: a single read of `offset`, and `r` says whether any bit of
/// `mask` was set in the value read.
pub open spec fn tested_bits<B: RegisterBus<u8>>(
    before: Seq<Access<u8>>,
    after: Seq<Access<u8>>,
    b0: B,
    b1: B,
    offset: usize,
    mask: u8,
    r: bool,
) -> bool {
    exists|v: u8| #![trigger before.push(Access::Read(offset, v))]
        read_one(before, after, b0, b1, offset, v) && r == (v & mask != 0)
}

/// A bit test on a 32-bit register: a single read of `offset`, and `r` says
/// whether any bit of `mask` was set in the value read.
pub open spec fn tested_word_bits<B: RegisterBus<u32>>(
    before: Seq<Access<u32>>,
    after: Seq<Access<u32>>,
    b0: B,
    b1: B,
    offset: usize,
    mask: u32,
    r: bool,
) -> bool {
    exists|v: u32| #![trigger before.push(Access::Read(offset, v))]
        read_one(before, after, b0, b1, offset, v) && r == (v & mask != 0)
}

/// A field read: a single read of `offset`, and `r` is `f` of the value read.
pub open spec fn read_field<V, R, B: RegisterBus<V>>(
    before: Seq<Access<V>>,
    after: Seq<Access<V>>,
    b0: B,
    b1: B,
    offset: usize,
    f: spec_fn(V) -> R,
    r: R,
) -> bool {
    exists|v: V| #![trigger before.push(Access::Read(offset, v))]
        read_one(before, after, b0, b1, offset, v) && r == f(v)
}

/// A read of `offset` that returned `v` followed by a write of `new` to it,
/// taking the block from `b0` through some state to `b1`.
pub open spec fn rmw<V, B: RegisterBus<V>>(
    before: Seq<Access<V>>,
    after: Seq<Access<V>>,
    b0: B,
    b1: B,
    offset: usize,
    v: V,
    new: V,
) -> bool {
    &&& after == before.push(Access::Read(offset, v)).push(Access::Write(offset, new))
    &&& exists|m: B| #[trigger] b0.read_spec(offset, v, m) && m.write_spec(offset, new, b1)
}

/// A read-modify-write: a read of `offset`, then a write of `f` of the value
/// read back to it.
pub open spec fn updated<V, B: RegisterBus<V>>(
    before: Seq<Access<V>>,
    after: Seq<Access<V>>,
    b0: B,
    b1: B,
    offset: usize,
    f: spec_fn(V) -> V,
) -> bool {
    exists|v: V| #![trigger before.push(Access::Read(offset, v))]
        rmw(before, after, b0, b1, offset, v, f(v))
}

/// The accesses of a run of attempts, oldest first: attempt `i` is
/// `op(xs[i], ys[i])`.
pub open spec fn repeated<X, Y, V>(
    op: spec_fn(X, Y) -> Seq<Access<V>>,
    xs: Seq<X>,
    ys: Seq<Y>,
) -> Seq<Access<V>>
    decreases xs.len(),
{
    if xs.len() == 0 {
        Seq::empty()
    } else {
        repeated(op, xs.drop_last(), ys.drop_last()) + op(xs.last(), ys.last())
    }
}

/// One more attempt extends a run by that attempt's accesses.
pub proof fn lemma_repeated_push<X, Y, V>(
    op: spec_fn(X, Y) -> Seq<Access<V>>,
    xs: Seq<X>,
    ys: Seq<Y>,
    x: X,
    y: Y,
)
    ensures
        repeated(op, xs.push(x), ys.push(y)) == repeated(op, xs, ys) + op(x, y),
{
    assert(xs.push(x).drop_last() =~= xs);
    assert(ys.push(y).drop_last() =~= ys);
}

/// A register block together with the log of the accesses made through it.
pub struct LoggedBus<B, V> {
    bus: B,
    log: Ghost<Seq<Access<V>>>,
}

impl<V, B: RegisterBus<V>> LoggedBus<B, V> {
    /// The accesses made so far, oldest first.
    pub closed spec fn accesses(&self) -> Seq<Access<V>> {
        self.log@
    }

    /// The register block.
    pub closed spec fn bus(&self) -> B {
        self.bus
    }

    /// Starts an empty log over `bus`.
    pub fn new(bus: B) -> (r: Self)
        ensures
            r.bus() == bus,
            r.accesses() == Seq::<Access<V>>::empty(),
    {
        LoggedBus { bus, log: Ghost(Seq::empty()) }
    }

    /// Replaces the register block; the log goes on.
    pub fn replace(&mut self, bus: B)
        ensures
            final(self).bus() == bus,
            final(self).accesses() == old(self).accesses(),
    {
        self.bus = bus;
    }

    /// The register block.
    pub fn get_ref(&self) -> (r: &B)
        ensures
            *r == self.bus(),
    {
        &self.bus
    }

    /// The register block, for access that is not logged.
    pub fn get_mut(&mut self) -> (r: &mut B)
        ensures
            *r == old(self).bus(),
            final(self).bus() == *final(r),
            final(self).accesses() == old(self).accesses(),
    {
        &mut self.bus
    }

    /// Reads slot `offset` and logs it.
    pub fn read(&mut self, offset: usize) -> (v: V)
        requires
            offset < 8,
        ensures
            read_one(old(self).accesses(), final(self).accesses(), old(self).bus(), final(self).bus(), offset, v),
    {
        let v = self.bus.read(offset);
        let ghost logged = v;
        self.log = Ghost(self.log@.push(Access::Read(offset, logged)));
        v
    }

    /// Writes `value` to slot `offset` and logs it.
    pub fn write(&mut self, offset: usize, value: V)
        requires
            offset < 8,
        ensures
            wrote_one(old(self).accesses(), final(self).accesses(), old(self).bus(), final(self).bus(), offset, value),
    {
        let ghost logged = value;
        self.bus.write(offset, value);
        self.log = Ghost(self.log@.push(Access::Write(offset, logged)));
    }
}

impl<B: RegisterBus<u8>> LoggedBus<B, u8> {
    /// Reads slot `offset` and tells whether any bit of `mask` is set.
    pub fn test_bits(&mut self, offset: usize, mask: u8) -> (r: bool)
        requires
            offset < 8,
        ensures
            tested_bits(old(self).accesses(), final(self).accesses(), old(self).bus(), final(self).bus(), offset, mask, r),
    {
        let v = self.read(offset);
        v & mask != 0
    }

    /// Read-modify-write of slot `offset`: keeps the bits of `keep` and sets
    /// those of `bits`. Returns the value read.
    pub fn write_field(&mut self, offset: usize, keep: u8, bits: u8) -> (v: u8)
        requires
            offset < 8,
        ensures
            rmw(old(self).accesses(), final(self).accesses(), old(self).bus(), final(self).bus(), offset, v, (v & keep) | bits),
    {
        let v = self.read(offset);
        let ghost m = self.bus();
        self.write(offset, (v & keep) | bits);
        assert(old(self).bus().read_spec(offset, v, m));
        v
    }

    /// Sets the bits of `mask` in slot `offset`. Returns the value read.
    pub fn set_bits(&mut self, offset: usize, mask: u8) -> (v: u8)
        requires
            offset < 8,
        ensures
            rmw(old(self).accesses(), final(self).accesses(), old(self).bus(), final(self).bus(), offset, v, v | mask),
            updated(old(self).accesses(), final(self).accesses(), old(self).bus(), final(self).bus(), offset, |x: u8| x | mask),
    {
        let v = self.read(offset);
        let ghost m = self.bus();
        self.write(offset, v | mask);
        assert(old(self).bus().read_spec(offset, v, m));
        assert(rmw(old(self).accesses(), final(self).accesses(), old(self).bus(), final(self).bus(), offset, v, (|x: u8| x | mask)(v)));
        v
    }

    /// Clears the bits of `mask` in slot `offset`. Returns the value read.
    pub fn clear_bits(&mut self, offset: usize, mask: u8) -> (v: u8)
        requires
            offset < 8,
        ensures
            rmw(old(self).accesses(), final(self).accesses(), old(self).bus(), final(self).bus(), offset, v, v & !mask),
            updated(old(self).accesses(), final(self).accesses(), old(self).bus(), final(self).bus(), offset, |x: u8| x & !mask),
    {
        let v = self.read(offset);
        let ghost m = self.bus();
        self.write(offset, v & !mask);
        assert(old(self).bus().read_spec(offset, v, m));
        assert(rmw(old(self).accesses(), final(self).accesses(), old(self).bus(), final(self).bus(), offset, v, (|x: u8| x & !mask)(v)));
        v
    }
}

impl<B: RegisterBus<u32>> LoggedBus<B, u32> {
    /// Reads slot `offset` and tells whether any bit of `mask` is set.
    pub fn test_word_bits(&mut self, offset: usize, mask: u32) -> (r: bool)
        requires
            offset < 8,
        ensures
            tested_word_bits(old(self).accesses(), final(self).accesses(), old(self).bus(), final(self).bus(), offset, mask, r),
    {
        let v = self.read(offset);
        v & mask != 0
    }

    /// Read-modify-write of slot `offset`: keeps the bits of `keep` and sets
    /// those of `bits`. Returns the value read.
    pub fn write_word_field(&mut self, offset: usize, keep: u32, bits: u32) -> (v: u32)
        requires
            offset < 8,
        ensures
            rmw(old(self).accesses(), final(self).accesses(), old(self).bus(), final(self).bus(), offset, v, (v & keep) | bits),
    {
        let v = self.read(offset);
        let ghost m = self.bus();
        self.write(offset, (v & keep) | bits);
        assert(old(self).bus().read_spec(offset, v, m));
        v
    }

    /// Sets the bits of `mask` in slot `offset`.
    pub fn set_word_bits(&mut self, offset: usize, mask: u32)
        requires
            offset < 8,
        ensures
            updated(old(self).accesses(), final(self).accesses(), old(self).bus(), final(self).bus(), offset, |x: u32| x | mask),
    {
        let v = self.read(offset);
        let ghost m = self.bus();
        self.write(offset, v | mask);
        assert(old(self).bus().read_spec(offset, v, m));
        assert(rmw(old(self).accesses(), final(self).accesses(), old(self).bus(), final(self).bus(), offset, v, (|x: u32| x | mask)(v)));
    }

    /// Clears the bits of `mask` in slot `offset`.
    pub fn clear_word_bits(&mut self, offset: usize, mask: u32)
        requires
            offset < 8,
        ensures
            updated(old(self).accesses(), final(self).accesses(), old(self).bus(), final(self).bus(), offset, |x: u32| x & !mask),
    {
        let v = self.read(offset);
        let ghost m = self.bus();
        self.write(offset, v & !mask);
        assert(old(self).bus().read_spec(offset, v, m));
        assert(rmw(old(self).accesses(), final(self).accesses(), old(self).bus(), final(self).bus(), offset, v, (|x: u32| x & !mask)(v)));
    }

    /// Flips the bits of `mask` in slot `offset`.
    pub fn toggle_word_bits(&mut self, offset: usize, mask: u32)
        requires
            offset < 8,
        ensures
            updated(old(self).accesses(), final(self).accesses(), old(self).bus(), final(self).bus(), offset, |x: u32| x ^ mask),
    {
        let v = self.read(offset);
        let ghost m = self.bus();
        self.write(offset, v ^ mask);
        assert(old(self).bus().read_spec(offset, v, m));
        assert(rmw(old(self).accesses(), final(self).accesses(), old(self).bus(), final(self).bus(), offset, v, (|x: u32| x ^ mask)(v)));
    }
}

/// The width of one hardware register slot that carries a byte-wide register.
///
/// On a bus with 32-bit slots the register's byte is held in the low bits.
pub trait Register: Copy {
    /// The slot's value as a number.
    spec fn value(self) -> nat;

    /// Takes out the register's byte: the low eight bits of the slot.
    fn val(self) -> (r: u8)
        ensures
            r as nat == self.value() % 256,
    ;

    /// The slot value that carries the byte `b`.
    fn from_byte(b: u8) -> (r: Self)
        ensures
            r.value() == b as nat,
    ;
}

impl Register for u8 {
    open spec fn value(self) -> nat {
        self as nat
    }

    fn val(self) -> (r: u8) {
        self
    }

    fn from_byte(b: u8) -> (r: u8) {
        b
    }
}

impl Register for u32 {
    open spec fn value(self) -> nat {
        self as nat
    }

    fn val(self) -> (r: u8) {
        (self % 256) as u8
    }

    fn from_byte(b: u8) -> (r: u32) {
        b as u32
    }
}

} // verus!
