//! An in-memory stand-in for the 8250 register block, for running the driver
//! off the chip.
//!
//! Each of the eight slots holds the byte last stored in it, as plain memory
//! does, except that slots 0 and 1 reach the divisor latch instead while the
//! divisor latch access bit (line control bit 7) is set, as on the chip.

use vstd::prelude::*;
use crate::bus::{read_field, rmw, updated, Access, RegisterBus};
use crate::fields::{
    decoded_parity, lemma_byte_fields, with_dlab, without_dlab, divisor_high, divisor_low, divisor_of, lemma_parity_round_trip, lemma_word_length_round_trip,
    with_parity, with_word_length, word_length_of, LineControlError, Parity, LCR, LCR_DLAB,
};
use crate::uart8250::init_ops;

verus! {

/// What a register file holds: the eight slots and the two divisor latch bytes.
pub struct RegisterFileState {
    pub slots: Seq<u8>,
    pub dll: u8,
    pub dlh: u8,
}

/// Whether the divisor latch access bit is set in `s`.
pub open spec fn dlab_set(s: RegisterFileState) -> bool {
    s.slots[LCR as int] >= 128
}

/// The value that a read of slot `offset` returns in state `s`.
pub open spec fn file_read(s: RegisterFileState, offset: usize) -> u8 {
    if offset == 0 && dlab_set(s) {
        s.dll
    } else if offset == 1 && dlab_set(s) {
        s.dlh
    } else {
        s.slots[offset as int]
    }
}

/// The state after a write of `value` to slot `offset` in state `s`.
pub open spec fn file_write(s: RegisterFileState, offset: usize, value: u8) -> RegisterFileState {
    if offset == 0 && dlab_set(s) {
        RegisterFileState { dll: value, ..s }
    } else if offset == 1 && dlab_set(s) {
        RegisterFileState { dlh: value, ..s }
    } else {
        RegisterFileState { slots: s.slots.update(offset as int, value), ..s }
    }
}

/// One access against a register file in state `s`: the next state, or
/// `None` when a read carries another value than the file would return, or
/// the slot is out of range.
pub open spec fn step(s: RegisterFileState, op: Access<u8>) -> Option<RegisterFileState> {
    match op {
        Access::Read(offset, v) => if offset < 8 && file_read(s, offset) == v {
            Some(s)
        } else {
            None
        },
        Access::Write(offset, v) => if offset < 8 {
            Some(file_write(s, offset, v))
        } else {
            None
        },
    }
}

/// Runs the accesses `ops`, oldest first, against a register file in state
/// `s`: the final state, or `None` when some access does not agree with the
/// file.
pub open spec fn run(s: RegisterFileState, ops: Seq<Access<u8>>) -> Option<RegisterFileState>
    decreases ops.len(),
{
    if ops.len() == 0 {
        Some(s)
    } else {
        match run(s, ops.drop_last()) {
            Some(t) => step(t, ops.last()),
            None => None,
        }
    }
}

proof fn lemma_run_push(s: RegisterFileState, ops: Seq<Access<u8>>, op: Access<u8>)
    ensures
        run(s, ops.push(op)) == match run(s, ops) {
            Some(t) => step(t, op),
            None => None,
        },
{
    assert(ops.push(op).drop_last() =~= ops);
}

/// The exact outcome of running the accesses of `init` on a register file.
proof fn lemma_init_run(s: RegisterFileState, d: int, a: u8, c: u8)
    requires
        s.slots.len() == 8,
    ensures
        run(s, init_ops(d, a, c)) == if a == s.slots[LCR as int] && c == s.slots[1] {
            Some(
                RegisterFileState {
                    slots: s.slots.update(2, 1u8).update(4, 0u8).update(3, 3u8).update(1, c | 1u8),
                    dll: divisor_low(d),
                    dlh: divisor_high(d),
                },
            )
        } else {
            None::<RegisterFileState>
        },
{
    let lo = divisor_low(d);
    let hi = divisor_high(d);
    lemma_byte_fields(a);
    let p0 = Seq::<Access<u8>>::empty();
    let p1 = p0.push(Access::Read(LCR, a));
    let p2 = p1.push(Access::Write(LCR, with_dlab(a)));
    let p3 = p2.push(Access::Write(0, lo));
    let p4 = p3.push(Access::Write(1, hi));
    let p5 = p4.push(Access::Write(LCR, without_dlab(a)));
    let p6 = p5.push(Access::Write(LCR, 3u8));
    let p7 = p6.push(Access::Write(2, 1u8));
    let p8 = p7.push(Access::Write(4, 0u8));
    let p9 = p8.push(Access::Read(1, c));
    let p10 = p9.push(Access::Write(1, c | 1u8));
    assert(init_ops(d, a, c) =~= p10);
    assert(run(s, p0) == Some(s));
    lemma_run_push(s, p0, Access::Read(LCR, a));
    lemma_run_push(s, p1, Access::Write(LCR, with_dlab(a)));
    lemma_run_push(s, p2, Access::Write(0, lo));
    lemma_run_push(s, p3, Access::Write(1, hi));
    lemma_run_push(s, p4, Access::Write(LCR, without_dlab(a)));
    lemma_run_push(s, p5, Access::Write(LCR, 3u8));
    lemma_run_push(s, p6, Access::Write(2, 1u8));
    lemma_run_push(s, p7, Access::Write(4, 0u8));
    lemma_run_push(s, p8, Access::Read(1, c));
    lemma_run_push(s, p9, Access::Write(1, c | 1u8));
    if a == s.slots[LCR as int] && c == s.slots[1] {
        let s2 = RegisterFileState { slots: s.slots.update(3, with_dlab(a)), ..s };
        assert(run(s, p2) == Some(s2));
        assert(dlab_set(s2));
        let s4 = RegisterFileState { dll: lo, dlh: hi, ..s2 };
        assert(run(s, p4) == Some(s4));
        let s5 = RegisterFileState { slots: s4.slots.update(3, without_dlab(a)), ..s4 };
        assert(run(s, p5) == Some(s5));
        let s8 = RegisterFileState { slots: s5.slots.update(3, 3u8).update(2, 1u8).update(4, 0u8), ..s5 };
        assert(run(s, p8) == Some(s8));
        assert(!dlab_set(s8));
        assert(file_read(s8, 1) == c);
        let s10 = RegisterFileState { slots: s8.slots.update(1, c | 1u8), ..s8 };
        assert(run(s, p10) == Some(s10));
        assert(s10.slots =~= s.slots.update(2, 1u8).update(4, 0u8).update(3, 3u8).update(1, c | 1u8));
    }
}

/// Initialisation programs the divisor: whatever the register file held,
/// once the accesses of `init` have run on it, the divisor latch holds the
/// low and high bytes of the divisor, which make up the divisor when it is
/// below 65536, and DLAB is clear. Some run of those accesses agrees with
/// the file, so the statement is not vacuous.
pub proof fn lemma_init_programs_divisor(
    s: RegisterFileState,
    clock: usize,
    baud_rate: usize,
    a: u8,
    c: u8,
)
    requires
        s.slots.len() == 8,
        baud_rate > 0,
    ensures
        exists|x: u8, z: u8| #[trigger] run(s, init_ops(divisor_of(clock, baud_rate), x, z)) is Some,
        run(s, init_ops(divisor_of(clock, baud_rate), a, c)) matches Some(t) ==> {
            &&& t.dll == divisor_low(divisor_of(clock, baud_rate))
            &&& t.dlh == divisor_high(divisor_of(clock, baud_rate))
            &&& !dlab_set(t)
            &&& (divisor_of(clock, baud_rate) <= 65535 ==> t.dll + 256 * t.dlh == divisor_of(
                clock,
                baud_rate,
            ))
        },
{
    let d = divisor_of(clock, baud_rate);
    assert(d >= 0) by (nonlinear_arith)
        requires
            d == clock as int / (16 * baud_rate as int),
            baud_rate > 0,
    ;
    lemma_init_run(s, d, a, c);
    let x = s.slots[LCR as int];
    lemma_init_run(s, d, x, s.slots[1]);
    assert(run(s, init_ops(d, x, s.slots[1])) is Some);
}

/// On a register file, reading the word length right after setting it to a
/// length from 5 to 8 gives that length: the accesses of `set_word_length`
/// (from log `l0` and block `b0` to `l1`, `b1`) followed by those of
/// `get_word_length` (to `l2`, `b2`, returning `r`).
pub proof fn lemma_word_length_read_back(
    l0: Seq<Access<u8>>,
    l1: Seq<Access<u8>>,
    l2: Seq<Access<u8>>,
    b0: RegisterFile,
    b1: RegisterFile,
    b2: RegisterFile,
    n: u8,
    r: u8,
)
    requires
        5 <= n <= 8,
        updated(l0, l1, b0, b1, LCR, |v: u8| with_word_length(v, n)),
        read_field(l1, l2, b1, b2, LCR, |v: u8| word_length_of(v), r),
    ensures
        r == n,
{
    let v = choose|v: u8| #![trigger l0.push(Access::Read(LCR, v))] rmw(l0, l1, b0, b1, LCR, v, (|x: u8| with_word_length(x, n))(v));
    lemma_word_length_round_trip(v, n);
}

/// On a register file, reading the parity right after setting it gives the
/// parity set: the accesses of `set_parity` (from log `l0` and block `b0` to
/// `l1`, `b1`) followed by those of `get_parity` (to `l2`, `b2`, returning
/// `r`).
pub proof fn lemma_parity_read_back(
    l0: Seq<Access<u8>>,
    l1: Seq<Access<u8>>,
    l2: Seq<Access<u8>>,
    b0: RegisterFile,
    b1: RegisterFile,
    b2: RegisterFile,
    p: Parity,
    r: Result<Parity, LineControlError>,
)
    requires
        updated(l0, l1, b0, b1, LCR, |v: u8| with_parity(v, p)),
        read_field(l1, l2, b1, b2, LCR, |v: u8| decoded_parity(v), r),
    ensures
        r == Ok::<Parity, LineControlError>(p),
{
    let v = choose|v: u8| #![trigger l0.push(Access::Read(LCR, v))] rmw(l0, l1, b0, b1, LCR, v, (|x: u8| with_parity(x, p))(v));
    lemma_parity_round_trip(v, p);
}

/// On a register file, setting the same parity twice leaves the file as
/// setting it once does: the accesses of `set_parity` from `b0` to `b1`,
/// then again from `b1` to `b2`.
pub proof fn lemma_parity_idempotent(
    l0: Seq<Access<u8>>,
    l1: Seq<Access<u8>>,
    l2: Seq<Access<u8>>,
    b0: RegisterFile,
    b1: RegisterFile,
    b2: RegisterFile,
    p: Parity,
)
    requires
        updated(l0, l1, b0, b1, LCR, |v: u8| with_parity(v, p)),
        updated(l1, l2, b1, b2, LCR, |v: u8| with_parity(v, p)),
    ensures
        b2@ == b1@,
{
    let v = choose|v: u8| #![trigger l0.push(Access::Read(LCR, v))] rmw(l0, l1, b0, b1, LCR, v, (|x: u8| with_parity(x, p))(v));
    let w = choose|w: u8| #![trigger l1.push(Access::Read(LCR, w))] rmw(l1, l2, b1, b2, LCR, w, (|x: u8| with_parity(x, p))(w));
    lemma_parity_round_trip(v, p);
    assert(b1@.slots[LCR as int] == with_parity(v, p));
    assert(w == with_parity(v, p));
    assert(b2@.slots =~= b1@.slots);
}

/// An 8250 register block held in memory.
pub struct RegisterFile {
    slots: [u8; 8],
    dll: u8,
    dlh: u8,
}

impl View for RegisterFile {
    type V = RegisterFileState;

    closed spec fn view(&self) -> RegisterFileState {
        RegisterFileState { slots: self.slots@, dll: self.dll, dlh: self.dlh }
    }
}

impl RegisterFile {
    /// A register file with every slot and both divisor latch bytes set to `fill`.
    pub fn new(fill: u8) -> (r: RegisterFile)
        ensures
            r@.slots == Seq::new(8, |i: int| fill),
            r@.dll == fill,
            r@.dlh == fill,
    {
        let slots = [fill; 8];
        assert(slots@ =~= Seq::new(8, |i: int| fill));
        RegisterFile { slots, dll: fill, dlh: fill }
    }

    /// The byte stored in slot `offset`, whatever DLAB says.
    pub fn get(&self, offset: usize) -> (r: u8)
        requires
            offset < 8,
        ensures
            r == self@.slots[offset as int],
    {
        self.slots[offset]
    }

    /// Stores `value` in slot `offset`, whatever DLAB says.
    pub fn set(&mut self, offset: usize, value: u8)
        requires
            offset < 8,
        ensures
            final(self)@ == (RegisterFileState { slots: old(self)@.slots.update(offset as int, value), ..old(self)@ }),
    {
        self.slots[offset] = value;
    }

    /// The divisor latch low byte.
    pub fn divisor_latch_low(&self) -> (r: u8)
        ensures
            r == self@.dll,
    {
        self.dll
    }

    /// The divisor latch high byte.
    pub fn divisor_latch_high(&self) -> (r: u8)
        ensures
            r == self@.dlh,
    {
        self.dlh
    }

    /// A read of slot `offset` as the driver sees it.
    pub fn load(&self, offset: usize) -> (r: u8)
        requires
            offset < 8,
        ensures
            r == file_read(self@, offset),
    {
        proof {
            lemma_byte_fields(self.slots[LCR as int]);
        }
        let dlab = self.slots[LCR] & LCR_DLAB != 0;
        if offset == 0 && dlab {
            self.dll
        } else if offset == 1 && dlab {
            self.dlh
        } else {
            self.slots[offset]
        }
    }

    /// A write of `value` to slot `offset` as the driver makes it.
    pub fn store(&mut self, offset: usize, value: u8)
        requires
            offset < 8,
        ensures
            final(self)@ == file_write(old(self)@, offset, value),
    {
        proof {
            lemma_byte_fields(self.slots[LCR as int]);
        }
        let dlab = self.slots[LCR] & LCR_DLAB != 0;
        if offset == 0 && dlab {
            self.dll = value;
        } else if offset == 1 && dlab {
            self.dlh = value;
        } else {
            self.slots[offset] = value;
        }
    }
}

impl RegisterBus<u8> for RegisterFile {
    open spec fn read_spec(&self, offset: usize, value: u8, next: RegisterFile) -> bool {
        value == file_read(self@, offset) && next@ == self@
    }

    open spec fn write_spec(&self, offset: usize, value: u8, next: RegisterFile) -> bool {
        next@ == file_write(self@, offset, value)
    }

    fn read(&mut self, offset: usize) -> u8 {
        self.load(offset)
    }

    fn write(&mut self, offset: usize, value: u8) {
        self.store(offset, value)
    }
}

} // verus!
