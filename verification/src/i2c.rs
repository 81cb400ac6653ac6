//! I2C master: baud divider search, the single-slot transaction handoff
//! between the foreground and the interrupt context, and the per-interrupt
//! protocol engine.
//!
//! The controller is driven through a plain-value model of its registers
//! ([`I2cRegisters`]); the model also records every byte written to the data
//! register, oldest first, which is the sequence the peripheral clocks onto
//! the bus.

use vstd::prelude::*;
use vstd::pervasive::unreached;

verus! {

/// The fixed table of SCL divider values the controller supports, in the
/// order the hardware manual lists their register encodings.
pub open spec fn spec_divisions() -> Seq<u32> {
    seq![
        20u32, 22, 24, 26, 28, 30, 32, 34, 36, 40, 44, 48, 52, 56, 60, 64, 68, 72, 80, 88, 96,
        104, 112, 128, 136, 144, 160, 176, 192, 224, 240, 256, 288, 320, 352, 384, 448, 480, 512,
        576, 640, 768, 896, 960, 1024, 1152, 1280, 1536, 1920, 1792, 2048, 2304, 2560, 3072, 3840,
    ]
}

/// The fixed set of multiplier values crossed with the divider table.
pub open spec fn spec_mult(j: int) -> u32 {
    if j == 0 {
        1
    } else if j == 1 {
        2
    } else {
        4
    }
}

/// The bus frequency divided by the combined divider of table entry `i` and
/// multiplier entry `j`.
pub open spec fn spec_scl_freq(bus: u32, i: int, j: int) -> int {
    bus as int / (spec_divisions()[i] * spec_mult(j)) as int
}

/// Absolute distance between the frequency a divider combination yields and
/// the requested target.
pub open spec fn spec_freq_distance(target: u32, bus: u32, i: int, j: int) -> int {
    let c = spec_scl_freq(bus, i, j);
    if c >= target {
        c - target
    } else {
        target - c
    }
}

/// Divider table entry `i`.
fn division_at(i: usize) -> (d: u32)
    requires
        i < 55,
    ensures
        d == spec_divisions()[i as int],
        20 <= d <= 3840,
{
    match i {
        0 => 20,
        1 => 22,
        2 => 24,
        3 => 26,
        4 => 28,
        5 => 30,
        6 => 32,
        7 => 34,
        8 => 36,
        9 => 40,
        10 => 44,
        11 => 48,
        12 => 52,
        13 => 56,
        14 => 60,
        15 => 64,
        16 => 68,
        17 => 72,
        18 => 80,
        19 => 88,
        20 => 96,
        21 => 104,
        22 => 112,
        23 => 128,
        24 => 136,
        25 => 144,
        26 => 160,
        27 => 176,
        28 => 192,
        29 => 224,
        30 => 240,
        31 => 256,
        32 => 288,
        33 => 320,
        34 => 352,
        35 => 384,
        36 => 448,
        37 => 480,
        38 => 512,
        39 => 576,
        40 => 640,
        41 => 768,
        42 => 896,
        43 => 960,
        44 => 1024,
        45 => 1152,
        46 => 1280,
        47 => 1536,
        48 => 1920,
        49 => 1792,
        50 => 2048,
        51 => 2304,
        52 => 2560,
        53 => 3072,
        54 => 3840,
        _ => unreached(),
    }
}

/// Multiplier table entry `j`.
fn mult_at(j: usize) -> (m: u32)
    requires
        j < 3,
    ensures
        m == spec_mult(j as int),
        1 <= m <= 4,
{
    match j {
        0 => 1,
        1 => 2,
        _ => 4,
    }
}

/// Searches the divider table crossed with the multiplier set for the
/// combination whose SCL frequency `bus / (divider * multiplier)` lies
/// closest to `target`. Ties keep the first combination in table order
/// (divider index first, then multiplier index). Returns the multiplier
/// index and the divider index, which are the two register encodings.
pub fn find_freq(target: u32, bus: u32) -> (r: (u8, u8))
    ensures
        r.0 < 3,
        r.1 < 55,
        forall|i: int, j: int|
            0 <= i < 55 && 0 <= j < 3 ==> spec_freq_distance(target, bus, r.1 as int, r.0 as int)
                <= #[trigger] spec_freq_distance(target, bus, i, j),
        forall|i: int, j: int|
            0 <= i < 55 && 0 <= j < 3 && i * 3 + j < r.1 as int * 3 + r.0 as int
                ==> #[trigger] spec_freq_distance(target, bus, i, j) > spec_freq_distance(
                target,
                bus,
                r.1 as int,
                r.0 as int,
            ),
{
    let mut distance: u32 = u32::MAX;
    let mut idx: usize = 0;
    let mut mul: usize = 0;

    let mut i: usize = 0;
    while i < 55
        invariant
            i <= 55,
            idx < 55,
            mul < 3,
            i == 0 ==> idx == 0 && mul == 0 && distance == u32::MAX,
            i > 0 ==> idx as int * 3 + mul < i as int * 3,
            i > 0 ==> distance == spec_freq_distance(target, bus, idx as int, mul as int),
            forall|p: int, q: int|
                0 <= p < 55 && 0 <= q < 3 && p * 3 + q < i as int * 3
                    ==> #[trigger] spec_freq_distance(target, bus, p, q) >= distance,
            forall|p: int, q: int|
                0 <= p < 55 && 0 <= q < 3 && p * 3 + q < i as int * 3 && p * 3 + q < idx as int * 3
                    + mul ==> #[trigger] spec_freq_distance(target, bus, p, q) > distance,
        decreases 55 - i,
    {
        let d = division_at(i);
        let mut j: usize = 0;
        while j < 3
            invariant
                i < 55,
                j <= 3,
                idx < 55,
                mul < 3,
                d == spec_divisions()[i as int],
                20 <= d <= 3840,
                i as int * 3 + j == 0 ==> idx == 0 && mul == 0 && distance == u32::MAX,
                i as int * 3 + j > 0 ==> idx as int * 3 + mul < i as int * 3 + j,
                i as int * 3 + j > 0 ==> distance == spec_freq_distance(
                    target,
                    bus,
                    idx as int,
                    mul as int,
                ),
                forall|p: int, q: int|
                    0 <= p < 55 && 0 <= q < 3 && p * 3 + q < i as int * 3 + j
                        ==> #[trigger] spec_freq_distance(target, bus, p, q) >= distance,
                forall|p: int, q: int|
                    0 <= p < 55 && 0 <= q < 3 && p * 3 + q < i as int * 3 + j && p * 3 + q
                        < idx as int * 3 + mul ==> #[trigger] spec_freq_distance(target, bus, p, q)
                        > distance,
            decreases 3 - j,
        {
            let m = mult_at(j);
            proof {
                assert(20 <= d * m <= 15360) by (nonlinear_arith)
                    requires
                        20 <= d <= 3840,
                        1 <= m <= 4,
                ;
            }
            let calc = bus / (d * m);
            let diff = if calc > target {
                calc - target
            } else {
                target - calc
            };
            assert(diff == spec_freq_distance(target, bus, i as int, j as int));
            if distance > diff {
                distance = diff;
                idx = i;
                mul = j;
            }
            j = j + 1;
        }
        i = i + 1;
    }
    (mul as u8, idx as u8)
}

/// Plain-value model of the I2C controller registers. Control fields mirror
/// the hardware bits; `written` records every byte stored to the data
/// register, oldest first, which is the sequence the peripheral clocks onto
/// the bus.
pub struct I2cRegisters {
    /// Controller enable.
    pub iicen: bool,
    /// Interrupt enable.
    pub iicie: bool,
    /// Master mode: set together with `iicen` this signals start and stop
    /// conditions; clearing it releases mastership of the bus.
    pub mst: bool,
    /// Transmit direction: the controller drives the data line when set.
    pub tx: bool,
    /// Transmit-acknowledge suppress: no acknowledge is sent for received
    /// bytes when set, the signal for "no more bytes wanted".
    pub txak: bool,
    /// Baud multiplier field, an index into the multiplier table.
    pub mult: u8,
    /// Baud divider field, an index into the divider table.
    pub icr: u8,
    /// Status: the peer did not acknowledge the last byte when set.
    pub rxak: bool,
    /// Status: interrupt pending; cleared at the top of every handler run.
    pub iicif: bool,
    /// Data register: a write loads the byte to transmit, a read drains the
    /// last received byte.
    pub data: u8,
    /// Every byte written to the data register, oldest first.
    pub written: Vec<u8>,
}

impl I2cRegisters {
    /// The controller state after reset: everything disabled, nothing
    /// pending, nothing on the bus.
    pub fn reset() -> (r: I2cRegisters)
        ensures
            !r.iicen,
            !r.iicie,
            !r.mst,
            !r.tx,
            !r.txak,
            r.mult == 0,
            r.icr == 0,
            !r.rxak,
            !r.iicif,
            r.data == 0,
            r.written@ == Seq::<u8>::empty(),
    {
        I2cRegisters {
            iicen: false,
            iicie: false,
            mst: false,
            tx: false,
            txak: false,
            mult: 0,
            icr: 0,
            rxak: false,
            iicif: false,
            data: 0,
            written: Vec::new(),
        }
    }
}

/// The configuration bits of two register models agree; only the data
/// register and the bus log may differ.
pub open spec fn same_config(a: I2cRegisters, b: I2cRegisters) -> bool {
    &&& a.iicen == b.iicen
    &&& a.iicie == b.iicie
    &&& a.mst == b.mst
    &&& a.tx == b.tx
    &&& a.txak == b.txak
    &&& a.mult == b.mult
    &&& a.icr == b.icr
}

/// Nothing was written to the data register between the two models.
pub open spec fn same_bus(a: I2cRegisters, b: I2cRegisters) -> bool {
    &&& a.data == b.data
    &&& a.written@ == b.written@
}

/// Transaction kind. A primary-transmit transaction carries the bytes to
/// send; a primary-receive transaction carries the buffer the received bytes
/// fill. The secondary kinds are reserved and unimplemented.
pub enum I2CMode {
    /// Master transmit, with the bytes to send.
    PrimaryTx(Vec<u8>),
    /// Master receive, with the buffer to fill.
    PrimaryRx(Vec<u8>),
    /// Reserved: secondary transmit is unimplemented.
    SecondaryTx,
    /// Reserved: secondary receive is unimplemented.
    SecondaryRx,
}

/// Transaction progress cursor, a strict linear progression: the address
/// byte is pending, then clocked out, then the data phase counts bytes.
#[derive(Clone, Copy, Debug, PartialEq, Eq, Structural)]
pub enum I2CStatus {
    /// The address byte still has to be sent.
    AddressSend(u8),
    /// The address byte has been clocked out; the next interrupt learns
    /// whether the peer acknowledged it.
    AddressSent,
    /// Data phase: the byte index the next interrupt works on.
    Run(usize),
}

/// One in-flight transaction: its kind, its progress cursor, and the
/// completion flag the waiting foreground call observes.
pub struct I2CState {
    /// Transaction kind, carrying the caller's buffer.
    pub mode: I2CMode,
    /// Progress cursor.
    pub status: I2CStatus,
    /// Set by the engine on the final step; the foreground wait unblocks on
    /// it and the transaction is then logically destroyed.
    pub done: bool,
}

/// The kind is master transmit.
pub open spec fn is_primary_tx(m: I2CMode) -> bool {
    m is PrimaryTx
}

/// The kind is master receive.
pub open spec fn is_primary_rx(m: I2CMode) -> bool {
    m is PrimaryRx
}

/// The buffer a transaction kind carries.
pub open spec fn mode_buffer(m: I2CMode) -> Seq<u8> {
    match m {
        I2CMode::PrimaryTx(b) => b@,
        I2CMode::PrimaryRx(b) => b@,
        _ => Seq::empty(),
    }
}

/// Two transaction kinds agree: same kind, same buffer contents.
pub open spec fn mode_eq(a: I2CMode, b: I2CMode) -> bool {
    match (a, b) {
        (I2CMode::PrimaryTx(x), I2CMode::PrimaryTx(y)) => x@ == y@,
        (I2CMode::PrimaryRx(x), I2CMode::PrimaryRx(y)) => x@ == y@,
        (I2CMode::SecondaryTx, I2CMode::SecondaryTx) => true,
        (I2CMode::SecondaryRx, I2CMode::SecondaryRx) => true,
        _ => false,
    }
}

/// Two transaction states agree in kind, buffer, cursor and flag.
pub open spec fn state_eq(a: I2CState, b: I2CState) -> bool {
    &&& mode_eq(a.mode, b.mode)
    &&& a.status == b.status
    &&& a.done == b.done
}

impl I2CState {
    /// A transaction the engine can run: its kind is one of the implemented
    /// primary ones, a receive buffer is never empty, and an unfinished
    /// receive cursor stays inside the buffer.
    pub open spec fn wf(&self) -> bool {
        &&& (is_primary_tx(self.mode) || is_primary_rx(self.mode))
        &&& (is_primary_rx(self.mode) ==> mode_buffer(self.mode).len() >= 1)
        &&& (match self.status {
            I2CStatus::Run(n) => is_primary_rx(self.mode) && !self.done ==> n < mode_buffer(
                self.mode,
            ).len(),
            _ => true,
        })
    }

    /// Builds the initial transaction for `mode`: the address byte is still
    /// to be sent and the completion flag is clear.
    pub fn new(mode: I2CMode, address: u8) -> (r: I2CState)
        ensures
            mode_eq(r.mode, mode),
            r.status == I2CStatus::AddressSend(address),
            !r.done,
    {
        I2CState { mode, status: I2CStatus::AddressSend(address), done: false }
    }
}

/// The single-slot mailbox holding the at most one in-flight transaction.
/// The foreground installs a transaction; the interrupt context then holds
/// exclusive mutation rights until it sets the completion flag, which is the
/// boundary at which the slot counts as vacated.
///
/// There is exactly one interrupt context and it is not re-entrant, so an
/// engine step never finds the slot mid-mutation: the only spurious-interrupt
/// cases are an empty slot and a completed occupant.
pub struct TransactionSlot {
    /// The occupying transaction, if any.
    pub state: Option<I2CState>,
}

impl TransactionSlot {
    /// Whatever occupies the slot is a transaction the engine can run.
    pub open spec fn wf(&self) -> bool {
        match self.state {
            Some(s) => s.wf(),
            None => true,
        }
    }

    /// An empty slot.
    pub fn new() -> (r: TransactionSlot)
        ensures
            r.state is None,
            r.wf(),
    {
        TransactionSlot { state: None }
    }

    /// Installs a transaction unless the slot still holds an uncompleted
    /// one. A completed occupant counts as vacated and is superseded; an
    /// uncompleted occupant is left untouched and the call reports failure.
    pub fn try_install(&mut self, st: I2CState) -> (r: bool)
        requires
            old(self).wf(),
            st.wf(),
        ensures
            final(self).wf(),
            match old(self).state {
                Some(prev) => !prev.done ==> !r && (final(self).state matches Some(cur)
                    && state_eq(cur, prev)),
                None => true,
            },
            (match old(self).state {
                Some(prev) => prev.done,
                None => true,
            }) ==> r && (final(self).state matches Some(cur) && state_eq(cur, st)),
    {
        let occupied_uncompleted = match &self.state {
            Some(prev) => !prev.done,
            None => false,
        };
        if occupied_uncompleted {
            false
        } else {
            self.state = Some(st);
            true
        }
    }

    /// Whether the slot holds a transaction whose completion flag is set,
    /// the condition the foreground busy-wait watches for.
    pub fn transaction_done(&self) -> (r: bool)
        ensures
            r == match self.state {
                Some(s) => s.done,
                None => false,
            },
    {
        match &self.state {
            Some(s) => s.done,
            None => false,
        }
    }

    /// Removes and returns a completed transaction, vacating the slot; an
    /// uncompleted or absent one is left in place. Taking the transaction
    /// out is how a receive caller gets its filled buffer back.
    pub fn take_completed(&mut self) -> (r: Option<I2CState>)
        requires
            old(self).wf(),
        ensures
            final(self).wf(),
            match old(self).state {
                Some(prev) => if prev.done {
                    &&& final(self).state is None
                    &&& r matches Some(taken) && state_eq(taken, prev)
                } else {
                    &&& final(self).state matches Some(cur) && state_eq(cur, prev)
                    &&& r is None
                },
                None => final(self).state is None && r is None,
            },
    {
        if self.transaction_done() {
            self.state.take()
        } else {
            None
        }
    }
}

impl I2cRegisters {
    /// Stores a byte in the data register, which loads it for transmission;
    /// the byte joins the bus log.
    fn set_byte(&mut self, byte: u8)
        ensures
            same_config(*old(self), *final(self)),
            final(self).rxak == old(self).rxak,
            final(self).iicif == old(self).iicif,
            final(self).data == byte,
            final(self).written@ == old(self).written@.push(byte),
    {
        self.data = byte;
        self.written.push(byte);
    }

    /// Signals a stop condition: controller enabled and mastership asserted.
    fn stop_signal(&mut self)
        ensures
            stop_issued(*old(self), *final(self)),
            same_bus(*old(self), *final(self)),
            final(self).rxak == old(self).rxak,
            final(self).iicif == old(self).iicif,
    {
        self.iicen = true;
        self.mst = true;
    }
}

/// A stop condition was issued between the two register models: controller
/// enabled and mastership asserted, every other configuration bit untouched.
pub open spec fn stop_issued(a: I2cRegisters, b: I2cRegisters) -> bool {
    &&& b.iicen
    &&& b.mst
    &&& a.iicie == b.iicie
    &&& a.tx == b.tx
    &&& a.txak == b.txak
    &&& a.mult == b.mult
    &&& a.icr == b.icr
}

/// Mastership of the bus was released, every other configuration bit
/// untouched.
pub open spec fn mastership_released(a: I2cRegisters, b: I2cRegisters) -> bool {
    &&& !b.mst
    &&& a.iicen == b.iicen
    &&& a.iicie == b.iicie
    &&& a.tx == b.tx
    &&& a.txak == b.txak
    &&& a.mult == b.mult
    &&& a.icr == b.icr
}

/// The direction was switched to receive, every other configuration bit
/// untouched.
pub open spec fn rx_direction_set(a: I2cRegisters, b: I2cRegisters) -> bool {
    &&& !b.tx
    &&& a.iicen == b.iicen
    &&& a.iicie == b.iicie
    &&& a.mst == b.mst
    &&& a.txak == b.txak
    &&& a.mult == b.mult
    &&& a.icr == b.icr
}

/// Further acknowledges were suppressed, every other configuration bit
/// untouched.
pub open spec fn ack_suppressed(a: I2cRegisters, b: I2cRegisters) -> bool {
    &&& b.txak
    &&& a.iicen == b.iicen
    &&& a.iicie == b.iicie
    &&& a.mst == b.mst
    &&& a.tx == b.tx
    &&& a.mult == b.mult
    &&& a.icr == b.icr
}

impl I2CState {
    /// Whether the transaction transmits.
    fn is_tx(&self) -> (r: bool)
        ensures
            r == is_primary_tx(self.mode),
    {
        match &self.mode {
            I2CMode::PrimaryTx(_) => true,
            _ => false,
        }
    }

    /// Loads `byte` for transmission if the peer acknowledged the previous
    /// one; on a missing acknowledge releases mastership and marks the
    /// transaction done instead.
    fn send_byte(&mut self, regs: &mut I2cRegisters, byte: u8)
        ensures
            mode_eq(final(self).mode, old(self).mode),
            final(self).status == old(self).status,
            final(regs).rxak == old(regs).rxak,
            final(regs).iicif == old(regs).iicif,
            if !old(regs).rxak {
                &&& final(self).done == old(self).done
                &&& same_config(*old(regs), *final(regs))
                &&& final(regs).data == byte
                &&& final(regs).written@ == old(regs).written@.push(byte)
            } else {
                &&& final(self).done
                &&& mastership_released(*old(regs), *final(regs))
                &&& same_bus(*old(regs), *final(regs))
            },
    {
        if !regs.rxak {
            regs.set_byte(byte);
        } else {
            regs.mst = false;
            self.done = true;
        }
    }

    /// Fetches the transmit byte at `loc` and advances the cursor past it,
    /// or reports that the buffer is exhausted.
    fn next_byte(&mut self, loc: usize) -> (r: Option<u8>)
        requires
            is_primary_tx(old(self).mode),
        ensures
            mode_eq(final(self).mode, old(self).mode),
            final(self).done == old(self).done,
            r is Some ==> loc < usize::MAX,
            if loc < mode_buffer(old(self).mode).len() {
                &&& r == Some(mode_buffer(old(self).mode)[loc as int])
                &&& final(self).status == I2CStatus::Run((loc + 1) as usize)
            } else {
                &&& r is None
                &&& final(self).status == old(self).status
            },
    {
        let b: Option<u8> = match &self.mode {
            I2CMode::PrimaryTx(buf) => {
                if loc < buf.len() {
                    Some(buf[loc])
                } else {
                    None
                }
            },
            _ => None,
        };
        if b.is_some() {
            self.status = I2CStatus::Run(loc + 1);
        }
        b
    }

    /// One transmit step: sends the next buffer byte and advances, or, with
    /// the buffer exhausted, issues the stop condition and marks the
    /// transaction done.
    fn maybe_transmit(&mut self, regs: &mut I2cRegisters, loc: &mut usize)
        requires
            is_primary_tx(old(self).mode),
        ensures
            mode_eq(final(self).mode, old(self).mode),
            final(regs).rxak == old(regs).rxak,
            final(regs).iicif == old(regs).iicif,
            if *old(loc) < mode_buffer(old(self).mode).len() {
                &&& *final(loc) == *old(loc) + 1
                &&& final(self).status == I2CStatus::Run((*old(loc) + 1) as usize)
                &&& if !old(regs).rxak {
                    &&& final(self).done == old(self).done
                    &&& same_config(*old(regs), *final(regs))
                    &&& final(regs).data == mode_buffer(old(self).mode)[*old(loc) as int]
                    &&& final(regs).written@ == old(regs).written@.push(
                        mode_buffer(old(self).mode)[*old(loc) as int],
                    )
                } else {
                    &&& final(self).done
                    &&& mastership_released(*old(regs), *final(regs))
                    &&& same_bus(*old(regs), *final(regs))
                }
            } else {
                &&& *final(loc) == *old(loc)
                &&& final(self).status == old(self).status
                &&& final(self).done
                &&& stop_issued(*old(regs), *final(regs))
                &&& same_bus(*old(regs), *final(regs))
            },
    {
        match self.next_byte(*loc) {
            Some(b) => {
                self.send_byte(regs, b);
                *loc = *loc + 1;
            },
            None => {
                regs.stop_signal();
                self.done = true;
            },
        }
    }

    /// One receive step: one byte before the last, suppress further
    /// acknowledges; on the last byte, issue the stop condition first and
    /// mark the transaction done; in every case store the just-clocked byte
    /// at the cursor and advance the cursor.
    fn maybe_receive(&mut self, regs: &mut I2cRegisters, loc: &mut usize)
        requires
            is_primary_rx(old(self).mode),
            *old(loc) < mode_buffer(old(self).mode).len(),
        ensures
            is_primary_rx(final(self).mode),
            mode_buffer(final(self).mode) == mode_buffer(old(self).mode).update(
                *old(loc) as int,
                old(regs).data,
            ),
            final(self).status == old(self).status,
            *final(loc) == *old(loc) + 1,
            final(self).done == (*old(loc) + 1 == mode_buffer(old(self).mode).len() || old(
                self,
            ).done),
            same_bus(*old(regs), *final(regs)),
            final(regs).rxak == old(regs).rxak,
            final(regs).iicif == old(regs).iicif,
            if *old(loc) + 1 == mode_buffer(old(self).mode).len() {
                stop_issued(*old(regs), *final(regs))
            } else if *old(loc) + 2 == mode_buffer(old(self).mode).len() {
                ack_suppressed(*old(regs), *final(regs))
            } else {
                same_config(*old(regs), *final(regs))
            },
    {
        let len = match &self.mode {
            I2CMode::PrimaryRx(buf) => buf.len(),
            _ => 0,
        };
        if *loc + 1 == len {
            regs.stop_signal();
            self.done = true;
        } else if *loc + 2 == len {
            regs.txak = true;
        }
        let byte = regs.data;
        match &mut self.mode {
            I2CMode::PrimaryRx(buf) => {
                buf[*loc] = byte;
            },
            _ => {},
        }
        *loc = *loc + 1;
    }
}

/// What one engine step leaves of an uncompleted, runnable transaction and
/// of the registers, as a relation between the values before and after. The
/// pending-interrupt flag and the acknowledge status are constrained by
/// [`engine_post`], not here.
pub open spec fn dispatch_post(
    st0: I2CState,
    r0: I2cRegisters,
    st1: I2CState,
    r1: I2cRegisters,
) -> bool
    recommends
        st0.wf(),
        !st0.done,
{
    match st0.status {
        I2CStatus::AddressSend(addr) => {
            &&& mode_eq(st1.mode, st0.mode)
            &&& st1.status == I2CStatus::AddressSent
            &&& st1.done == st0.done
            &&& same_config(r0, r1)
            &&& r1.data == addr
            &&& r1.written@ == r0.written@.push(addr)
        },
        I2CStatus::AddressSent => {
            if !r0.rxak {
                if is_primary_tx(st0.mode) {
                    let buf = mode_buffer(st0.mode);
                    if buf.len() > 0 {
                        &&& mode_eq(st1.mode, st0.mode)
                        &&& st1.status == I2CStatus::Run(1usize)
                        &&& st1.done == st0.done
                        &&& same_config(r0, r1)
                        &&& r1.data == buf[0]
                        &&& r1.written@ == r0.written@.push(buf[0])
                    } else {
                        &&& mode_eq(st1.mode, st0.mode)
                        &&& st1.status == I2CStatus::Run(0usize)
                        &&& st1.done
                        &&& stop_issued(r0, r1)
                        &&& same_bus(r0, r1)
                    }
                } else {
                    &&& mode_eq(st1.mode, st0.mode)
                    &&& st1.status == I2CStatus::Run(0usize)
                    &&& st1.done == st0.done
                    &&& rx_direction_set(r0, r1)
                    &&& same_bus(r0, r1)
                }
            } else {
                // An unacknowledged address is not aborted: the transaction
                // falls into the data phase with nothing sent, and the data
                // phase's own acknowledge check ends it.
                &&& mode_eq(st1.mode, st0.mode)
                &&& st1.status == I2CStatus::Run(0usize)
                &&& st1.done == st0.done
                &&& same_config(r0, r1)
                &&& same_bus(r0, r1)
            }
        },
        I2CStatus::Run(n) => {
            if is_primary_tx(st0.mode) {
                let buf = mode_buffer(st0.mode);
                if n < buf.len() {
                    if !r0.rxak {
                        &&& mode_eq(st1.mode, st0.mode)
                        &&& st1.status == I2CStatus::Run((n + 1) as usize)
                        &&& st1.done == st0.done
                        &&& same_config(r0, r1)
                        &&& r1.data == buf[n as int]
                        &&& r1.written@ == r0.written@.push(buf[n as int])
                    } else {
                        &&& mode_eq(st1.mode, st0.mode)
                        &&& st1.status == I2CStatus::Run((n + 1) as usize)
                        &&& st1.done
                        &&& mastership_released(r0, r1)
                        &&& same_bus(r0, r1)
                    }
                } else {
                    &&& mode_eq(st1.mode, st0.mode)
                    &&& st1.status == st0.status
                    &&& st1.done
                    &&& stop_issued(r0, r1)
                    &&& same_bus(r0, r1)
                }
            } else {
                let buf = mode_buffer(st0.mode);
                &&& is_primary_rx(st1.mode)
                &&& mode_buffer(st1.mode) == buf.update(n as int, r0.data)
                &&& st1.status == I2CStatus::Run((n + 1) as usize)
                &&& st1.done == (n + 1 == buf.len())
                &&& same_bus(r0, r1)
                &&& if n + 1 == buf.len() {
                    stop_issued(r0, r1)
                } else if n + 2 == buf.len() {
                    ack_suppressed(r0, r1)
                } else {
                    same_config(r0, r1)
                }
            }
        },
    }
}

/// What one interrupt leaves of the slot and the registers. The pending
/// flag is cleared no matter what; an empty slot or a completed occupant is
/// a spurious interrupt that changes nothing else; an uncompleted occupant
/// advances by one [`dispatch_post`] step. The engine never touches the
/// acknowledge status: the hardware owns it.
pub open spec fn engine_post(
    s0: Option<I2CState>,
    r0: I2cRegisters,
    s1: Option<I2CState>,
    r1: I2cRegisters,
) -> bool {
    &&& !r1.iicif
    &&& r1.rxak == r0.rxak
    &&& match s0 {
        None => s1 is None && same_config(r0, r1) && same_bus(r0, r1),
        Some(st0) => if st0.done {
            &&& s1 matches Some(st1) && state_eq(st1, st0)
            &&& same_config(r0, r1)
            &&& same_bus(r0, r1)
        } else {
            s1 matches Some(st1) && dispatch_post(st0, r0, st1, r1)
        },
    }
}

/// The interrupt handler body: clears the pending flag no matter what, then
/// advances whatever uncompleted transaction occupies the slot by one
/// protocol step. An empty slot, or one whose occupant has completed, makes
/// the interrupt spurious and it is otherwise ignored.
pub fn i2c0(slot: &mut TransactionSlot, regs: &mut I2cRegisters)
    requires
        old(slot).wf(),
    ensures
        final(slot).wf(),
        engine_post(old(slot).state, *old(regs), final(slot).state, *final(regs)),
{
    // Clear the pending flag first, even on a spurious interrupt: a set flag
    // would re-fire the interrupt forever.
    regs.iicif = false;
    let st_opt = slot.state.take();
    match st_opt {
        None => {},
        Some(mut st) => {
            if st.done {
                slot.state = Some(st);
                return ;
            }
            match st.status {
                I2CStatus::AddressSend(addr) => {
                    regs.set_byte(addr);
                    st.status = I2CStatus::AddressSent;
                },
                I2CStatus::AddressSent => {
                    if !regs.rxak {
                        let mut loc: usize = 0;
                        if st.is_tx() {
                            st.maybe_transmit(regs, &mut loc);
                        } else {
                            regs.tx = false;
                            let _drain: u8 = regs.data;
                        }
                        st.status = I2CStatus::Run(loc);
                    } else {
                        st.status = I2CStatus::Run(0);
                    }
                },
                I2CStatus::Run(n) => {
                    let mut loc: usize = n;
                    if st.is_tx() {
                        st.maybe_transmit(regs, &mut loc);
                    } else {
                        st.maybe_receive(regs, &mut loc);
                        st.status = I2CStatus::Run(loc);
                    }
                },
            }
            slot.state = Some(st);
        },
    }
}

/// Base capability every I2C pin token carries; implemented only by the
/// tokens this crate defines, so no foreign pin can pose as one.
pub trait Sealed {

}

/// Capability of a pin wired as the I2C data line.
pub trait Sda: Sealed {

}

/// Capability of a pin wired as the I2C clock line.
pub trait Scl: Sealed {

}

/// Token from the pin-configuration collaborator asserting that port B pin 2
/// is in its I2C alternate function, where it carries the data line.
pub struct Ptb2Alt2;

/// Token from the pin-configuration collaborator asserting that port B pin 3
/// is in its I2C alternate function, where it carries the clock line.
pub struct Ptb3Alt2;

impl Sealed for Ptb2Alt2 {

}

impl Sda for Ptb2Alt2 {

}

impl Sealed for Ptb3Alt2 {

}

impl Scl for Ptb3Alt2 {

}

/// The I2C controller: its register model, the transaction slot shared with
/// the interrupt context, and the pin tokens proving the bus is wired.
pub struct I2C0<SDA, SCL> {
    /// Model of the controller registers.
    pub regs: I2cRegisters,
    /// The single-slot transaction mailbox.
    pub slot: TransactionSlot,
    /// The data-line pin token.
    pub sda: SDA,
    /// The clock-line pin token.
    pub scl: SCL,
}

impl<SDA: Sda, SCL: Scl> I2C0<SDA, SCL> {
    /// Takes the controller at reset, programs the baud divider fields to
    /// the combination whose SCL frequency lies closest to `baud` given the
    /// peripheral `bus` frequency, and enables the controller in master
    /// mode. Requires both pin capability tokens.
    pub fn i2c0(pins: (SDA, SCL), baud: u32, bus: u32) -> (r: Self)
        ensures
            r.regs.mult < 3,
            r.regs.icr < 55,
            forall|i: int, j: int|
                0 <= i < 55 && 0 <= j < 3 ==> spec_freq_distance(
                    baud,
                    bus,
                    r.regs.icr as int,
                    r.regs.mult as int,
                ) <= #[trigger] spec_freq_distance(baud, bus, i, j),
            forall|i: int, j: int|
                0 <= i < 55 && 0 <= j < 3 && i * 3 + j < r.regs.icr as int * 3 + r.regs.mult as int
                    ==> #[trigger] spec_freq_distance(baud, bus, i, j) > spec_freq_distance(
                    baud,
                    bus,
                    r.regs.icr as int,
                    r.regs.mult as int,
                ),
            r.regs.iicen,
            r.regs.mst,
            !r.regs.iicie,
            !r.regs.tx,
            !r.regs.txak,
            !r.regs.rxak,
            !r.regs.iicif,
            r.regs.data == 0,
            r.regs.written@ == Seq::<u8>::empty(),
            r.slot.state is None,
            r.slot.wf(),
    {
        let (ul, icr) = find_freq(baud, bus);
        let mut regs = I2cRegisters::reset();
        regs.mult = ul;
        regs.icr = icr;
        regs.iicen = true;
        regs.mst = true;
        let (sda, scl) = pins;
        I2C0 { regs, slot: TransactionSlot::new(), sda, scl }
    }

    /// Starts a master-transmit transaction: enables the interrupt source
    /// and installs the address-send state into the slot. Fails, leaving the
    /// slot untouched, while an uncompleted transaction occupies it. The
    /// interrupt engine then advances the transaction; the caller waits for
    /// the completion flag and finishes with [`I2C0::finish_transaction`].
    pub fn begin_write(&mut self, address: u8, buffer: Vec<u8>) -> (r: bool)
        requires
            old(self).slot.wf(),
            address < 128,
        ensures
            final(self).slot.wf(),
            final(self).regs == (I2cRegisters { iicie: true, ..old(self).regs }),
            match old(self).slot.state {
                Some(prev) => !prev.done ==> !r && (final(self).slot.state matches Some(cur)
                    && state_eq(cur, prev)),
                None => true,
            },
            (match old(self).slot.state {
                Some(prev) => prev.done,
                None => true,
            }) ==> r && (final(self).slot.state matches Some(cur) && is_primary_tx(cur.mode)
                && mode_buffer(cur.mode) == buffer@ && cur.status == I2CStatus::AddressSend(address)
                && !cur.done),
    {
        self.regs.iicie = true;
        let st = I2CState::new(I2CMode::PrimaryTx(buffer), address);
        self.slot.try_install(st)
    }

    /// Starts a master-receive transaction for as many bytes as `buffer`
    /// holds; the engine overwrites the buffer contents byte by byte. The
    /// buffer must hold at least one byte: a zero-length receive is rejected
    /// here because the receive step addresses the buffer unconditionally.
    /// Fails, leaving the slot untouched, while an uncompleted transaction
    /// occupies it.
    pub fn begin_read(&mut self, address: u8, buffer: Vec<u8>) -> (r: bool)
        requires
            old(self).slot.wf(),
            address < 128,
            buffer@.len() >= 1,
        ensures
            final(self).slot.wf(),
            final(self).regs == (I2cRegisters { iicie: true, ..old(self).regs }),
            match old(self).slot.state {
                Some(prev) => !prev.done ==> !r && (final(self).slot.state matches Some(cur)
                    && state_eq(cur, prev)),
                None => true,
            },
            (match old(self).slot.state {
                Some(prev) => prev.done,
                None => true,
            }) ==> r && (final(self).slot.state matches Some(cur) && is_primary_rx(cur.mode)
                && mode_buffer(cur.mode) == buffer@ && cur.status == I2CStatus::AddressSend(address)
                && !cur.done),
    {
        self.regs.iicie = true;
        let st = I2CState::new(I2CMode::PrimaryRx(buffer), address);
        self.slot.try_install(st)
    }

    /// One hardware interrupt: runs the protocol engine over the slot and
    /// the registers.
    pub fn interrupt(&mut self)
        requires
            old(self).slot.wf(),
        ensures
            final(self).slot.wf(),
            engine_post(
                old(self).slot.state,
                old(self).regs,
                final(self).slot.state,
                final(self).regs,
            ),
    {
        i2c0(&mut self.slot, &mut self.regs);
    }

    /// Disables the interrupt source and removes a completed transaction
    /// from the slot, returning it to the caller; a receive caller finds its
    /// filled buffer inside. An uncompleted transaction stays in place and
    /// `None` is returned.
    pub fn finish_transaction(&mut self) -> (r: Option<I2CState>)
        requires
            old(self).slot.wf(),
        ensures
            final(self).slot.wf(),
            final(self).regs == (I2cRegisters { iicie: false, ..old(self).regs }),
            match old(self).slot.state {
                Some(prev) => if prev.done {
                    &&& final(self).slot.state is None
                    &&& r matches Some(taken) && state_eq(taken, prev)
                } else {
                    &&& final(self).slot.state matches Some(cur) && state_eq(cur, prev)
                    &&& r is None
                },
                None => final(self).slot.state is None && r is None,
            },
    {
        self.regs.iicie = false;
        self.slot.take_completed()
    }
}

} // verus!
