//! The host-mode transaction engine: the exact register-operation sequences
//! of the write, read and write-then-read bus transactions, and a simulated
//! bus that runs them against scripted status and data registers.
//!
//! A transaction is planned as a sequence of [`BusOp`] values. Performing
//! the plan in order against the real registers — aborting as soon as a
//! ready-wait reports a failure — is all a hardware driver has to do; the
//! planning, and everything proved about it, lives here. [`SimBus`] is the
//! in-memory stand-in for the hardware: its status and receive registers
//! are scripts supplied by the caller, and it records every operation
//! performed so that tests and proofs can inspect the trace.

use vstd::prelude::*;

verus! {

/// A classified host-mode bus failure.
#[derive(Clone, Copy, Debug, PartialEq, Eq, Structural)]
pub enum HostError {
    /// Caller-side misuse. Reserved: the engine never raises it.
    Request,
    /// Another bus master won arbitration; recoverable by retry.
    ArbitrationLoss,
    /// A start/stop framing violation was detected.
    StartStop,
}

/// One register operation of a host-mode transaction.
#[derive(Clone, Copy, Debug, PartialEq, Eq, Structural)]
pub enum BusOp {
    /// Poll the status register until the engine is pending, aborting on a
    /// failure flag.
    WaitReady,
    /// Write a byte into the data register.
    SetData(u8),
    /// Issue a start (or repeated start) condition.
    Start,
    /// Tell the engine to continue with the next byte.
    Continue,
    /// Read the received byte out of the data register.
    GetData,
    /// Issue a stop condition.
    Stop,
}

/// One sample of the status register's host-mode flags.
#[derive(Clone, Copy, Debug, PartialEq, Eq, Structural)]
pub struct PollFlags {
    /// The engine is idle or awaits the next instruction.
    pub pending: bool,
    /// Another bus master won arbitration.
    pub arb_loss: bool,
    /// A start/stop framing violation was detected.
    pub start_stop_err: bool,
}

/// What one blocking ready-wait resolves to: `None` for ready, or the
/// classified failure; and the status cursor after it.
pub struct WaitOut {
    pub outcome: Option<HostError>,
    pub sc: int,
}

/// How a blocking ready-wait resolves against a status script, polling from
/// position `sc`. Failure flags are checked before the pending flag, and
/// arbitration loss before framing errors. A script that runs out answers
/// ready ever after.
pub open spec fn spec_resolve(statuses: Seq<PollFlags>, sc: int) -> WaitOut
    decreases statuses.len() - sc,
{
    if sc < 0 || sc >= statuses.len() {
        WaitOut { outcome: None, sc }
    } else {
        let f = statuses[sc];
        if f.arb_loss {
            WaitOut { outcome: Some(HostError::ArbitrationLoss), sc: sc + 1 }
        } else if f.start_stop_err {
            WaitOut { outcome: Some(HostError::StartStop), sc: sc + 1 }
        } else if f.pending {
            WaitOut { outcome: None, sc: sc + 1 }
        } else {
            spec_resolve(statuses, sc + 1)
        }
    }
}

/// The byte a receive script delivers at position `rc`; zero once the
/// script has run out.
pub open spec fn spec_rx_byte(rx: Seq<u8>, rc: int) -> u8 {
    if 0 <= rc < rx.len() {
        rx[rc]
    } else {
        0
    }
}

/// The receive cursor after one byte has been read at position `rc`.
pub open spec fn spec_rx_next(rx: Seq<u8>, rc: int) -> int {
    if 0 <= rc < rx.len() {
        rc + 1
    } else {
        rc
    }
}

/// The complete outcome of running a plan: the failure it aborted with (if
/// any), the script cursors after it, the operations actually performed,
/// and the bytes the reads delivered.
pub struct RunOut {
    pub err: Option<HostError>,
    pub sc: int,
    pub rc: int,
    pub performed: Seq<BusOp>,
    pub got: Seq<u8>,
}

/// Runs the plan `ops` from position `i` onward in state `acc`: each
/// ready-wait resolves against the status script and aborts the run on a
/// failure, each successful operation is appended to the performed trace,
/// and each read consumes the receive script.
pub open spec fn spec_run(
    statuses: Seq<PollFlags>,
    rx: Seq<u8>,
    ops: Seq<BusOp>,
    i: int,
    acc: RunOut,
) -> RunOut
    decreases ops.len() - i,
{
    if acc.err is Some || i < 0 || i >= ops.len() {
        acc
    } else {
        match ops[i] {
            BusOp::WaitReady => {
                let w = spec_resolve(statuses, acc.sc);
                match w.outcome {
                    Option::None => spec_run(
                        statuses,
                        rx,
                        ops,
                        i + 1,
                        RunOut {
                            err: Option::None,
                            sc: w.sc,
                            rc: acc.rc,
                            performed: acc.performed.push(BusOp::WaitReady),
                            got: acc.got,
                        },
                    ),
                    Option::Some(e) => RunOut {
                        err: Option::Some(e),
                        sc: w.sc,
                        rc: acc.rc,
                        performed: acc.performed,
                        got: acc.got,
                    },
                }
            },
            BusOp::GetData => spec_run(
                statuses,
                rx,
                ops,
                i + 1,
                RunOut {
                    err: Option::None,
                    sc: acc.sc,
                    rc: spec_rx_next(rx, acc.rc),
                    performed: acc.performed.push(BusOp::GetData),
                    got: acc.got.push(spec_rx_byte(rx, acc.rc)),
                },
            ),
            op => spec_run(
                statuses,
                rx,
                ops,
                i + 1,
                RunOut {
                    err: Option::None,
                    sc: acc.sc,
                    rc: acc.rc,
                    performed: acc.performed.push(op),
                    got: acc.got,
                },
            ),
        }
    }
}

/// The starting state of a run on a given bus: nothing performed yet,
/// cursors where the bus left them.
pub open spec fn spec_acc0(bus: SimBus) -> RunOut {
    RunOut {
        err: Option::None,
        sc: bus.status_cursor as int,
        rc: bus.rx_cursor as int,
        performed: Seq::empty(),
        got: Seq::empty(),
    }
}

/// A simulated bus: scripted status and receive registers, and a record of
/// every register operation performed against it.
pub struct SimBus {
    /// The status register's scripted answers, one per poll. Once the
    /// script runs out, every poll answers ready.
    pub statuses: Vec<PollFlags>,
    /// How many scripted statuses have been consumed.
    pub status_cursor: usize,
    /// The receive register's scripted bytes, one per read. Once the script
    /// runs out, every read delivers zero.
    pub rx: Vec<u8>,
    /// How many scripted bytes have been consumed.
    pub rx_cursor: usize,
    /// Every operation performed, in order; failed waits record nothing.
    pub performed: Vec<BusOp>,
}

impl SimBus {
    /// The cursors never pass the ends of their scripts.
    pub open spec fn wf(&self) -> bool {
        &&& self.status_cursor <= self.statuses@.len()
        &&& self.rx_cursor <= self.rx@.len()
    }

    /// A fresh simulated bus with the given status and receive scripts.
    pub fn new(statuses: Vec<PollFlags>, rx: Vec<u8>) -> (r: SimBus)
        ensures
            r.statuses == statuses,
            r.rx == rx,
            r.status_cursor == 0,
            r.rx_cursor == 0,
            r.performed@ == Seq::<BusOp>::empty(),
            r.wf(),
    {
        SimBus { statuses, status_cursor: 0, rx: rx, rx_cursor: 0, performed: Vec::new() }
    }

    /// Poll the status script until it answers ready or reports a failure.
    /// On ready the wait is recorded in the performed trace as one
    /// [`BusOp::WaitReady`].
    fn wait_ready(&mut self) -> (r: Option<HostError>)
        requires
            old(self).wf(),
        ensures
            final(self).wf(),
            ({
                let w = spec_resolve(old(self).statuses@, old(self).status_cursor as int);
                &&& r == w.outcome
                &&& final(self).status_cursor == w.sc
                &&& final(self).statuses == old(self).statuses
                &&& final(self).rx == old(self).rx
                &&& final(self).rx_cursor == old(self).rx_cursor
                &&& (r is None ==> final(self).performed@ == old(self).performed@.push(
                    BusOp::WaitReady,
                ))
                &&& (r is Some ==> final(self).performed@ == old(self).performed@)
            }),
    {
        loop
            invariant
                self.wf(),
                self.status_cursor <= self.statuses@.len(),
                spec_resolve(self.statuses@, self.status_cursor as int) == spec_resolve(
                    old(self).statuses@,
                    old(self).status_cursor as int,
                ),
                self.statuses == old(self).statuses,
                self.rx == old(self).rx,
                self.rx_cursor == old(self).rx_cursor,
                self.performed == old(self).performed,
            decreases self.statuses@.len() - self.status_cursor,
        {
            if self.status_cursor >= self.statuses.len() {
                self.performed.push(BusOp::WaitReady);
                return None;
            }
            let f = self.statuses[self.status_cursor];
            self.status_cursor = self.status_cursor + 1;
            if f.arb_loss {
                return Some(HostError::ArbitrationLoss);
            }
            if f.start_stop_err {
                return Some(HostError::StartStop);
            }
            if f.pending {
                self.performed.push(BusOp::WaitReady);
                return None;
            }
        }
    }

    /// Perform a whole plan in order, aborting on the first failed wait.
    /// On completion the collected read bytes are returned; on a failure
    /// the classified error is, and the operations performed up to the
    /// failed wait stay recorded.
    pub fn run(&mut self, ops: &Vec<BusOp>) -> (r: Result<Vec<u8>, HostError>)
        requires
            old(self).wf(),
        ensures
            final(self).wf(),
            ({
                let out = spec_run(
                    old(self).statuses@,
                    old(self).rx@,
                    ops@,
                    0,
                    spec_acc0(*old(self)),
                );
                &&& final(self).statuses == old(self).statuses
                &&& final(self).rx == old(self).rx
                &&& final(self).status_cursor == out.sc
                &&& final(self).rx_cursor == out.rc
                &&& final(self).performed@ == old(self).performed@ + out.performed
                &&& (out.err is None <==> r is Ok)
                &&& (r is Ok ==> r->Ok_0@ == out.got)
                &&& (r is Err ==> Option::Some(r->Err_0) == out.err)
            }),
    {
        let ghost statuses = self.statuses@;
        let ghost rx = self.rx@;
        let ghost performed0 = self.performed@;
        let ghost acc0 = spec_acc0(*self);
        let mut got: Vec<u8> = Vec::new();
        proof {
            assert(self.performed@.skip(performed0.len() as int) =~= Seq::<BusOp>::empty());
            assert(got@ =~= Seq::<u8>::empty());
            assert(self.performed@.subrange(0, performed0.len() as int) =~= performed0);
        }
        let mut i: usize = 0;
        while i < ops.len()
            invariant
                i <= ops@.len(),
                self.wf(),
                self.statuses@ == statuses,
                self.rx@ == rx,
                self.statuses == old(self).statuses,
                self.rx == old(self).rx,
                acc0 == spec_acc0(*old(self)),
                performed0 == old(self).performed@,
                self.performed@.len() >= performed0.len(),
                self.performed@.subrange(0, performed0.len() as int) == performed0,
                spec_run(statuses, rx, ops@, 0, acc0) == spec_run(
                    statuses,
                    rx,
                    ops@,
                    i as int,
                    RunOut {
                        err: Option::None,
                        sc: self.status_cursor as int,
                        rc: self.rx_cursor as int,
                        performed: self.performed@.skip(performed0.len() as int),
                        got: got@,
                    },
                ),
            decreases ops@.len() - i,
        {
            let ghost pre = RunOut {
                err: Option::None,
                sc: self.status_cursor as int,
                rc: self.rx_cursor as int,
                performed: self.performed@.skip(performed0.len() as int),
                got: got@,
            };
            let ghost k = performed0.len() as int;
            let op = ops[i];
            match op {
                BusOp::WaitReady => {
                    match self.wait_ready() {
                        None => {
                            proof {
                                assert(self.performed@.skip(k) =~= pre.performed.push(
                                    BusOp::WaitReady,
                                ));
                                assert(self.performed@.subrange(0, k) =~= performed0);
                            }
                        },
                        Some(e) => {
                            proof {
                                assert(self.performed@ =~= performed0 + pre.performed);
                            }
                            return Err(e);
                        },
                    }
                },
                BusOp::GetData => {
                    let b: u8 = if self.rx_cursor < self.rx.len() {
                        let t = self.rx[self.rx_cursor];
                        self.rx_cursor = self.rx_cursor + 1;
                        t
                    } else {
                        0u8
                    };
                    got.push(b);
                    self.performed.push(BusOp::GetData);
                    proof {
                        assert(self.performed@.skip(k) =~= pre.performed.push(BusOp::GetData));
                        assert(self.performed@.subrange(0, k) =~= performed0);
                    }
                },
                _ => {
                    self.performed.push(op);
                    proof {
                        assert(self.performed@.skip(k) =~= pre.performed.push(op));
                        assert(self.performed@.subrange(0, k) =~= performed0);
                    }
                },
            }
            i = i + 1;
        }
        proof {
            assert(self.performed@ =~= performed0 + self.performed@.skip(performed0.len() as int));
        }
        Ok(got)
    }
}

/// The address byte of a write transaction: the seven-bit address with the
/// direction bit clear.
pub open spec fn spec_addr_wr(address: u8) -> u8 {
    address << 1
}

/// The address byte of a read transaction: the seven-bit address with the
/// direction bit set.
pub open spec fn spec_addr_rd(address: u8) -> u8 {
    (address << 1) | 1
}

/// The per-byte operations of the sending half: wait until ready, write the
/// byte, tell the engine to continue.
pub open spec fn spec_out_ops(data: Seq<u8>) -> Seq<BusOp>
    decreases data.len(),
{
    if data.len() == 0 {
        Seq::empty()
    } else {
        spec_out_ops(data.drop_last()) + seq![
            BusOp::WaitReady,
            BusOp::SetData(data.last()),
            BusOp::Continue,
        ]
    }
}

/// The sending half of a transaction: address the device for writing,
/// issue a start, then send each byte.
pub open spec fn spec_write_phase(address: u8, data: Seq<u8>) -> Seq<BusOp> {
    seq![BusOp::WaitReady, BusOp::SetData(spec_addr_wr(address)), BusOp::Start] + spec_out_ops(data)
}

/// The per-byte operations of the receiving half. For every byte after the
/// first the engine is told to continue before the read, matching the
/// hardware's read-ahead protocol.
pub open spec fn spec_in_ops(n: int) -> Seq<BusOp>
    decreases n,
{
    if n <= 0 {
        Seq::empty()
    } else if n == 1 {
        seq![BusOp::WaitReady, BusOp::GetData]
    } else {
        spec_in_ops(n - 1) + seq![
            BusOp::WaitReady,
            BusOp::Continue,
            BusOp::WaitReady,
            BusOp::GetData,
        ]
    }
}

/// The receiving half of a transaction: address the device for reading,
/// issue a (repeated) start, then read each byte.
pub open spec fn spec_read_phase(address: u8, n: int) -> Seq<BusOp> {
    seq![BusOp::WaitReady, BusOp::SetData(spec_addr_rd(address)), BusOp::Start] + spec_in_ops(n)
}

/// The whole plan of a write transaction: the sending half and a stop.
pub open spec fn spec_write_plan(address: u8, data: Seq<u8>) -> Seq<BusOp> {
    spec_write_phase(address, data).push(BusOp::Stop)
}

/// The whole plan of a read transaction: the receiving half and a stop.
pub open spec fn spec_read_plan(address: u8, n: int) -> Seq<BusOp> {
    spec_read_phase(address, n).push(BusOp::Stop)
}

/// The whole plan of a write-then-read transaction: the sending half, the
/// receiving half opened by a repeated start instead of a stop and start,
/// and a single stop at the very end.
pub open spec fn spec_write_read_plan(address: u8, data: Seq<u8>, n: int) -> Seq<BusOp> {
    (spec_write_phase(address, data) + spec_read_phase(address, n)).push(BusOp::Stop)
}

/// The address byte carrying the transfer direction: the seven-bit address
/// shifted left, with the low bit clear for a write and set for a read.
pub fn addr_mode(address: u8, write: bool) -> (r: u8)
    requires
        address < 128,
    ensures
        write ==> r == spec_addr_wr(address),
        !write ==> r == spec_addr_rd(address),
{
    proof {
        assert((address << 1) | 0 == address << 1) by (bit_vector);
    }
    address << 1 | if write {
        0
    } else {
        1
    }
}

/// Builds the plan of a write transaction.
pub fn plan_write(address: u8, data: &Vec<u8>) -> (r: Vec<BusOp>)
    requires
        address < 128,
    ensures
        r@ == spec_write_plan(address, data@),
{
    let mut ops: Vec<BusOp> = Vec::new();
    push_write_phase(&mut ops, address, data);
    ops.push(BusOp::Stop);
    ops
}

/// Builds the plan of a read transaction of `n` bytes.
pub fn plan_read(address: u8, n: usize) -> (r: Vec<BusOp>)
    requires
        address < 128,
    ensures
        r@ == spec_read_plan(address, n as int),
{
    let mut ops: Vec<BusOp> = Vec::new();
    push_read_phase(&mut ops, address, n);
    ops.push(BusOp::Stop);
    ops
}

/// Builds the plan of a write-then-read transaction.
pub fn plan_write_read(address: u8, data: &Vec<u8>, n: usize) -> (r: Vec<BusOp>)
    requires
        address < 128,
    ensures
        r@ == spec_write_read_plan(address, data@, n as int),
{
    let mut ops: Vec<BusOp> = Vec::new();
    push_write_phase(&mut ops, address, data);
    push_read_phase(&mut ops, address, n);
    ops.push(BusOp::Stop);
    ops
}

/// Appends the sending half of a transaction.
fn push_write_phase(ops: &mut Vec<BusOp>, address: u8, data: &Vec<u8>)
    requires
        address < 128,
    ensures
        final(ops)@ == old(ops)@ + spec_write_phase(address, data@),
{
    let ghost ops0 = ops@;
    ops.push(BusOp::WaitReady);
    ops.push(BusOp::SetData(addr_mode(address, true)));
    ops.push(BusOp::Start);
    proof {
        assert(ops@ =~= ops0 + spec_write_phase(address, data@.take(0)));
    }
    let mut i: usize = 0;
    while i < data.len()
        invariant
            i <= data@.len(),
            address < 128,
            ops@ == ops0 + spec_write_phase(address, data@.take(i as int)),
        decreases data@.len() - i,
    {
        let b = data[i];
        ops.push(BusOp::WaitReady);
        ops.push(BusOp::SetData(b));
        ops.push(BusOp::Continue);
        proof {
            assert(data@.take(i as int + 1).drop_last() =~= data@.take(i as int));
            assert(data@.take(i as int + 1).last() == data@[i as int]);
            assert(ops@ =~= ops0 + spec_write_phase(address, data@.take(i as int + 1)));
        }
        i = i + 1;
    }
    proof {
        assert(data@.take(data@.len() as int) =~= data@);
    }
}

/// Appends the receiving half of a transaction.
fn push_read_phase(ops: &mut Vec<BusOp>, address: u8, n: usize)
    requires
        address < 128,
    ensures
        final(ops)@ == old(ops)@ + spec_read_phase(address, n as int),
{
    let ghost ops0 = ops@;
    ops.push(BusOp::WaitReady);
    ops.push(BusOp::SetData(addr_mode(address, false)));
    ops.push(BusOp::Start);
    proof {
        assert(ops@ =~= ops0 + spec_read_phase(address, 0));
    }
    let mut i: usize = 0;
    while i < n
        invariant
            i <= n,
            address < 128,
            ops@ == ops0 + spec_read_phase(address, i as int),
        decreases n - i,
    {
        if i > 0 {
            ops.push(BusOp::WaitReady);
            ops.push(BusOp::Continue);
        }
        ops.push(BusOp::WaitReady);
        ops.push(BusOp::GetData);
        proof {
            if i == 0 {
                assert(spec_in_ops(1) =~= seq![BusOp::WaitReady, BusOp::GetData]);
            }
            assert(ops@ =~= ops0 + spec_read_phase(address, i as int + 1));
        }
        i = i + 1;
    }
}

/// How many ready-waits a plan or trace holds.
pub open spec fn spec_count_waits(s: Seq<BusOp>) -> int
    decreases s.len(),
{
    if s.len() == 0 {
        0
    } else {
        spec_count_waits(s.drop_last()) + if s.last() is WaitReady {
            1int
        } else {
            0int
        }
    }
}

/// How many start conditions a plan or trace holds.
pub open spec fn spec_count_starts(s: Seq<BusOp>) -> int
    decreases s.len(),
{
    if s.len() == 0 {
        0
    } else {
        spec_count_starts(s.drop_last()) + if s.last() is Start {
            1int
        } else {
            0int
        }
    }
}

/// How many stop conditions a plan or trace holds.
pub open spec fn spec_count_stops(s: Seq<BusOp>) -> int
    decreases s.len(),
{
    if s.len() == 0 {
        0
    } else {
        spec_count_stops(s.drop_last()) + if s.last() is Stop {
            1int
        } else {
            0int
        }
    }
}

/// How many data reads a plan or trace holds.
pub open spec fn spec_count_reads(s: Seq<BusOp>) -> int
    decreases s.len(),
{
    if s.len() == 0 {
        0
    } else {
        spec_count_reads(s.drop_last()) + if s.last() is GetData {
            1int
        } else {
            0int
        }
    }
}

/// All four counts distribute over concatenation.
proof fn lemma_counts_add(a: Seq<BusOp>, b: Seq<BusOp>)
    ensures
        spec_count_waits(a + b) == spec_count_waits(a) + spec_count_waits(b),
        spec_count_starts(a + b) == spec_count_starts(a) + spec_count_starts(b),
        spec_count_stops(a + b) == spec_count_stops(a) + spec_count_stops(b),
        spec_count_reads(a + b) == spec_count_reads(a) + spec_count_reads(b),
    decreases b.len(),
{
    if b.len() == 0 {
        assert(a + b =~= a);
    } else {
        assert((a + b).drop_last() =~= a + b.drop_last());
        assert((a + b).last() == b.last());
        lemma_counts_add(a, b.drop_last());
    }
}

/// The sending half of `data` holds one ready-wait per byte and no start,
/// stop or read of its own.
proof fn lemma_out_ops_shape(data: Seq<u8>)
    ensures
        spec_count_waits(spec_out_ops(data)) == data.len(),
        spec_count_starts(spec_out_ops(data)) == 0,
        spec_count_stops(spec_out_ops(data)) == 0,
        spec_count_reads(spec_out_ops(data)) == 0,
    decreases data.len(),
{
    reveal_with_fuel(spec_count_waits, 5);
    reveal_with_fuel(spec_count_starts, 5);
    reveal_with_fuel(spec_count_stops, 5);
    reveal_with_fuel(spec_count_reads, 5);
    if data.len() == 0 {
    } else {
        lemma_out_ops_shape(data.drop_last());
        lemma_counts_add(
            spec_out_ops(data.drop_last()),
            seq![BusOp::WaitReady, BusOp::SetData(data.last()), BusOp::Continue],
        );
    }
}

/// The receiving half of `n` bytes holds `2 * n - 1` ready-waits (none for
/// zero bytes), one read per byte, and no start or stop of its own.
proof fn lemma_in_ops_shape(n: int)
    requires
        n >= 0,
    ensures
        spec_count_waits(spec_in_ops(n)) == if n == 0 {
            0int
        } else {
            2 * n - 1
        },
        spec_count_starts(spec_in_ops(n)) == 0,
        spec_count_stops(spec_in_ops(n)) == 0,
        spec_count_reads(spec_in_ops(n)) == n,
    decreases n,
{
    reveal_with_fuel(spec_count_waits, 6);
    reveal_with_fuel(spec_count_starts, 6);
    reveal_with_fuel(spec_count_stops, 6);
    reveal_with_fuel(spec_count_reads, 6);
    if n <= 1 {
    } else {
        lemma_in_ops_shape(n - 1);
        lemma_counts_add(
            spec_in_ops(n - 1),
            seq![BusOp::WaitReady, BusOp::Continue, BusOp::WaitReady, BusOp::GetData],
        );
    }
}

/// The write plan of an `N`-byte message holds exactly `N + 1` ready polls
/// (one for the address, one per data byte), exactly one start, and
/// exactly one stop, which is its final operation.
pub proof fn lemma_write_plan_shape(address: u8, data: Seq<u8>)
    ensures
        spec_count_waits(spec_write_plan(address, data)) == data.len() + 1,
        spec_count_starts(spec_write_plan(address, data)) == 1,
        spec_count_stops(spec_write_plan(address, data)) == 1,
        spec_write_plan(address, data).last() is Stop,
        forall|k: int|
            0 <= k < spec_write_plan(address, data).len() - 1 ==> !(#[trigger] spec_write_plan(
                address,
                data,
            )[k] is Stop),
{
    reveal_with_fuel(spec_count_waits, 5);
    reveal_with_fuel(spec_count_starts, 5);
    reveal_with_fuel(spec_count_stops, 5);
    reveal_with_fuel(spec_count_reads, 5);
    let header = seq![BusOp::WaitReady, BusOp::SetData(spec_addr_wr(address)), BusOp::Start];
    lemma_out_ops_shape(data);
    lemma_counts_add(header, spec_out_ops(data));
    lemma_counts_add(spec_write_phase(address, data), seq![BusOp::Stop]);
    assert(spec_write_plan(address, data) =~= spec_write_phase(address, data) + seq![BusOp::Stop]);
    lemma_count_zero_means_none(spec_write_phase(address, data));
}

/// The read plan of `n` bytes holds one read per byte, exactly one start,
/// and exactly one stop, which is its final operation.
pub proof fn lemma_read_plan_shape(address: u8, n: int)
    requires
        n >= 0,
    ensures
        spec_count_reads(spec_read_plan(address, n)) == n,
        spec_count_starts(spec_read_plan(address, n)) == 1,
        spec_count_stops(spec_read_plan(address, n)) == 1,
        spec_count_waits(spec_read_plan(address, n)) == if n == 0 {
            1int
        } else {
            2 * n
        },
        spec_read_plan(address, n).last() is Stop,
        forall|k: int|
            0 <= k < spec_read_plan(address, n).len() - 1 ==> !(#[trigger] spec_read_plan(
                address,
                n,
            )[k] is Stop),
{
    reveal_with_fuel(spec_count_waits, 5);
    reveal_with_fuel(spec_count_starts, 5);
    reveal_with_fuel(spec_count_stops, 5);
    reveal_with_fuel(spec_count_reads, 5);
    let header = seq![BusOp::WaitReady, BusOp::SetData(spec_addr_rd(address)), BusOp::Start];
    lemma_in_ops_shape(n);
    lemma_counts_add(header, spec_in_ops(n));
    lemma_counts_add(spec_read_phase(address, n), seq![BusOp::Stop]);
    assert(spec_read_plan(address, n) =~= spec_read_phase(address, n) + seq![BusOp::Stop]);
    lemma_count_zero_means_none(spec_read_phase(address, n));
}

/// The write-then-read plan holds two starts (the second is the repeated
/// start between the halves), exactly one stop at the very end, one read
/// per expected byte, and the ready polls of both halves.
pub proof fn lemma_write_read_plan_shape(address: u8, data: Seq<u8>, n: int)
    requires
        n >= 0,
    ensures
        spec_count_starts(spec_write_read_plan(address, data, n)) == 2,
        spec_count_stops(spec_write_read_plan(address, data, n)) == 1,
        spec_count_reads(spec_write_read_plan(address, data, n)) == n,
        spec_count_waits(spec_write_read_plan(address, data, n)) == data.len() + 1 + if n == 0 {
            1int
        } else {
            2 * n
        },
        spec_write_read_plan(address, data, n).last() is Stop,
        forall|k: int|
            0 <= k < spec_write_read_plan(address, data, n).len() - 1 ==> !(
            #[trigger] spec_write_read_plan(address, data, n)[k] is Stop),
{
    reveal_with_fuel(spec_count_waits, 5);
    reveal_with_fuel(spec_count_starts, 5);
    reveal_with_fuel(spec_count_stops, 5);
    reveal_with_fuel(spec_count_reads, 5);
    let wh = spec_write_phase(address, data);
    let rh = spec_read_phase(address, n);
    let whd = seq![BusOp::WaitReady, BusOp::SetData(spec_addr_wr(address)), BusOp::Start];
    let rhd = seq![BusOp::WaitReady, BusOp::SetData(spec_addr_rd(address)), BusOp::Start];
    lemma_out_ops_shape(data);
    lemma_in_ops_shape(n);
    lemma_counts_add(whd, spec_out_ops(data));
    lemma_counts_add(rhd, spec_in_ops(n));
    lemma_counts_add(wh, rh);
    lemma_counts_add(wh + rh, seq![BusOp::Stop]);
    assert(spec_write_read_plan(address, data, n) =~= (wh + rh) + seq![BusOp::Stop]);
    lemma_count_zero_means_none(wh + rh);
}

/// A trace that counts no stops holds none.
proof fn lemma_count_zero_means_none(s: Seq<BusOp>)
    requires
        spec_count_stops(s) == 0,
    ensures
        forall|k: int| 0 <= k < s.len() ==> !(#[trigger] s[k] is Stop),
    decreases s.len(),
{
    if s.len() > 0 {
        lemma_count_stops_nonneg(s.drop_last());
        lemma_count_zero_means_none(s.drop_last());
        assert(forall|k: int| 0 <= k < s.len() - 1 ==> #[trigger] s[k] == s.drop_last()[k]);
    }
}

/// Stop counts are never negative.
proof fn lemma_count_stops_nonneg(s: Seq<BusOp>)
    ensures
        spec_count_stops(s) >= 0,
    decreases s.len(),
{
    if s.len() > 0 {
        lemma_count_stops_nonneg(s.drop_last());
    }
}

/// A status script with no failure flags set anywhere.
pub open spec fn spec_clean_script(statuses: Seq<PollFlags>) -> bool {
    forall|j: int|
        0 <= j < statuses.len() ==> !(#[trigger] statuses[j]).arb_loss
            && !statuses[j].start_stop_err
}

/// On a clean script every ready-wait resolves to ready.
proof fn lemma_resolve_clean(statuses: Seq<PollFlags>, sc: int)
    requires
        spec_clean_script(statuses),
    ensures
        spec_resolve(statuses, sc).outcome is None,
    decreases statuses.len() - sc,
{
    if sc < 0 || sc >= statuses.len() {
    } else if !statuses[sc].arb_loss && !statuses[sc].start_stop_err && !statuses[sc].pending {
        lemma_resolve_clean(statuses, sc + 1);
    }
}

/// On a clean script every run completes.
proof fn lemma_run_clean_completes(
    statuses: Seq<PollFlags>,
    rx: Seq<u8>,
    ops: Seq<BusOp>,
    i: int,
    acc: RunOut,
)
    requires
        spec_clean_script(statuses),
        acc.err is None,
    ensures
        spec_run(statuses, rx, ops, i, acc).err is None,
    decreases ops.len() - i,
{
    if i < 0 || i >= ops.len() {
    } else {
        match ops[i] {
            BusOp::WaitReady => {
                lemma_resolve_clean(statuses, acc.sc);
                let w = spec_resolve(statuses, acc.sc);
                lemma_run_clean_completes(
                    statuses,
                    rx,
                    ops,
                    i + 1,
                    RunOut {
                        err: Option::None,
                        sc: w.sc,
                        rc: acc.rc,
                        performed: acc.performed.push(BusOp::WaitReady),
                        got: acc.got,
                    },
                );
            },
            BusOp::GetData => {
                lemma_run_clean_completes(
                    statuses,
                    rx,
                    ops,
                    i + 1,
                    RunOut {
                        err: Option::None,
                        sc: acc.sc,
                        rc: spec_rx_next(rx, acc.rc),
                        performed: acc.performed.push(BusOp::GetData),
                        got: acc.got.push(spec_rx_byte(rx, acc.rc)),
                    },
                );
            },
            op => {
                lemma_run_clean_completes(
                    statuses,
                    rx,
                    ops,
                    i + 1,
                    RunOut {
                        err: Option::None,
                        sc: acc.sc,
                        rc: acc.rc,
                        performed: acc.performed.push(op),
                        got: acc.got,
                    },
                );
            },
        }
    }
}

/// The bytes the receive register delivers over `k` consecutive reads
/// starting at position `rc`: the script's next values in order, zero once
/// it has run out.
pub open spec fn spec_rx_window(rx: Seq<u8>, rc: int, k: int) -> Seq<u8>
    decreases k,
{
    if k <= 0 {
        Seq::empty()
    } else {
        seq![spec_rx_byte(rx, rc)] + spec_rx_window(rx, spec_rx_next(rx, rc), k - 1)
    }
}

/// A run that completes performs its whole plan and delivers exactly the
/// receive script's next values, one per read in the plan, in order.
pub proof fn lemma_run_success_trace(
    statuses: Seq<PollFlags>,
    rx: Seq<u8>,
    ops: Seq<BusOp>,
    i: int,
    acc: RunOut,
)
    requires
        0 <= i <= ops.len(),
        spec_run(statuses, rx, ops, i, acc).err is None,
        acc.err is None,
    ensures
        spec_run(statuses, rx, ops, i, acc).performed == acc.performed + ops.skip(i),
        spec_run(statuses, rx, ops, i, acc).got == acc.got + spec_rx_window(
            rx,
            acc.rc,
            spec_count_reads(ops.skip(i)),
        ),
        spec_run(statuses, rx, ops, i, acc).got.len() == acc.got.len() + spec_count_reads(
            ops.skip(i),
        ),
    decreases ops.len() - i,
{
    reveal_with_fuel(spec_count_reads, 3);
    let out = spec_run(statuses, rx, ops, i, acc);
    if i >= ops.len() {
        assert(ops.skip(i) =~= Seq::<BusOp>::empty());
        assert(acc.performed + ops.skip(i) =~= acc.performed);
        assert(acc.got + spec_rx_window(rx, acc.rc, 0) =~= acc.got);
    } else {
        assert(ops.skip(i) =~= seq![ops[i]] + ops.skip(i + 1));
        lemma_counts_add(seq![ops[i]], ops.skip(i + 1));
        lemma_count_reads_nonneg(ops.skip(i + 1));
        let k = spec_count_reads(ops.skip(i));
        match ops[i] {
            BusOp::WaitReady => {
                let w = spec_resolve(statuses, acc.sc);
                let acc2 = RunOut {
                    err: Option::None,
                    sc: w.sc,
                    rc: acc.rc,
                    performed: acc.performed.push(BusOp::WaitReady),
                    got: acc.got,
                };
                lemma_run_success_trace(statuses, rx, ops, i + 1, acc2);
                assert(acc2.performed + ops.skip(i + 1) =~= acc.performed + ops.skip(i));
            },
            BusOp::GetData => {
                let acc2 = RunOut {
                    err: Option::None,
                    sc: acc.sc,
                    rc: spec_rx_next(rx, acc.rc),
                    performed: acc.performed.push(BusOp::GetData),
                    got: acc.got.push(spec_rx_byte(rx, acc.rc)),
                };
                lemma_run_success_trace(statuses, rx, ops, i + 1, acc2);
                assert(acc2.performed + ops.skip(i + 1) =~= acc.performed + ops.skip(i));
                assert(acc2.got + spec_rx_window(rx, acc2.rc, k - 1) =~= acc.got + spec_rx_window(
                    rx,
                    acc.rc,
                    k,
                ));
            },
            op => {
                let acc2 = RunOut {
                    err: Option::None,
                    sc: acc.sc,
                    rc: acc.rc,
                    performed: acc.performed.push(op),
                    got: acc.got,
                };
                lemma_run_success_trace(statuses, rx, ops, i + 1, acc2);
                assert(acc2.performed + ops.skip(i + 1) =~= acc.performed + ops.skip(i));
            },
        }
    }
}

/// Read counts are never negative.
proof fn lemma_count_reads_nonneg(s: Seq<BusOp>)
    ensures
        spec_count_reads(s) >= 0,
    decreases s.len(),
{
    if s.len() > 0 {
        lemma_count_reads_nonneg(s.drop_last());
    }
}

/// A transaction that completes delivers exactly the receive register's
/// next values, in order, one per read in its plan.
pub proof fn lemma_completed_run_reads_in_order(
    statuses: Seq<PollFlags>,
    rx: Seq<u8>,
    ops: Seq<BusOp>,
    sc: int,
    rc: int,
)
    requires
        spec_run(statuses, rx, ops, 0, spec_fresh_acc(sc, rc)).err is None,
    ensures
        spec_run(statuses, rx, ops, 0, spec_fresh_acc(sc, rc)).got == spec_rx_window(
            rx,
            rc,
            spec_count_reads(ops),
        ),
{
    let acc = spec_fresh_acc(sc, rc);
    lemma_run_success_trace(statuses, rx, ops, 0, acc);
    assert(ops.skip(0) =~= ops);
    assert(Seq::<u8>::empty() + spec_rx_window(rx, rc, spec_count_reads(ops)) =~= spec_rx_window(
        rx,
        rc,
        spec_count_reads(ops),
    ));
}

/// A run that aborts has performed no stop beyond those already in its
/// accumulated trace, provided the plan keeps its stop for the very end.
proof fn lemma_run_fail_stops(
    statuses: Seq<PollFlags>,
    rx: Seq<u8>,
    ops: Seq<BusOp>,
    i: int,
    acc: RunOut,
)
    requires
        spec_run(statuses, rx, ops, i, acc).err is Some,
        forall|k: int| i <= k < ops.len() - 1 ==> !(#[trigger] ops[k] is Stop),
    ensures
        spec_count_stops(spec_run(statuses, rx, ops, i, acc).performed) == spec_count_stops(
            acc.performed,
        ),
    decreases ops.len() - i,
{
    reveal_with_fuel(spec_run, 2);
    reveal_with_fuel(spec_count_stops, 2);
    if acc.err is Some || i < 0 || i >= ops.len() {
    } else {
        match ops[i] {
            BusOp::WaitReady => {
                let w = spec_resolve(statuses, acc.sc);
                if w.outcome is None {
                    let acc2 = RunOut {
                        err: Option::None,
                        sc: w.sc,
                        rc: acc.rc,
                        performed: acc.performed.push(BusOp::WaitReady),
                        got: acc.got,
                    };
                    lemma_run_fail_stops(statuses, rx, ops, i + 1, acc2);
                    assert(acc2.performed.drop_last() =~= acc.performed);
                }
            },
            BusOp::GetData => {
                let acc2 = RunOut {
                    err: Option::None,
                    sc: acc.sc,
                    rc: spec_rx_next(rx, acc.rc),
                    performed: acc.performed.push(BusOp::GetData),
                    got: acc.got.push(spec_rx_byte(rx, acc.rc)),
                };
                lemma_run_fail_stops(statuses, rx, ops, i + 1, acc2);
                assert(acc2.performed.drop_last() =~= acc.performed);
            },
            op => {
                let acc2 = RunOut {
                    err: Option::None,
                    sc: acc.sc,
                    rc: acc.rc,
                    performed: acc.performed.push(op),
                    got: acc.got,
                };
                if i == ops.len() - 1 {
                    assert(spec_run(statuses, rx, ops, i + 1, acc2) == acc2);
                    assert(false);
                } else {
                    lemma_run_fail_stops(statuses, rx, ops, i + 1, acc2);
                    assert(acc2.performed.drop_last() =~= acc.performed);
                    assert(!(op is Stop));
                }
            },
        }
    }
}

/// A fresh run state with nothing performed and the cursors at the given
/// positions.
pub open spec fn spec_fresh_acc(sc: int, rc: int) -> RunOut {
    RunOut { err: Option::None, sc, rc, performed: Seq::empty(), got: Seq::empty() }
}

/// On a bus whose status script never reports arbitration loss or a
/// framing error, a write of `data` completes and performs its whole plan:
/// exactly `data.len() + 1` ready polls (one for the address byte, one per
/// data byte), exactly one start, and exactly one stop.
pub proof fn lemma_write_on_clean_bus(
    statuses: Seq<PollFlags>,
    rx: Seq<u8>,
    address: u8,
    data: Seq<u8>,
    sc: int,
    rc: int,
)
    requires
        spec_clean_script(statuses),
    ensures
        ({
            let out = spec_run(
                statuses,
                rx,
                spec_write_plan(address, data),
                0,
                spec_fresh_acc(sc, rc),
            );
            &&& out.err is None
            &&& out.performed == spec_write_plan(address, data)
            &&& spec_count_waits(out.performed) == data.len() + 1
            &&& spec_count_starts(out.performed) == 1
            &&& spec_count_stops(out.performed) == 1
        }),
{
    let ops = spec_write_plan(address, data);
    let acc = spec_fresh_acc(sc, rc);
    lemma_run_clean_completes(statuses, rx, ops, 0, acc);
    lemma_run_success_trace(statuses, rx, ops, 0, acc);
    assert(acc.performed + ops.skip(0) =~= ops);
    lemma_write_plan_shape(address, data);
}

/// A host transaction that aborts on a bus failure has not issued a stop
/// condition: the performed trace of a failed run of any of the three
/// transaction plans holds no stop.
pub proof fn lemma_failed_run_issues_no_stop(
    statuses: Seq<PollFlags>,
    rx: Seq<u8>,
    ops: Seq<BusOp>,
    sc: int,
    rc: int,
)
    requires
        spec_run(statuses, rx, ops, 0, spec_fresh_acc(sc, rc)).err is Some,
        forall|k: int| 0 <= k < ops.len() - 1 ==> !(#[trigger] ops[k] is Stop),
    ensures
        spec_count_stops(spec_run(statuses, rx, ops, 0, spec_fresh_acc(sc, rc)).performed) == 0,
        forall|k: int|
            0 <= k < spec_run(statuses, rx, ops, 0, spec_fresh_acc(sc, rc)).performed.len()
                ==> !(#[trigger] spec_run(
                statuses,
                rx,
                ops,
                0,
                spec_fresh_acc(sc, rc),
            ).performed[k] is Stop),
{
    reveal_with_fuel(spec_count_stops, 2);
    lemma_run_fail_stops(statuses, rx, ops, 0, spec_fresh_acc(sc, rc));
    lemma_count_zero_means_none(spec_run(statuses, rx, ops, 0, spec_fresh_acc(sc, rc)).performed);
}

/// A write followed by a separate read is, at the register-operation
/// level, exactly the combined write-then-read transaction split at its
/// repeated start: the combined plan is the write plan without its final
/// stop, followed verbatim by the read plan, whose own stop becomes the
/// single stop of the whole transaction. The read half therefore begins
/// with a start while the bus is still held — the repeated start — where
/// the two separate transactions would stop and start again.
pub proof fn lemma_combined_transaction_framing(address: u8, data: Seq<u8>, n: int)
    ensures
        spec_write_plan(address, data).drop_last() == spec_write_phase(address, data),
        spec_read_plan(address, n) == spec_read_phase(address, n).push(BusOp::Stop),
        spec_write_read_plan(address, data, n) == spec_write_plan(address, data).drop_last()
            + spec_read_plan(address, n),
{
    assert(spec_write_plan(address, data).drop_last() =~= spec_write_phase(address, data));
    assert(spec_write_read_plan(address, data, n) =~= spec_write_phase(address, data)
        + spec_read_phase(address, n).push(BusOp::Stop));
}

} // verus!
