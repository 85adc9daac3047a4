use vstd::prelude::*;

verus! {

/// One of the three control lines of the panel.
#[derive(Clone, Copy, Debug, PartialEq, Eq, Structural)]
pub enum Line {
    /// Data/command select: low while an opcode byte is on the bus.
    DataCommand,
    /// Chip select: low for the duration of one exchange.
    ChipSelect,
    /// Hardware reset: active low.
    Reset,
}

/// The level a control line is driven to.
#[derive(Clone, Copy, Debug, PartialEq, Eq, Structural)]
pub enum Level {
    Low,
    High,
}

/// One operation of the transport, in the order it must be performed.
#[derive(Debug, PartialEq, Eq)]
pub enum BusOp {
    /// Drive a control line to a level.
    Drive(Line, Level),
    /// Clock the bytes out on the serial bus; complete before the next operation.
    Write(Vec<u8>),
    /// Duplex exchange of this many bytes: zeros are written, the bytes read back
    /// are diagnostic only.
    Transfer(usize),
    /// Wait at least this many milliseconds.
    DelayMs(u32),
}

/// What a [`BusOp`] does, as a mathematical value.
pub enum Signal {
    Drive(Line, Level),
    Write(Seq<u8>),
    Transfer(nat),
    DelayMs(nat),
}

impl View for BusOp {
    type V = Signal;

    open spec fn view(&self) -> Signal {
        match self {
            BusOp::Drive(line, level) => Signal::Drive(*line, *level),
            BusOp::Write(bytes) => Signal::Write(bytes@),
            BusOp::Transfer(n) => Signal::Transfer(*n as nat),
            BusOp::DelayMs(ms) => Signal::DelayMs(*ms as nat),
        }
    }
}

/// The traffic that a sequence of operations puts on the bus.
pub open spec fn signals(ops: Seq<BusOp>) -> Seq<Signal> {
    ops.map_values(|op: BusOp| op@)
}

/// The traffic of a sequence repeated `n` times, one copy after the other.
pub open spec fn repeat(s: Seq<Signal>, n: nat) -> Seq<Signal>
    decreases n,
{
    if n == 0 {
        Seq::empty()
    } else {
        repeat(s, (n - 1) as nat) + s
    }
}

/// The level of `line` just before position `k` of the traffic `s`, if the
/// traffic drives it before that position.
pub open spec fn level_before(s: Seq<Signal>, k: int, line: Line) -> Option<Level>
    decreases k,
{
    if k <= 0 {
        None
    } else {
        match s[k - 1] {
            Signal::Drive(l, level) => if l == line {
                Some(level)
            } else {
                level_before(s, k - 1, line)
            },
            _ => level_before(s, k - 1, line),
        }
    }
}

/// All bytes written in the traffic `s` while `line` is at `level`, in order.
pub open spec fn written_while(s: Seq<Signal>, line: Line, level: Level) -> Seq<u8>
    decreases s.len(),
{
    if s.len() == 0 {
        Seq::empty()
    } else {
        let k = s.len() - 1;
        let earlier = written_while(s.take(k), line, level);
        match s[k] {
            Signal::Write(bytes) => if level_before(s, k, line) == Some(level) {
                earlier + bytes
            } else {
                earlier
            },
            _ => earlier,
        }
    }
}

/// The total time the traffic `s` spends in delays, in milliseconds.
pub open spec fn delay_total(s: Seq<Signal>) -> nat
    decreases s.len(),
{
    if s.len() == 0 {
        0
    } else {
        delay_total(s.drop_last()) + match s.last() {
            Signal::DelayMs(ms) => ms,
            _ => 0,
        }
    }
}

/// Appends an operation to a plan.
pub fn push_op(ops: &mut Vec<BusOp>, op: BusOp)
    ensures
        signals(final(ops)@) == signals(old(ops)@).push(op@),
{
    let ghost before = ops@;
    ops.push(op);
    assert(signals(ops@) =~= signals(before).push(ops@[ops@.len() - 1]@));
}

} // verus!
