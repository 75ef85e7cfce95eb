//! The link to the panel: a serial line for bytes, a data/command select line, a reset line and
//! a busy line.
//!
//! The transport does no input or output itself. Its operations queue what has to happen on
//! the wires, and whoever owns the wires takes the queue and carries it out in order.
use vstd::prelude::*;

verus! {

/// The level of a control line.
#[derive(Clone, Copy, PartialEq, Eq, Debug, Structural)]
pub enum Level {
    Low,
    High,
}

/// One thing to do on the wires.
#[derive(PartialEq, Eq, Debug)]
pub enum BusOp {
    /// Drive the reset line to the level.
    Reset(Level),
    /// Drive the data/command select line to the level: low selects commands, high data.
    DataCommand(Level),
    /// Send the bytes over the serial line; a failure to send is not reported.
    Write(Vec<u8>),
    /// Let the given number of milliseconds pass.
    Delay(u64),
}

/// A `BusOp` as a mathematical value.
pub enum Signal {
    Reset(Level),
    DataCommand(Level),
    Write(Seq<u8>),
    Delay(u64),
}

impl View for BusOp {
    type V = Signal;

    open spec fn view(&self) -> Signal {
        match *self {
            BusOp::Reset(level) => Signal::Reset(level),
            BusOp::DataCommand(level) => Signal::DataCommand(level),
            BusOp::Write(bytes) => Signal::Write(bytes@),
            BusOp::Delay(millis) => Signal::Delay(millis),
        }
    }
}

/// The operations as mathematical values, in the same order.
pub open spec fn signals_of(ops: Seq<BusOp>) -> Seq<Signal> {
    ops.map_values(|op: BusOp| op@)
}

/// How long the reset line is held high before the pulse, in milliseconds.
pub const RESET_SETTLE_MS: u64 = 20;

/// How long the reset line is held low, in milliseconds.
pub const RESET_PULSE_MS: u64 = 2;

/// How long the controller is given to start after the pulse, in milliseconds.
pub const RESET_RECOVERY_MS: u64 = 200;

/// A hardware reset: the reset line goes high, low and high again, each level held for its
/// time.
pub open spec fn hw_reset_signals() -> Seq<Signal> {
    seq![
        Signal::Reset(Level::High),
        Signal::Delay(20),
        Signal::Reset(Level::Low),
        Signal::Delay(2),
        Signal::Reset(Level::High),
        Signal::Delay(200),
    ]
}

/// A command without data: command mode is selected, then the opcode is sent.
pub open spec fn cmd_signals(cmd: u8) -> Seq<Signal> {
    seq![Signal::DataCommand(Level::Low), Signal::Write(seq![cmd])]
}

/// A command with data: the command, then data mode is selected and the data are sent.
pub open spec fn cmd_data_signals(cmd: u8, data: Seq<u8>) -> Seq<Signal> {
    cmd_signals(cmd) + seq![Signal::DataCommand(Level::High), Signal::Write(data)]
}

/// The transport. Its value is the queue of what was asked of it and not yet taken.
pub struct EpdSpi {
    outbox: Vec<BusOp>,
}

impl View for EpdSpi {
    type V = Seq<Signal>;

    closed spec fn view(&self) -> Seq<Signal> {
        signals_of(self.outbox@)
    }
}

impl EpdSpi {
    /// A transport with nothing queued.
    pub fn new() -> (spi: Self)
        ensures
            spi@ == Seq::<Signal>::empty(),
    {
        let spi = EpdSpi { outbox: Vec::new() };
        assert(spi@ =~= Seq::<Signal>::empty());
        spi
    }

    fn push(&mut self, op: BusOp)
        ensures
            final(self)@ == old(self)@.push(op@),
    {
        self.outbox.push(op);
        assert(self@ =~= old(self)@.push(op@));
    }

    /// Whether the panel is busy, given what reading the busy line gave: `Some` of the level
    /// that was read (high is busy), or `None` where the line could not be read. A line that
    /// cannot be read counts as not busy, so that nobody waits for it for ever.
    pub fn is_busy(&self, reading: Option<bool>) -> (busy: bool)
        ensures
            busy == (reading == Some(true)),
    {
        match reading {
            Some(level) => level,
            None => false,
        }
    }

    /// Queues a hardware reset.
    pub fn hw_reset(&mut self)
        ensures
            final(self)@ == old(self)@ + hw_reset_signals(),
    {
        self.push(BusOp::Reset(Level::High));
        self.push(BusOp::Delay(RESET_SETTLE_MS));
        self.push(BusOp::Reset(Level::Low));
        self.push(BusOp::Delay(RESET_PULSE_MS));
        self.push(BusOp::Reset(Level::High));
        self.push(BusOp::Delay(RESET_RECOVERY_MS));
        assert(self@ =~= old(self)@ + hw_reset_signals());
    }

    /// Queues a command without data.
    pub fn cmd(&mut self, cmd: u8)
        ensures
            final(self)@ == old(self)@ + cmd_signals(cmd),
    {
        self.push(BusOp::DataCommand(Level::Low));
        let opcode: Vec<u8> = vec![cmd];
        assert(opcode@ =~= seq![cmd]);
        self.push(BusOp::Write(opcode));
        assert(self@ =~= old(self)@ + cmd_signals(cmd));
    }

    /// Queues a command with its data.
    pub fn cmd_data(&mut self, cmd: u8, data: &[u8])
        ensures
            final(self)@ == old(self)@ + cmd_data_signals(cmd, data@),
    {
        self.cmd(cmd);
        self.push(BusOp::DataCommand(Level::High));
        self.push(BusOp::Write(vstd::slice::slice_to_vec(data)));
        assert(self@ =~= old(self)@ + cmd_data_signals(cmd, data@));
    }

    /// Queues a pause of `millis` milliseconds.
    pub fn delay(&mut self, millis: u64)
        ensures
            final(self)@ == old(self)@.push(Signal::Delay(millis)),
    {
        self.push(BusOp::Delay(millis));
    }

    /// Hands out what is queued, oldest first, and leaves the queue empty.
    pub fn take(&mut self) -> (ops: Vec<BusOp>)
        ensures
            signals_of(ops@) == old(self)@,
            final(self)@ == Seq::<Signal>::empty(),
    {
        let mut ops: Vec<BusOp> = Vec::new();
        core::mem::swap(&mut self.outbox, &mut ops);
        assert(self@ =~= Seq::<Signal>::empty());
        ops
    }
}

} // verus!
