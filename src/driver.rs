use crate::bus::{
    delay_total, level_before, push_op, repeat, signals, written_while, BusOp, Level, Line, Signal,
};
use crate::colour::{be_bytes, Colour};
use crate::window::{coords_bytes, encode_coords, pixel_count_of, AddressWindow};
use vstd::prelude::*;

verus! {

/// Does nothing; closes a memory write session.
pub const NOOP: u8 = 0x00;

/// Resets the controller's registers to their defaults.
pub const SOFTWARE_RESET: u8 = 0x01;

/// Reads the display status register.
pub const READ_DISPLAY_STATUS: u8 = 0x09;

/// Sets the column range of the address window.
pub const COLUMN_ADDRESS_SET: u8 = 0x2A;

/// Sets the page range of the address window.
pub const PAGE_ADDRESS_SET: u8 = 0x2B;

/// Opens a memory write session into the address window.
pub const MEMORY_WRITE: u8 = 0x2C;

/// How long the reset line is held low, and then high, in milliseconds.
pub const RESET_PULSE_MS: u32 = 50;

/// How long the panel ignores commands after a software reset, in milliseconds.
pub const SOFTWARE_RESET_SETTLE_MS: u32 = 120;

/// The length in bytes of the block that a solid fill streams: the colour's
/// two bytes, repeated.
pub const FILL_BLOCK_LEN: usize = 64;

/// A solid fill streams one block for each whole multiple of this many pixels
/// in the window; the pixels of the remainder get no block.
pub const FILL_PIXELS_PER_BLOCK: u64 = 64;

/// The largest number of bytes a diagnostic register read takes.
pub const MAX_REGISTER_READ: usize = 16;

/// The ways an operation of the driver can fail.
#[derive(Clone, Copy, Debug, PartialEq, Eq, Structural)]
pub enum DisplayError {
    /// The serial bus or a control line reported a fault; the operation in
    /// flight was abandoned.
    TransportFault,
    /// The request asks for more than the driver implements, such as a
    /// register read longer than the diagnostic reads.
    UnsupportedOperation,
}

/// The traffic of one command: with chip select low, the opcode byte while
/// data/command is low, then the payload, if any, while it is high.
pub open spec fn command_signals(opcode: u8, payload: Seq<u8>) -> Seq<Signal> {
    let head = seq![
        Signal::Drive(Line::DataCommand, Level::Low),
        Signal::Drive(Line::ChipSelect, Level::Low),
        Signal::Write(seq![opcode]),
        Signal::Drive(Line::DataCommand, Level::High),
    ];
    let body = if payload.len() == 0 {
        Seq::<Signal>::empty()
    } else {
        seq![Signal::Write(payload)]
    };
    head + body + seq![Signal::Drive(Line::ChipSelect, Level::High)]
}

/// The traffic of a block of pixel data written into an open memory write session.
pub open spec fn write_data_signals(data: Seq<u8>) -> Seq<Signal> {
    seq![
        Signal::Drive(Line::DataCommand, Level::High),
        Signal::Drive(Line::ChipSelect, Level::Low),
        Signal::Write(data),
        Signal::Drive(Line::ChipSelect, Level::High),
    ]
}

/// The traffic of a hardware reset: the reset line low for the pulse width,
/// then high for as long again.
pub open spec fn hw_reset_signals() -> Seq<Signal> {
    seq![
        Signal::Drive(Line::Reset, Level::Low),
        Signal::DelayMs(RESET_PULSE_MS as nat),
        Signal::Drive(Line::Reset, Level::High),
        Signal::DelayMs(RESET_PULSE_MS as nat),
    ]
}

/// The traffic of a software reset: the reset command, then the settle time.
pub open spec fn sw_reset_signals() -> Seq<Signal> {
    command_signals(SOFTWARE_RESET, Seq::empty()).push(
        Signal::DelayMs(SOFTWARE_RESET_SETTLE_MS as nat),
    )
}

/// The traffic of a diagnostic register read of `length` bytes.
pub open spec fn read_register_signals(register: u8, length: nat) -> Seq<Signal> {
    seq![
        Signal::Drive(Line::DataCommand, Level::Low),
        Signal::Drive(Line::ChipSelect, Level::Low),
        Signal::Write(seq![register]),
        Signal::Drive(Line::DataCommand, Level::High),
        Signal::Transfer(length),
        Signal::Drive(Line::ChipSelect, Level::High),
    ]
}

/// The block that a solid fill of `colour` streams: the colour's two bytes,
/// most significant first, over and over.
pub open spec fn fill_block(colour: Colour) -> Seq<u8> {
    Seq::new(FILL_BLOCK_LEN as nat, |i: int| be_bytes(colour.raw)[i % 2])
}

/// The traffic of a solid fill of a window with bounds `w`: the column set with
/// `(x0, y0)`, the page set with `(x1, y1)`, the memory write command, one block
/// of pixel data for each whole multiple of [`FILL_PIXELS_PER_BLOCK`] pixels in
/// the window, and a no-op that closes the session.
pub open spec fn clear_signals(w: (u16, u16, u16, u16), colour: Colour) -> Seq<Signal> {
    command_signals(COLUMN_ADDRESS_SET, coords_bytes(w.0, w.1))
        + command_signals(PAGE_ADDRESS_SET, coords_bytes(w.2, w.3))
        + command_signals(MEMORY_WRITE, Seq::empty())
        + repeat(
            write_data_signals(fill_block(colour)),
            pixel_count_of(w) / (FILL_PIXELS_PER_BLOCK as nat),
        )
        + command_signals(NOOP, Seq::empty())
}

/// The block that a solid fill of `colour` streams.
pub fn fill_buffer(colour: Colour) -> (buf: Vec<u8>)
    ensures
        buf@ == fill_block(colour),
{
    let bytes = colour.to_be_bytes();
    let mut buf: Vec<u8> = Vec::new();
    let mut i: usize = 0;
    while i < FILL_BLOCK_LEN / 2
        invariant
            i <= FILL_BLOCK_LEN / 2,
            bytes@ == be_bytes(colour.raw),
            buf@.len() == 2 * i,
            forall|k: int| 0 <= k < 2 * i ==> buf@[k] == bytes@[k % 2],
        decreases FILL_BLOCK_LEN / 2 - i,
    {
        buf.push(bytes[0]);
        buf.push(bytes[1]);
        i = i + 1;
    }
    assert(buf@ =~= fill_block(colour));
    buf
}

/// Command framing: in the traffic of every command, the bytes written while
/// data/command is low are exactly the opcode, those written while it is high
/// are exactly the payload, chip select is low for every byte written, and the
/// command ends by raising chip select.
pub proof fn lemma_command_framing(opcode: u8, payload: Seq<u8>)
    ensures
        written_while(command_signals(opcode, payload), Line::DataCommand, Level::Low)
            == seq![opcode],
        written_while(command_signals(opcode, payload), Line::DataCommand, Level::High)
            == payload,
        forall|k: int|
            0 <= k < command_signals(opcode, payload).len()
                && #[trigger] command_signals(opcode, payload)[k] is Write ==> level_before(
                command_signals(opcode, payload),
                k,
                Line::ChipSelect,
            ) == Some(Level::Low),
        command_signals(opcode, payload).last() == Signal::Drive(Line::ChipSelect, Level::High),
{
    let s = command_signals(opcode, payload);
    reveal_with_fuel(level_before, 7);
    reveal_with_fuel(written_while, 7);
    if payload.len() == 0 {
        assert(s.take(4) =~= s.drop_last());
    } else {
        assert(s.take(5) =~= s.drop_last());
        assert(s.take(4) =~= s.take(5).drop_last());
    }
    assert(s.take(3) =~= s.take(4).drop_last());
    assert(s.take(2) =~= s.take(3).drop_last());
    assert(s.take(1) =~= s.take(2).drop_last());
    assert(s.take(0) =~= s.take(1).drop_last());
    assert(written_while(s, Line::DataCommand, Level::Low) =~= seq![opcode]);
    assert(written_while(s, Line::DataCommand, Level::High) =~= payload);
}

/// Hardware reset timing: the reset line is driven low, held low for at least
/// the pulse width, driven high, and held high for at least the pulse width
/// before the reset ends.
pub proof fn lemma_hw_reset_timing()
    ensures
        hw_reset_signals().len() == 4,
        hw_reset_signals()[0] == Signal::Drive(Line::Reset, Level::Low),
        hw_reset_signals()[2] == Signal::Drive(Line::Reset, Level::High),
        delay_total(hw_reset_signals().subrange(1, 2)) >= 50,
        delay_total(hw_reset_signals().subrange(3, 4)) >= 50,
{
    let s = hw_reset_signals();
    assert(s.subrange(1, 2).drop_last() =~= Seq::<Signal>::empty());
    assert(s.subrange(3, 4).drop_last() =~= Seq::<Signal>::empty());
}

/// Software reset settle time: the reset command is sent, and then at least
/// the settle time passes before the reset ends.
pub proof fn lemma_sw_reset_settle()
    ensures
        ({
            let s = sw_reset_signals();
            &&& s.take(s.len() - 1) == command_signals(SOFTWARE_RESET, Seq::empty())
            &&& delay_total(s.skip(s.len() - 1)) >= 120
        }),
{
    let s = sw_reset_signals();
    assert(s.take(s.len() - 1) =~= command_signals(SOFTWARE_RESET, Seq::empty()));
    assert(s.skip(s.len() - 1).drop_last() =~= Seq::<Signal>::empty());
}

/// Repeatable fills: the traffic of a fill depends on the window and the
/// colour alone, so two fills with the same arguments, one after the other,
/// put identical traffic on the bus.
pub proof fn lemma_clear_repeatable(before: Seq<Signal>, w: (u16, u16, u16, u16), colour: Colour)
    ensures
        ({
            let once = before + clear_signals(w, colour);
            let twice = once + clear_signals(w, colour);
            twice.subrange(before.len() as int, once.len() as int) == twice.subrange(
                once.len() as int,
                twice.len() as int,
            )
        }),
{
    let once = before + clear_signals(w, colour);
    let twice = once + clear_signals(w, colour);
    assert(twice.subrange(before.len() as int, once.len() as int) =~= clear_signals(w, colour));
    assert(twice.subrange(once.len() as int, twice.len() as int) =~= clear_signals(w, colour));
}

/// Truncated fills: a window with at least one and fewer than two whole
/// blocks' worth of pixels, 65 pixels for one, gets exactly one block of pixel
/// data; the pixels beyond it are not written.
pub proof fn lemma_clear_single_block(w: (u16, u16, u16, u16), colour: Colour)
    requires
        FILL_PIXELS_PER_BLOCK <= pixel_count_of(w) < 2 * FILL_PIXELS_PER_BLOCK,
    ensures
        clear_signals(w, colour) == command_signals(COLUMN_ADDRESS_SET, coords_bytes(w.0, w.1))
            + command_signals(PAGE_ADDRESS_SET, coords_bytes(w.2, w.3)) + command_signals(
            MEMORY_WRITE,
            Seq::empty(),
        ) + write_data_signals(fill_block(colour)) + command_signals(NOOP, Seq::empty()),
{
    assert(pixel_count_of(w) / (FILL_PIXELS_PER_BLOCK as nat) == 1);
    reveal_with_fuel(repeat, 2);
    assert(repeat(write_data_signals(fill_block(colour)), 1) =~= write_data_signals(
        fill_block(colour),
    ));
}

/// A copy of the bytes.
pub fn copy_bytes(data: &[u8]) -> (v: Vec<u8>)
    ensures
        v@ == data@,
{
    let mut v: Vec<u8> = Vec::new();
    let mut i: usize = 0;
    while i < data.len()
        invariant
            i <= data@.len(),
            v@ == data@.take(i as int),
        decreases data@.len() - i,
    {
        v.push(data[i]);
        i = i + 1;
        assert(v@ =~= data@.take(i as int));
    }
    assert(v@ =~= data@);
    v
}

/// A driver for one ILI9341 panel. It owns the traffic planned for the panel
/// and not yet handed to the transport.
pub struct AsyncIli9341 {
    ops: Vec<BusOp>,
}

impl View for AsyncIli9341 {
    type V = Seq<Signal>;

    /// The planned traffic, in order.
    closed spec fn view(&self) -> Seq<Signal> {
        signals(self.ops@)
    }
}

impl AsyncIli9341 {
    /// A driver with no traffic planned.
    pub fn idle() -> (d: AsyncIli9341)
        ensures
            d@ == Seq::<Signal>::empty(),
    {
        let d = AsyncIli9341 { ops: Vec::new() };
        assert(d@ =~= Seq::<Signal>::empty());
        d
    }

    /// Hands the planned traffic to the transport, leaving none planned.
    pub fn take_ops(&mut self) -> (ops: Vec<BusOp>)
        ensures
            signals(ops@) == old(self)@,
            final(self)@ == Seq::<Signal>::empty(),
    {
        let mut ops: Vec<BusOp> = Vec::new();
        std::mem::swap(&mut ops, &mut self.ops);
        assert(self@ =~= Seq::<Signal>::empty());
        ops
    }

    /// Drives data/command and chip select high, so that no exchange is open.
    pub fn release_lines(&mut self)
        ensures
            final(self)@ == old(self)@ + seq![
                Signal::Drive(Line::DataCommand, Level::High),
                Signal::Drive(Line::ChipSelect, Level::High),
            ],
    {
        let ghost start = self@;
        self.drive(Line::DataCommand, Level::High);
        self.drive(Line::ChipSelect, Level::High);
        assert(self@ =~= start + seq![
            Signal::Drive(Line::DataCommand, Level::High),
            Signal::Drive(Line::ChipSelect, Level::High),
        ]);
    }

    fn drive(&mut self, line: Line, level: Level)
        ensures
            final(self)@ == old(self)@.push(Signal::Drive(line, level)),
    {
        push_op(&mut self.ops, BusOp::Drive(line, level));
    }

    fn write(&mut self, bytes: Vec<u8>)
        ensures
            final(self)@ == old(self)@.push(Signal::Write(bytes@)),
    {
        push_op(&mut self.ops, BusOp::Write(bytes));
    }

    fn delay_ms(&mut self, ms: u32)
        ensures
            final(self)@ == old(self)@.push(Signal::DelayMs(ms as nat)),
    {
        push_op(&mut self.ops, BusOp::DelayMs(ms));
    }

    /// Sends one command: the opcode byte and its payload, framed by chip select.
    pub fn command(&mut self, command: u8, data: &[u8])
        ensures
            final(self)@ == old(self)@ + command_signals(command, data@),
    {
        let ghost start = self@;
        self.drive(Line::DataCommand, Level::Low);
        self.drive(Line::ChipSelect, Level::Low);
        let mut opcode: Vec<u8> = Vec::new();
        opcode.push(command);
        self.write(opcode);
        self.drive(Line::DataCommand, Level::High);
        if data.len() > 0 {
            self.write(copy_bytes(data));
        }
        self.drive(Line::ChipSelect, Level::High);
        assert(self@ =~= start + command_signals(command, data@));
    }

    /// Writes a block of pixel data into the open memory write session.
    pub fn write_data(&mut self, data: &[u8])
        ensures
            final(self)@ == old(self)@ + write_data_signals(data@),
    {
        let ghost start = self@;
        self.drive(Line::DataCommand, Level::High);
        self.drive(Line::ChipSelect, Level::Low);
        self.write(copy_bytes(data));
        self.drive(Line::ChipSelect, Level::High);
        assert(self@ =~= start + write_data_signals(data@));
    }

    /// Pulses the reset line: low for the pulse width, then high for as long again.
    pub fn hw_reset(&mut self)
        ensures
            final(self)@ == old(self)@ + hw_reset_signals(),
    {
        let ghost start = self@;
        self.drive(Line::Reset, Level::Low);
        self.delay_ms(RESET_PULSE_MS);
        self.drive(Line::Reset, Level::High);
        self.delay_ms(RESET_PULSE_MS);
        assert(self@ =~= start + hw_reset_signals());
    }

    /// Sends the software reset command and waits for the panel to settle.
    pub fn sw_reset(&mut self)
        ensures
            final(self)@ == old(self)@ + sw_reset_signals(),
    {
        let ghost start = self@;
        self.command(SOFTWARE_RESET, &[]);
        self.delay_ms(SOFTWARE_RESET_SETTLE_MS);
        assert(self@ =~= start + sw_reset_signals());
    }

    /// Fills the window with a solid colour. The address window is set with
    /// `(x0, y0)` as the column range and `(x1, y1)` as the page range, and one
    /// block is streamed per whole [`FILL_PIXELS_PER_BLOCK`] pixels of the window.
    pub fn clear(&mut self, window: &AddressWindow, colour: Colour)
        ensures
            final(self)@ == old(self)@ + clear_signals(window@, colour),
    {
        let ghost start = self@;
        self.command(COLUMN_ADDRESS_SET, &encode_coords(window.x0(), window.y0()));
        self.command(PAGE_ADDRESS_SET, &encode_coords(window.x1(), window.y1()));
        let buf = fill_buffer(colour);
        let blocks = window.pixel_count() / FILL_PIXELS_PER_BLOCK;
        self.command(MEMORY_WRITE, &[]);
        let ghost opened = self@;
        let mut i: u64 = 0;
        while i < blocks
            invariant
                i <= blocks,
                buf@ == fill_block(colour),
                self@ == opened + repeat(write_data_signals(buf@), i as nat),
            decreases blocks - i,
        {
            self.write_data(buf.as_slice());
            i = i + 1;
            assert(self@ =~= opened + repeat(write_data_signals(buf@), i as nat));
        }
        self.command(NOOP, &[]);
        assert(self@ =~= start + clear_signals(window@, colour));
    }

    /// Reads `length` bytes of a status register, for diagnostics only.
    /// Reads longer than [`MAX_REGISTER_READ`] are not supported and plan nothing.
    pub fn read_register(&mut self, register: u8, length: usize) -> (r: Result<(), DisplayError>)
        ensures
            length <= MAX_REGISTER_READ ==> r == Ok::<(), DisplayError>(())
                && final(self)@ == old(self)@ + read_register_signals(register, length as nat),
            length > MAX_REGISTER_READ ==> r == Err::<(), DisplayError>(DisplayError::UnsupportedOperation)
                && final(self)@ == old(self)@,
    {
        if length > MAX_REGISTER_READ {
            return Err(DisplayError::UnsupportedOperation);
        }
        let ghost start = self@;
        self.drive(Line::DataCommand, Level::Low);
        self.drive(Line::ChipSelect, Level::Low);
        let mut opcode: Vec<u8> = Vec::new();
        opcode.push(register);
        self.write(opcode);
        self.drive(Line::DataCommand, Level::High);
        push_op(&mut self.ops, BusOp::Transfer(length));
        self.drive(Line::ChipSelect, Level::High);
        assert(self@ =~= start + read_register_signals(register, length as nat));
        Ok(())
    }
}

} // verus!
