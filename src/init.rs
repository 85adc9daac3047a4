use crate::bus::{Level, Line, Signal};
use crate::driver::{
    command_signals, copy_bytes, hw_reset_signals, read_register_signals, sw_reset_signals,
    AsyncIli9341, READ_DISPLAY_STATUS,
};
use vstd::prelude::*;

verus! {

/// How many bytes the diagnostic status reads around the initialisation take.
pub const STATUS_READ_LEN: usize = 5;

/// Takes the panel out of sleep.
pub const SLEEP_OUT: u8 = 0x11;

/// Turns the panel's output on.
pub const DISPLAY_ON: u8 = 0x29;

/// One entry of an initialisation table: a command and its parameters.
pub struct InitCommand {
    pub opcode: u8,
    pub params: Vec<u8>,
}

impl View for InitCommand {
    type V = (u8, Seq<u8>);

    open spec fn view(&self) -> (u8, Seq<u8>) {
        (self.opcode, self.params@)
    }
}

/// The entries of a table, as `(opcode, parameters)` pairs.
pub open spec fn table_model(table: Seq<InitCommand>) -> Seq<(u8, Seq<u8>)> {
    table.map_values(|e: InitCommand| e@)
}

/// The traffic of replaying a table: each entry as one command, in table order.
pub open spec fn replay_signals(table: Seq<(u8, Seq<u8>)>) -> Seq<Signal>
    decreases table.len(),
{
    if table.len() == 0 {
        Seq::empty()
    } else {
        replay_signals(table.drop_last()) + command_signals(table.last().0, table.last().1)
    }
}

/// The traffic of a diagnostic status read, when diagnostics are asked for.
pub open spec fn status_read_signals(diagnostics: bool) -> Seq<Signal> {
    if diagnostics {
        read_register_signals(READ_DISPLAY_STATUS, STATUS_READ_LEN as nat)
    } else {
        Seq::empty()
    }
}

/// The traffic of the power-on initialisation with `table`: data/command and
/// chip select released, a hardware reset, a software reset, an optional
/// status read, the replay of the table, and an optional status read.
pub open spec fn init_signals(table: Seq<(u8, Seq<u8>)>, diagnostics: bool) -> Seq<Signal> {
    seq![
        Signal::Drive(Line::DataCommand, Level::High),
        Signal::Drive(Line::ChipSelect, Level::High),
    ] + hw_reset_signals() + sw_reset_signals() + status_read_signals(diagnostics)
        + replay_signals(table) + status_read_signals(diagnostics)
}

/// The ILI9341 power-on table: vendor power control, VCOM control, memory
/// access control, 16 bits per pixel, frame rate, display function control,
/// gamma curve and its two tables, then sleep out and display on.
pub open spec fn ili9341_init_sequence() -> Seq<(u8, Seq<u8>)> {
    seq![
        (0xEFu8, seq![0x03u8, 0x80, 0x02]),
        (0xCFu8, seq![0x00u8, 0xc1, 0x30]),
        (0xEDu8, seq![0x64u8, 0x03, 0x12, 0x81]),
        (0xE8u8, seq![0x85u8, 0x00, 0x78]),
        (0xCBu8, seq![0x39u8, 0x2c, 0x00, 0x34, 0x02]),
        (0xF7u8, seq![0x20u8]),
        (0xEAu8, seq![0x00u8, 0x00]),
        (0xC0u8, seq![0x23u8]),
        (0xC1u8, seq![0x10u8]),
        (0xC5u8, seq![0x3eu8, 0x28]),
        (0xC7u8, seq![0x86u8]),
        (0x36u8, seq![0x48u8]),
        (0x3Au8, seq![0x55u8]),
        (0xB1u8, seq![0x00u8, 0x18]),
        (0xB6u8, seq![0x08u8, 0x82, 0x27]),
        (0xF2u8, seq![0x00u8]),
        (0x26u8, seq![0x01u8]),
        (0xE0u8, seq![
            0x0fu8, 0x31, 0x2b, 0x0c, 0x0e, 0x08, 0x4e, 0xf1, 0x37, 0x07, 0x10, 0x03, 0x0e, 0x09,
            0x00,
        ]),
        (0xE1u8, seq![
            0x00u8, 0x0e, 0x14, 0x03, 0x11, 0x07, 0x31, 0xc1, 0x48, 0x08, 0x0f, 0x0c, 0x31, 0x36,
            0x0f,
        ]),
        (SLEEP_OUT, Seq::<u8>::empty()),
        (DISPLAY_ON, Seq::<u8>::empty()),
    ]
}

/// Where the traffic of entry `k` begins in the replay of `table`.
pub open spec fn entry_offset(table: Seq<(u8, Seq<u8>)>, k: int) -> nat {
    replay_signals(table.take(k)).len()
}

proof fn lemma_replay_step(table: Seq<(u8, Seq<u8>)>, k: int)
    requires
        0 <= k < table.len(),
    ensures
        replay_signals(table.take(k + 1)) == replay_signals(table.take(k)) + command_signals(
            table[k].0,
            table[k].1,
        ),
{
    assert(table.take(k + 1).drop_last() =~= table.take(k));
}

proof fn lemma_replay_prefix(table: Seq<(u8, Seq<u8>)>, k: int)
    requires
        0 <= k <= table.len(),
    ensures
        entry_offset(table, k) <= replay_signals(table).len(),
        replay_signals(table).take(entry_offset(table, k) as int) == replay_signals(
            table.take(k),
        ),
    decreases table.len(),
{
    if k == table.len() {
        assert(table.take(k) =~= table);
        assert(replay_signals(table).take(entry_offset(table, k) as int) =~= replay_signals(
            table,
        ));
    } else {
        let shorter = table.drop_last();
        lemma_replay_prefix(shorter, k);
        assert(shorter.take(k) =~= table.take(k));
        assert(replay_signals(table).take(entry_offset(table, k) as int) =~= replay_signals(
            shorter,
        ).take(entry_offset(table, k) as int));
    }
}

/// Ordered replay: in the replay of a table, the whole traffic of entry `i`
/// comes before the traffic of any later entry `j`, whose opcode byte is the
/// first byte written for it.
pub proof fn lemma_replay_order(table: Seq<(u8, Seq<u8>)>, i: int, j: int)
    requires
        0 <= i < j < table.len(),
    ensures
        entry_offset(table, i + 1) <= entry_offset(table, j),
        entry_offset(table, j + 1) <= replay_signals(table).len(),
        replay_signals(table).subrange(
            entry_offset(table, i) as int,
            entry_offset(table, i + 1) as int,
        ) == command_signals(table[i].0, table[i].1),
        replay_signals(table).subrange(
            entry_offset(table, j) as int,
            entry_offset(table, j + 1) as int,
        ) == command_signals(table[j].0, table[j].1),
        replay_signals(table)[entry_offset(table, j) as int + 2] == Signal::Write(seq![table[j].0]),
{
    let r = replay_signals(table);
    lemma_replay_step(table, i);
    lemma_replay_step(table, j);
    lemma_replay_prefix(table, i + 1);
    lemma_replay_prefix(table, j + 1);
    lemma_replay_prefix(table.take(j), i + 1);
    assert(table.take(j).take(i + 1) =~= table.take(i + 1));
    assert(r.subrange(entry_offset(table, i) as int, entry_offset(table, i + 1) as int)
        =~= r.take(entry_offset(table, i + 1) as int).subrange(
        entry_offset(table, i) as int,
        entry_offset(table, i + 1) as int,
    ));
    assert(r.subrange(entry_offset(table, i) as int, entry_offset(table, i + 1) as int)
        =~= command_signals(table[i].0, table[i].1));
    assert(r.subrange(entry_offset(table, j) as int, entry_offset(table, j + 1) as int)
        =~= r.take(entry_offset(table, j + 1) as int).subrange(
        entry_offset(table, j) as int,
        entry_offset(table, j + 1) as int,
    ));
    assert(r.subrange(entry_offset(table, j) as int, entry_offset(table, j + 1) as int)
        =~= command_signals(table[j].0, table[j].1));
    assert(r[entry_offset(table, j) as int + 2] == r.subrange(
        entry_offset(table, j) as int,
        entry_offset(table, j + 1) as int,
    )[2]);
}

fn entry(opcode: u8, params: &[u8]) -> (e: InitCommand)
    ensures
        e@ == (opcode, params@),
{
    InitCommand { opcode, params: copy_bytes(params) }
}

/// The ILI9341 power-on table, in the order it must be replayed.
pub fn ili9341_init_table() -> (table: Vec<InitCommand>)
    ensures
        table_model(table@) == ili9341_init_sequence(),
{
    let mut t: Vec<InitCommand> = Vec::new();
    t.push(entry(0xEF, &[0x03, 0x80, 0x02]));
    t.push(entry(0xCF, &[0x00, 0xc1, 0x30]));
    t.push(entry(0xED, &[0x64, 0x03, 0x12, 0x81]));
    t.push(entry(0xE8, &[0x85, 0x00, 0x78]));
    t.push(entry(0xCB, &[0x39, 0x2c, 0x00, 0x34, 0x02]));
    t.push(entry(0xF7, &[0x20]));
    t.push(entry(0xEA, &[0x00, 0x00]));
    t.push(entry(0xC0, &[0x23]));
    t.push(entry(0xC1, &[0x10]));
    t.push(entry(0xC5, &[0x3e, 0x28]));
    t.push(entry(0xC7, &[0x86]));
    t.push(entry(0x36, &[0x48]));
    t.push(entry(0x3A, &[0x55]));
    t.push(entry(0xB1, &[0x00, 0x18]));
    t.push(entry(0xB6, &[0x08, 0x82, 0x27]));
    t.push(entry(0xF2, &[0x00]));
    t.push(entry(0x26, &[0x01]));
    t.push(entry(0xE0, &[
        0x0f, 0x31, 0x2b, 0x0c, 0x0e, 0x08, 0x4e, 0xf1, 0x37, 0x07, 0x10, 0x03, 0x0e, 0x09, 0x00,
    ]));
    t.push(entry(0xE1, &[
        0x00, 0x0e, 0x14, 0x03, 0x11, 0x07, 0x31, 0xc1, 0x48, 0x08, 0x0f, 0x0c, 0x31, 0x36, 0x0f,
    ]));
    t.push(entry(SLEEP_OUT, &[]));
    t.push(entry(DISPLAY_ON, &[]));
    assert(table_model(t@) =~~= ili9341_init_sequence());
    t
}

impl AsyncIli9341 {
    /// A driver with the ILI9341 power-on initialisation planned, status
    /// reads included.
    pub fn new() -> (d: AsyncIli9341)
        ensures
            d@ == init_signals(ili9341_init_sequence(), true),
    {
        let mut d = AsyncIli9341::idle();
        let table = ili9341_init_table();
        d.init(table.as_slice(), true);
        assert(d@ =~= init_signals(ili9341_init_sequence(), true));
        d
    }

    /// Brings the panel from power-on to a displayable state: releases
    /// data/command and chip select, resets it by hardware and by software,
    /// then replays every entry of `table` in order as one command each. With
    /// `diagnostics`, the status register is read before and after the replay.
    pub fn init(&mut self, table: &[InitCommand], diagnostics: bool)
        ensures
            final(self)@ == old(self)@ + init_signals(table_model(table@), diagnostics),
    {
        let ghost start = self@;
        self.release_lines();
        self.hw_reset();
        self.sw_reset();
        self.status_read(diagnostics);
        let ghost before_replay = self@;
        let ghost model = table_model(table@);
        let mut k: usize = 0;
        while k < table.len()
            invariant
                k <= table@.len(),
                model == table_model(table@),
                self@ == before_replay + replay_signals(model.take(k as int)),
            decreases table@.len() - k,
        {
            let e = &table[k];
            self.command(e.opcode, e.params.as_slice());
            k = k + 1;
            assert(model.take(k as int).drop_last() =~= model.take(k - 1));
            assert(self@ =~= before_replay + replay_signals(model.take(k as int)));
        }
        assert(model.take(k as int) =~= model);
        self.status_read(diagnostics);
        assert(self@ =~= start + init_signals(model, diagnostics));
    }

    fn status_read(&mut self, diagnostics: bool)
        ensures
            final(self)@ == old(self)@ + status_read_signals(diagnostics),
    {
        if diagnostics {
            let read = self.read_register(READ_DISPLAY_STATUS, STATUS_READ_LEN);
            assert(read is Ok);
        } else {
            assert(self@ =~= self@ + status_read_signals(diagnostics));
        }
    }
}

} // verus!
