use ili9341_driver::bus::{BusOp, Level, Line};
use ili9341_driver::colour::Colour;
use ili9341_driver::driver::{
    fill_buffer, AsyncIli9341, DisplayError, COLUMN_ADDRESS_SET, MEMORY_WRITE, NOOP,
    PAGE_ADDRESS_SET,
};
use ili9341_driver::init::{ili9341_init_table, InitCommand};
use ili9341_driver::session::{Exchange, Outcome};
use ili9341_driver::window::{encode_coords, AddressWindow};

fn command_ops(opcode: u8, payload: &[u8]) -> Vec<BusOp> {
    let mut ops = vec![
        BusOp::Drive(Line::DataCommand, Level::Low),
        BusOp::Drive(Line::ChipSelect, Level::Low),
        BusOp::Write(vec![opcode]),
        BusOp::Drive(Line::DataCommand, Level::High),
    ];
    if !payload.is_empty() {
        ops.push(BusOp::Write(payload.to_vec()));
    }
    ops.push(BusOp::Drive(Line::ChipSelect, Level::High));
    ops
}

fn write_data_ops(data: &[u8]) -> Vec<BusOp> {
    vec![
        BusOp::Drive(Line::DataCommand, Level::High),
        BusOp::Drive(Line::ChipSelect, Level::Low),
        BusOp::Write(data.to_vec()),
        BusOp::Drive(Line::ChipSelect, Level::High),
    ]
}

fn red() -> Colour {
    Colour::new(255, 0, 0)
}

fn clear_ops(x0: u16, y0: u16, x1: u16, y1: u16, colour: Colour) -> Vec<BusOp> {
    let mut d = AsyncIli9341::idle();
    let w = AddressWindow::new(x0, y0, x1, y1).unwrap();
    d.clear(&w, colour);
    d.take_ops()
}

#[test]
fn command_frames_opcode_and_payload() {
    let mut d = AsyncIli9341::idle();
    d.command(0x36, &[0x48]);
    assert_eq!(d.take_ops(), command_ops(0x36, &[0x48]));
}

#[test]
fn command_dc_low_only_for_opcode() {
    let mut d = AsyncIli9341::idle();
    d.command(0xCB, &[0x39, 0x2c, 0x00, 0x34, 0x02]);
    let ops = d.take_ops();
    let mut dc = Level::High;
    let mut cs = Level::High;
    let mut low_bytes: Vec<u8> = Vec::new();
    let mut high_bytes: Vec<u8> = Vec::new();
    for op in &ops {
        match op {
            BusOp::Drive(Line::DataCommand, l) => dc = *l,
            BusOp::Drive(Line::ChipSelect, l) => cs = *l,
            BusOp::Write(b) => {
                assert_eq!(cs, Level::Low);
                if dc == Level::Low {
                    low_bytes.extend_from_slice(b);
                } else {
                    high_bytes.extend_from_slice(b);
                }
            }
            _ => {}
        }
    }
    assert_eq!(low_bytes, vec![0xCB]);
    assert_eq!(high_bytes, vec![0x39, 0x2c, 0x00, 0x34, 0x02]);
    assert_eq!(ops.last(), Some(&BusOp::Drive(Line::ChipSelect, Level::High)));
}

#[test]
fn command_without_payload_writes_opcode_only() {
    let mut d = AsyncIli9341::idle();
    d.command(NOOP, &[]);
    let ops = d.take_ops();
    assert_eq!(ops.len(), 5);
    assert_eq!(ops, command_ops(0x00, &[]));
}

#[test]
fn hw_reset_holds_reset_low_then_high() {
    let mut d = AsyncIli9341::idle();
    d.hw_reset();
    assert_eq!(
        d.take_ops(),
        vec![
            BusOp::Drive(Line::Reset, Level::Low),
            BusOp::DelayMs(50),
            BusOp::Drive(Line::Reset, Level::High),
            BusOp::DelayMs(50),
        ]
    );
}

#[test]
fn sw_reset_waits_after_opcode() {
    let mut d = AsyncIli9341::idle();
    d.sw_reset();
    let mut expected = command_ops(0x01, &[]);
    expected.push(BusOp::DelayMs(120));
    assert_eq!(d.take_ops(), expected);
}

#[test]
fn clear_square_window_red() {
    let colour = red();
    assert_eq!(colour.to_be_bytes(), [0xF8, 0x00]);
    let ops = clear_ops(0, 0, 63, 63, colour);
    let mut expected = command_ops(COLUMN_ADDRESS_SET, &[0, 0, 0, 0]);
    expected.extend(command_ops(PAGE_ADDRESS_SET, &[0, 63, 0, 63]));
    expected.extend(command_ops(MEMORY_WRITE, &[]));
    let block: Vec<u8> = [0xF8u8, 0x00].repeat(32);
    assert_eq!(block.len(), 64);
    for _ in 0..64 {
        expected.extend(write_data_ops(&block));
    }
    expected.extend(command_ops(NOOP, &[]));
    assert_eq!(ops, expected);
    let blocks = ops
        .iter()
        .filter(|op| matches!(op, BusOp::Write(b) if b.len() == 64))
        .count();
    assert_eq!(blocks, 64);
}

#[test]
fn clear_twice_gives_identical_traffic() {
    let w = AddressWindow::new(3, 7, 40, 20).unwrap();
    let colour = Colour::new(0, 63, 0);
    let mut d = AsyncIli9341::idle();
    d.clear(&w, colour);
    let first = d.take_ops();
    d.clear(&w, colour);
    let second = d.take_ops();
    assert!(!first.is_empty());
    assert_eq!(first, second);
}

#[test]
fn clear_65_pixels_writes_one_block() {
    let ops = clear_ops(0, 0, 64, 0, Colour::from_raw(0x001F));
    let blocks: Vec<&BusOp> = ops
        .iter()
        .filter(|op| matches!(op, BusOp::Write(b) if b.len() == 64))
        .collect();
    assert_eq!(blocks.len(), 1);
    assert_eq!(blocks[0], &BusOp::Write([0x00u8, 0x1F].repeat(32)));
    assert_eq!(ops.len(), 6 + 6 + 5 + 4 + 5);
}

#[test]
fn clear_63_pixels_writes_no_block() {
    let ops = clear_ops(10, 10, 72, 10, red());
    let mut expected = command_ops(COLUMN_ADDRESS_SET, &[0, 10, 0, 10]);
    expected.extend(command_ops(PAGE_ADDRESS_SET, &[0, 72, 0, 10]));
    expected.extend(command_ops(MEMORY_WRITE, &[]));
    expected.extend(command_ops(NOOP, &[]));
    assert_eq!(ops, expected);
}

#[test]
fn init_replays_table_in_order() {
    let table = vec![
        InitCommand { opcode: 0xC0, params: vec![0x23] },
        InitCommand { opcode: 0x3A, params: vec![0x55] },
        InitCommand { opcode: 0x11, params: vec![] },
    ];
    let mut d = AsyncIli9341::idle();
    d.init(&table, false);
    let mut expected = vec![
        BusOp::Drive(Line::DataCommand, Level::High),
        BusOp::Drive(Line::ChipSelect, Level::High),
        BusOp::Drive(Line::Reset, Level::Low),
        BusOp::DelayMs(50),
        BusOp::Drive(Line::Reset, Level::High),
        BusOp::DelayMs(50),
    ];
    expected.extend(command_ops(0x01, &[]));
    expected.push(BusOp::DelayMs(120));
    expected.extend(command_ops(0xC0, &[0x23]));
    expected.extend(command_ops(0x3A, &[0x55]));
    expected.extend(command_ops(0x11, &[]));
    assert_eq!(d.take_ops(), expected);
}

#[test]
fn new_plans_full_power_on() {
    let mut d = AsyncIli9341::new();
    let ops = d.take_ops();
    let status_read = vec![
        BusOp::Drive(Line::DataCommand, Level::Low),
        BusOp::Drive(Line::ChipSelect, Level::Low),
        BusOp::Write(vec![0x09]),
        BusOp::Drive(Line::DataCommand, Level::High),
        BusOp::Transfer(5),
        BusOp::Drive(Line::ChipSelect, Level::High),
    ];
    let table = ili9341_init_table();
    assert_eq!(table.len(), 21);
    assert_eq!(table[12].opcode, 0x3A);
    assert_eq!(table[12].params, vec![0x55]);
    assert_eq!(table[17].params.len(), 15);
    assert_eq!(table[18].params.len(), 15);
    let mut expected = vec![
        BusOp::Drive(Line::DataCommand, Level::High),
        BusOp::Drive(Line::ChipSelect, Level::High),
        BusOp::Drive(Line::Reset, Level::Low),
        BusOp::DelayMs(50),
        BusOp::Drive(Line::Reset, Level::High),
        BusOp::DelayMs(50),
    ];
    expected.extend(command_ops(0x01, &[]));
    expected.push(BusOp::DelayMs(120));
    expected.extend(status_read.iter().map(copy_op));
    for e in &table {
        expected.extend(command_ops(e.opcode, &e.params));
    }
    expected.extend(status_read.iter().map(copy_op));
    assert_eq!(ops, expected);
    assert_eq!(table[19].opcode, 0x11);
    assert_eq!(table[20].opcode, 0x29);
    assert!(d.take_ops().is_empty());
}

fn copy_op(op: &BusOp) -> BusOp {
    match op {
        BusOp::Drive(l, v) => BusOp::Drive(*l, *v),
        BusOp::Write(b) => BusOp::Write(b.clone()),
        BusOp::Transfer(n) => BusOp::Transfer(*n),
        BusOp::DelayMs(ms) => BusOp::DelayMs(*ms),
    }
}

#[test]
fn read_register_within_limit() {
    let mut d = AsyncIli9341::idle();
    assert_eq!(d.read_register(0x0A, 16), Ok(()));
    let ops = d.take_ops();
    assert_eq!(ops[2], BusOp::Write(vec![0x0A]));
    assert_eq!(ops[4], BusOp::Transfer(16));
    assert_eq!(ops.len(), 6);
}

#[test]
fn read_register_too_long_is_unsupported() {
    let mut d = AsyncIli9341::idle();
    assert_eq!(d.read_register(0x09, 17), Err(DisplayError::UnsupportedOperation));
    assert!(d.take_ops().is_empty());
}

#[test]
fn colour_channels_are_masked_and_packed() {
    assert_eq!(Colour::new(255, 0, 0).raw, 0xF800);
    assert_eq!(Colour::new(0, 255, 0).raw, 0x07E0);
    assert_eq!(Colour::new(0, 0, 255).raw, 0x001F);
    assert_eq!(Colour::new(1, 2, 3).raw, 0x0843);
    assert_eq!(Colour::from_raw(0x1234).to_be_bytes(), [0x12, 0x34]);
    assert_eq!(Colour::new(0, 63, 0).to_be_bytes(), [0x07, 0xE0]);
}

#[test]
fn fill_buffer_repeats_colour_bytes() {
    let buf = fill_buffer(Colour::from_raw(0xABCD));
    assert_eq!(buf, [0xABu8, 0xCD].repeat(32));
}

#[test]
fn coords_are_big_endian() {
    assert_eq!(encode_coords(0x0102, 0xABCD), [0x01, 0x02, 0xAB, 0xCD]);
    assert_eq!(encode_coords(239, 319), [0x00, 0xEF, 0x01, 0x3F]);
}

#[test]
fn window_bounds_and_pixel_count() {
    assert!(AddressWindow::new(5, 0, 4, 0).is_none());
    assert!(AddressWindow::new(0, 5, 0, 4).is_none());
    let w = AddressWindow::new(10, 10, 20, 50).unwrap();
    assert_eq!((w.x0(), w.y0(), w.x1(), w.y1()), (10, 10, 20, 50));
    assert_eq!(w.pixel_count(), 11 * 41);
    let full = AddressWindow::new(0, 0, 65535, 65535).unwrap();
    assert_eq!(full.pixel_count(), 65536 * 65536);
    assert_eq!(AddressWindow::new(7, 7, 7, 7).unwrap().pixel_count(), 1);
}

#[test]
fn exchange_runs_plan_in_order() {
    let mut d = AsyncIli9341::idle();
    d.command(0x29, &[]);
    let mut ex = Exchange::new(d.take_ops());
    let mut seen: Vec<BusOp> = Vec::new();
    assert_eq!(ex.status(), None);
    while let Some(op) = ex.next_op() {
        seen.push(copy_op(op));
        ex.record(Outcome::Done);
    }
    assert_eq!(seen, command_ops(0x29, &[]));
    assert_eq!(ex.status(), Some(Ok(())));
}

#[test]
fn exchange_stops_at_first_fault() {
    let mut d = AsyncIli9341::idle();
    d.command(0x2A, &[0, 0, 0, 9]);
    let mut ex = Exchange::new(d.take_ops());
    let mut performed = 0;
    while let Some(_) = ex.next_op() {
        performed += 1;
        if performed == 3 {
            ex.record(Outcome::Fault);
        } else {
            ex.record(Outcome::Done);
        }
    }
    assert_eq!(performed, 3);
    assert_eq!(ex.status(), Some(Err(DisplayError::TransportFault)));
    ex.record(Outcome::Done);
    assert!(ex.next_op().is_none());
}

#[test]
fn empty_exchange_is_done() {
    let ex = Exchange::new(Vec::new());
    assert!(ex.next_op().is_none());
    assert_eq!(ex.status(), Some(Ok(())));
}
