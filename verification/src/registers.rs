//! The register window of the device: offsets, bit fields and fixed settings.

use vstd::prelude::*;

verus! {

/// Number of bytes that the register window occupies.
pub const REG_TOTAL_SIZE: usize = 8;

/// Byte to transmit or receive (divisor latch closed).
pub const REG_DATA: usize = 0;

/// Low byte of the baud divisor (divisor latch open).
pub const REG_DIVISOR_LSB: usize = 0;

/// High byte of the baud divisor (divisor latch open).
pub const REG_DIVISOR_MSB: usize = 1;

/// Interrupt enable flags (divisor latch closed).
pub const REG_IRQ_EN: usize = 1;

/// FIFO enable, trigger level and interrupt identification.
pub const REG_FIFO_CONTROL: usize = 2;

/// Word length, stop bits, parity and the divisor latch access bit.
pub const REG_LINE_CONTROL: usize = 3;

/// Modem control lines.
pub const REG_MODEM_CONTROL: usize = 4;

/// Line status flags.
pub const REG_LINE_STATUS: usize = 5;

/// Line control: divisor latch access bit.
pub const LINE_CONTROL_DLAB: u8 = 0x80;

/// Line control: eight data bits, one stop bit, no parity, divisor latch closed.
pub const LINE_CONTROL_8N1: u8 = 0x03;

/// FIFO control: FIFOs enabled and cleared, receive trigger at fourteen bytes.
pub const FIFO_CONTROL_ENABLE: u8 = 0xc7;

/// Modem control: interrupt output routed, together with the fixed RTS/DTR pattern.
pub const MODEM_CONTROL_LINES: u8 = 0x0b;

/// Interrupt enable: no source.
pub const IRQ_NONE: u8 = 0;

/// Interrupt enable: received data available.
pub const IRQ_DATA_RECEIVED: u8 = 1;

/// Line status: a received byte is waiting in the data register.
pub const LINE_STATUS_DR: u8 = 0x01;

/// Line status: the transmitter holding register is empty.
pub const LINE_STATUS_THRE: u8 = 0x20;

/// Clock rate that a divisor of one selects, in bits per second.
pub const REFERENCE_RATE: u32 = 115200;

/// Line rate that the device is set to, in bits per second.
pub const BAUD_RATE: u32 = 38400;

/// Number of unsuccessful polls of the line status after which an operation gives up.
pub const LOOP_MAX: usize = 1000;

/// The baud divisor: reference rate over line rate.
pub open spec fn divisor() -> int {
    REFERENCE_RATE as int / BAUD_RATE as int
}

/// Whether a line status value reports a received byte.
pub open spec fn data_ready(status: u8) -> bool {
    status & LINE_STATUS_DR != 0
}

/// Whether a line status value reports an empty transmitter holding register.
pub open spec fn transmit_empty(status: u8) -> bool {
    status & LINE_STATUS_THRE != 0
}

/// Whether the whole register window that starts at `base` lies in the address space.
pub open spec fn window_fits(base: usize) -> bool {
    base + REG_TOTAL_SIZE - 1 <= usize::MAX
}

/// The address of the register at `offset` in the window that starts at `base`.
pub open spec fn register(base: usize, offset: usize) -> usize {
    (base + offset) as usize
}

/// Low and high byte of the baud divisor.
pub fn divisor_bytes() -> (bytes: (u8, u8))
    ensures
        bytes.0 == divisor() % 256,
        bytes.1 == divisor() / 256,
{
    let d: u32 = REFERENCE_RATE / BAUD_RATE;
    ((d % 256) as u8, (d / 256) as u8)
}

/// The divisor divides the reference rate down to the line rate exactly.
pub proof fn divisor_selects_baud_rate()
    ensures
        divisor() == 3,
        divisor() * BAUD_RATE == REFERENCE_RATE,
{
}

/// The flags of the line status by position: data ready is bit 0, transmitter
/// holding register empty is bit 5.
pub proof fn status_flags_by_position(status: u8)
    ensures
        data_ready(status) <==> status % 2 == 1,
        transmit_empty(status) <==> (status / 32) % 2 == 1,
{
    assert((status & LINE_STATUS_DR != 0) <==> status % 2 == 1) by (bit_vector);
    assert((status & LINE_STATUS_THRE != 0) <==> (status / 32) % 2 == 1) by (bit_vector);
}

/// Every register of a window that lies in the address space has its
/// address at the base plus its offset, and two offsets give two addresses.
pub proof fn registers_are_apart(base: usize, first: usize, second: usize)
    requires
        window_fits(base),
        first < REG_TOTAL_SIZE,
        second < REG_TOTAL_SIZE,
    ensures
        register(base, first) == base + first,
        first != second ==> register(base, first) != register(base, second),
{
}

} // verus!
