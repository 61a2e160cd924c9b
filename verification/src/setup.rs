//! Setting the device up: a fixed sequence of register writes.

use crate::access::{Access, Request};
use crate::registers::{
    divisor, divisor_bytes, register, window_fits, FIFO_CONTROL_ENABLE, IRQ_DATA_RECEIVED, IRQ_NONE,
    LINE_CONTROL_8N1, LINE_CONTROL_DLAB, MODEM_CONTROL_LINES, REG_DIVISOR_LSB, REG_DIVISOR_MSB,
    REG_FIFO_CONTROL, REG_IRQ_EN, REG_LINE_CONTROL, REG_MODEM_CONTROL,
};
use crate::uart::{Fault, UART};
use vstd::prelude::*;

verus! {

/// Number of writes that set the device up.
pub const INIT_WRITES: usize = 8;

/// The writes that set the device up, in the order in which the device needs
/// them: interrupts off; divisor latch opened; the baud divisor, low byte
/// first; frame format, which closes the latch again; FIFOs; modem lines;
/// receive interrupt on.
pub open spec fn init_sequence(base: usize) -> Seq<Access> {
    seq![
        Access::Write { addr: register(base, REG_IRQ_EN), value: IRQ_NONE },
        Access::Write { addr: register(base, REG_LINE_CONTROL), value: LINE_CONTROL_DLAB },
        Access::Write { addr: register(base, REG_DIVISOR_LSB), value: (divisor() % 256) as u8 },
        Access::Write { addr: register(base, REG_DIVISOR_MSB), value: (divisor() / 256) as u8 },
        Access::Write { addr: register(base, REG_LINE_CONTROL), value: LINE_CONTROL_8N1 },
        Access::Write { addr: register(base, REG_FIFO_CONTROL), value: FIFO_CONTROL_ENABLE },
        Access::Write { addr: register(base, REG_MODEM_CONTROL), value: MODEM_CONTROL_LINES },
        Access::Write { addr: register(base, REG_IRQ_EN), value: IRQ_DATA_RECEIVED },
    ]
}

/// A setup as a mathematical value: the device, and how many writes of the
/// sequence have been carried out.
pub struct SetupModel {
    pub uart: UART,
    pub written: nat,
}

impl SetupModel {
    /// A setup of which nothing has been written yet.
    pub open spec fn start(uart: UART) -> SetupModel {
        SetupModel { uart, written: 0 }
    }

    /// The register window lies in the address space, and no more writes
    /// were made than the sequence has.
    pub open spec fn inv(self) -> bool {
        &&& self.uart.wf()
        &&& self.written <= INIT_WRITES
    }

    /// The next write of the sequence, or the handle once all are made.
    pub open spec fn pending(self) -> Request<Result<UART, Fault>> {
        if self.written < INIT_WRITES {
            let next = init_sequence(self.uart.base())[self.written as int];
            Request::Write { addr: next.addr(), value: next.value() }
        } else {
            Request::Done(Ok(self.uart))
        }
    }

    /// The setup after the pending write was made. Once the setup is over,
    /// nothing changes any more.
    pub open spec fn after_write(self) -> SetupModel {
        if self.pending() is Write {
            SetupModel { written: self.written + 1, ..self }
        } else {
            self
        }
    }

    /// Every access made so far, oldest first.
    pub open spec fn history(self) -> Seq<Access> {
        init_sequence(self.uart.base()).take(self.written as int)
    }

    /// The setup after it was driven against a device: every write that is
    /// asked for is made and reported, until the setup is done.
    pub open spec fn run(self) -> SetupModel
        decreases INIT_WRITES - self.written,
    {
        if self.pending() is Write {
            self.after_write().run()
        } else {
            self
        }
    }
}

/// A setup in progress.
pub struct Setup {
    uart: UART,
    written: usize,
}

impl View for Setup {
    type V = SetupModel;

    closed spec fn view(&self) -> SetupModel {
        SetupModel { uart: self.uart, written: self.written as nat }
    }
}

impl Setup {
    #[verifier::type_invariant]
    spec fn well_formed(self) -> bool {
        self@.inv()
    }

    pub(crate) fn start(uart: UART) -> (setup: Setup)
        ensures
            setup@ == SetupModel::start(uart),
    {
        proof {
            use_type_invariant(&uart);
        }
        Setup { uart, written: 0 }
    }

    /// What the caller has to do next.
    pub fn request(&self) -> (request: Request<Result<UART, Fault>>)
        ensures
            request == self@.pending(),
            self@.inv(),
    {
        proof {
            use_type_invariant(self);
        }
        let (low, high): (u8, u8) = divisor_bytes();
        match self.written {
            0 => Request::Write { addr: self.uart.register(REG_IRQ_EN), value: IRQ_NONE },
            1 => Request::Write {
                addr: self.uart.register(REG_LINE_CONTROL),
                value: LINE_CONTROL_DLAB,
            },
            2 => Request::Write { addr: self.uart.register(REG_DIVISOR_LSB), value: low },
            3 => Request::Write { addr: self.uart.register(REG_DIVISOR_MSB), value: high },
            4 => Request::Write {
                addr: self.uart.register(REG_LINE_CONTROL),
                value: LINE_CONTROL_8N1,
            },
            5 => Request::Write {
                addr: self.uart.register(REG_FIFO_CONTROL),
                value: FIFO_CONTROL_ENABLE,
            },
            6 => Request::Write {
                addr: self.uart.register(REG_MODEM_CONTROL),
                value: MODEM_CONTROL_LINES,
            },
            7 => Request::Write { addr: self.uart.register(REG_IRQ_EN), value: IRQ_DATA_RECEIVED },
            _ => Request::Done(Ok(self.uart)),
        }
    }

    /// Takes in that the requested write was made.
    pub fn write_done(&mut self)
        ensures
            final(self)@ == old(self)@.after_write(),
            final(self)@.inv(),
            old(self)@.pending() matches Request::Write { addr, value }
                ==> final(self)@.history() == old(self)@.history().push(
                Access::Write { addr, value },
            ),
            old(self)@.pending() is Done ==> final(self)@.history() == old(self)@.history(),
    {
        proof {
            use_type_invariant(&*self);
        }
        if self.written < INIT_WRITES {
            *self = Setup { uart: self.uart, written: self.written + 1 };
        }
    }
}

/// The setup sequence, value by value: interrupt enable 0, line control
/// 0x80, divisor low 3, divisor high 0, line control 0x03, FIFO control
/// 0xc7, modem control 0x0b, interrupt enable 1.
pub proof fn init_sequence_listed(base: usize)
    requires
        window_fits(base),
    ensures
        init_sequence(base) == seq![
            Access::Write { addr: (base + 1) as usize, value: 0x00 },
            Access::Write { addr: (base + 3) as usize, value: 0x80 },
            Access::Write { addr: base, value: 0x03 },
            Access::Write { addr: (base + 1) as usize, value: 0x00 },
            Access::Write { addr: (base + 3) as usize, value: 0x03 },
            Access::Write { addr: (base + 2) as usize, value: 0xc7 },
            Access::Write { addr: (base + 4) as usize, value: 0x0b },
            Access::Write { addr: (base + 1) as usize, value: 0x01 },
        ],
{
}

/// A setup starts in a sound state, with nothing written.
pub proof fn setup_starts_sound(uart: UART)
    requires
        uart.wf(),
    ensures
        SetupModel::start(uart).inv(),
        SetupModel::start(uart).history() == Seq::<Access>::empty(),
{
}

/// Whatever is reported to a sound setup, it stays sound.
pub proof fn setup_stays_sound(m: SetupModel)
    requires
        m.inv(),
    ensures
        m.after_write().inv(),
{
}

/// However a setup was driven: when it has ended, exactly the writes of the
/// setup sequence have been made, in its order, and the result is the handle
/// to the device. A setup does not fail.
pub proof fn setup_ended(m: SetupModel)
    requires
        m.inv(),
        m.pending() is Done,
    ensures
        m.history() == init_sequence(m.uart.base()),
        m.pending() == Request::Done(Ok::<UART, Fault>(m.uart)),
{
}

/// Against any device, a setup makes exactly the writes of the setup
/// sequence, in its order, and ends with the handle to the device.
pub proof fn setup_writes_init_sequence(uart: UART)
    requires
        uart.wf(),
    ensures
        SetupModel::start(uart).run().pending() == Request::Done(Ok::<UART, Fault>(uart)),
        SetupModel::start(uart).run().history() == init_sequence(uart.base()),
{
    reveal_with_fuel(SetupModel::run, 9);
}

} // verus!
