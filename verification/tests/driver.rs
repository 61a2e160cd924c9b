use mmio_16550_uart::poll::{Poll, PollState};
use mmio_16550_uart::registers::{divisor_bytes, LOOP_MAX, REG_TOTAL_SIZE};
use mmio_16550_uart::{Access, Fault, Request, UART};

const BASE: usize = 0x1000_0000;

const DATA: usize = BASE;
const IRQ_ENABLE: usize = BASE + 1;
const FIFO_CONTROL: usize = BASE + 2;
const LINE_CONTROL: usize = BASE + 3;
const MODEM_CONTROL: usize = BASE + 4;
const LINE_STATUS: usize = BASE + 5;

const THRE: u8 = 0x20;
const DR: u8 = 0x01;

/// A device made of memory. Offsets 0 and 1 lead to the divisor while bit 7
/// of the line control register is set. Reads of the line status take their
/// values from a script as long as it lasts, then from the register itself.
struct Device {
    base: usize,
    registers: [u8; 8],
    divisor: [u8; 2],
    status_script: Vec<u8>,
    log: Vec<Access>,
}

impl Device {
    fn at(base: usize) -> Device {
        Device {
            base,
            registers: [0; 8],
            divisor: [0xff; 2],
            status_script: Vec::new(),
            log: Vec::new(),
        }
    }

    fn new() -> Device {
        Device::at(BASE)
    }

    fn with_status(status: u8) -> Device {
        let mut device = Device::new();
        device.registers[5] = status;
        device
    }

    fn latch_open(&self) -> bool {
        self.registers[3] & 0x80 != 0
    }

    fn read(&mut self, addr: usize) -> u8 {
        let offset = addr - self.base;
        let value = if offset == 5 && !self.status_script.is_empty() {
            self.status_script.remove(0)
        } else if offset < 2 && self.latch_open() {
            self.divisor[offset]
        } else {
            self.registers[offset]
        };
        self.log.push(Access::Read { addr, value });
        value
    }

    fn write(&mut self, addr: usize, value: u8) {
        let offset = addr - self.base;
        if offset < 2 && self.latch_open() {
            self.divisor[offset] = value;
        } else {
            self.registers[offset] = value;
        }
        self.log.push(Access::Write { addr, value });
    }

    fn reads_of(&self, addr: usize) -> usize {
        self.log.iter().filter(|a| matches!(a, Access::Read { addr: at, .. } if *at == addr)).count()
    }

    fn writes(&self) -> Vec<Access> {
        self.log.iter().filter(|a| matches!(a, Access::Write { .. })).copied().collect()
    }
}

fn run_setup(device: &mut Device, base: usize) -> Result<UART, Fault> {
    let mut setup = UART::new(base);
    for _ in 0..100 {
        match setup.request() {
            Request::Read { addr } => {
                device.read(addr);
            }
            Request::Write { addr, value } => {
                device.write(addr, value);
                setup.write_done();
            }
            Request::Done(result) => return result,
        }
    }
    panic!("setup did not end");
}

fn run_send(device: &mut Device, uart: &UART, byte: u8) -> Result<(), Fault> {
    let mut transmit = uart.send_byte(byte);
    for _ in 0..10 * LOOP_MAX {
        match transmit.request() {
            Request::Read { addr } => {
                let value = device.read(addr);
                transmit.read_done(value);
            }
            Request::Write { addr, value } => {
                device.write(addr, value);
                transmit.write_done();
            }
            Request::Done(result) => return result,
        }
    }
    panic!("transmit did not end");
}

fn run_read(device: &mut Device, uart: &UART) -> Result<u8, Fault> {
    let mut receive = uart.read_byte();
    for _ in 0..10 * LOOP_MAX {
        match receive.request() {
            Request::Read { addr } => {
                let value = device.read(addr);
                receive.read_done(value);
            }
            Request::Write { addr, value } => {
                device.write(addr, value);
            }
            Request::Done(result) => return result,
        }
    }
    panic!("receive did not end");
}

fn fresh_uart() -> UART {
    run_setup(&mut Device::new(), BASE).unwrap()
}

#[test]
fn it_works() {
    assert_eq!(2 + 2, 4);
}

#[test]
fn setup_writes_the_sequence_in_order() {
    let mut device = Device::new();
    let result = run_setup(&mut device, BASE);
    assert!(result.is_ok());
    assert_eq!(
        device.log,
        vec![
            Access::Write { addr: IRQ_ENABLE, value: 0x00 },
            Access::Write { addr: LINE_CONTROL, value: 0x80 },
            Access::Write { addr: DATA, value: 0x03 },
            Access::Write { addr: IRQ_ENABLE, value: 0x00 },
            Access::Write { addr: LINE_CONTROL, value: 0x03 },
            Access::Write { addr: FIFO_CONTROL, value: 0xc7 },
            Access::Write { addr: MODEM_CONTROL, value: 0x0b },
            Access::Write { addr: IRQ_ENABLE, value: 0x01 },
        ]
    );
}

#[test]
fn setup_leaves_the_device_configured() {
    let mut device = Device::new();
    device.registers[1] = 0x0f;
    run_setup(&mut device, BASE).unwrap();
    assert_eq!(device.divisor, [3, 0]);
    assert_eq!(device.registers[0], 0);
    assert_eq!(device.registers[1], 1);
    assert_eq!(device.registers[2], 0xc7);
    assert_eq!(device.registers[3], 0x03);
    assert_eq!(device.registers[4], 0x0b);
    assert!(!device.latch_open());
}

#[test]
fn setup_step_by_step() {
    let mut setup = UART::new(0x4000);
    assert_eq!(setup.request(), Request::Write { addr: 0x4001, value: 0 });
    assert_eq!(setup.request(), Request::Write { addr: 0x4001, value: 0 });
    setup.write_done();
    assert_eq!(setup.request(), Request::Write { addr: 0x4003, value: 0x80 });
    setup.write_done();
    assert_eq!(setup.request(), Request::Write { addr: 0x4000, value: 3 });
    setup.write_done();
    assert_eq!(setup.request(), Request::Write { addr: 0x4001, value: 0 });
    setup.write_done();
    assert_eq!(setup.request(), Request::Write { addr: 0x4003, value: 3 });
    setup.write_done();
    assert_eq!(setup.request(), Request::Write { addr: 0x4002, value: 0xc7 });
    setup.write_done();
    assert_eq!(setup.request(), Request::Write { addr: 0x4004, value: 0x0b });
    setup.write_done();
    assert_eq!(setup.request(), Request::Write { addr: 0x4001, value: 1 });
    setup.write_done();
    assert!(matches!(setup.request(), Request::Done(Ok(_))));
}

#[test]
fn setup_ignores_reports_after_its_end() {
    let mut setup = UART::new(BASE);
    for _ in 0..8 {
        setup.write_done();
    }
    let first = setup.request();
    assert!(matches!(first, Request::Done(Ok(_))));
    setup.write_done();
    setup.write_done();
    assert_eq!(setup.request(), first);
}

#[test]
fn setup_at_the_top_of_the_address_space() {
    let base = usize::MAX - 7;
    let mut setup = UART::new(base);
    let mut highest = 0;
    for _ in 0..8 {
        match setup.request() {
            Request::Write { addr, .. } => {
                assert!(addr >= base);
                highest = highest.max(addr);
            }
            _ => panic!("a write was expected"),
        }
        setup.write_done();
    }
    assert_eq!(highest, base + 4);
    let uart = match setup.request() {
        Request::Done(Ok(uart)) => uart,
        _ => panic!("the handle was expected"),
    };
    assert_eq!(uart.send_byte(0).request(), Request::Read { addr: usize::MAX - 2 });
}

#[test]
fn size_is_always_eight() {
    let uart = fresh_uart();
    assert_eq!(uart.size(), 8);
    assert_eq!(uart.size(), REG_TOTAL_SIZE);
    let mut device = Device::with_status(THRE | DR);
    run_send(&mut device, &uart, 0x55).unwrap();
    assert_eq!(uart.size(), 8);
    run_read(&mut device, &uart).unwrap();
    assert_eq!(uart.size(), 8);
    let mut silent = Device::new();
    assert!(run_read(&mut silent, &uart).is_err());
    assert_eq!(uart.size(), 8);
    let other = run_setup(&mut Device::at(0), 0).unwrap();
    assert_eq!(other.size(), 8);
}

#[test]
fn send_byte_when_ready_at_once() {
    let uart = fresh_uart();
    let mut device = Device::with_status(THRE);
    assert_eq!(run_send(&mut device, &uart, 0x7e), Ok(()));
    assert_eq!(
        device.log,
        vec![
            Access::Read { addr: LINE_STATUS, value: THRE },
            Access::Write { addr: DATA, value: 0x7e },
        ]
    );
}

#[test]
fn send_byte_gives_up_after_the_budget() {
    let uart = fresh_uart();
    let mut device = Device::with_status(0xff & !THRE);
    assert_eq!(run_send(&mut device, &uart, 0x7e), Err(Fault::TxNotEmpty));
    assert_eq!(LOOP_MAX, 1000);
    assert_eq!(device.log.len(), 1000);
    assert_eq!(device.reads_of(LINE_STATUS), 1000);
    assert!(device.writes().is_empty());
    assert_eq!(device.registers[0], 0);
}

#[test]
fn send_byte_when_ready_on_a_later_poll() {
    let uart = fresh_uart();
    for k in [2usize, 3, 500, 999, 1000] {
        let mut device = Device::new();
        device.status_script = vec![0x00; k - 1];
        device.status_script.push(THRE);
        assert_eq!(run_send(&mut device, &uart, 0xa5), Ok(()));
        assert_eq!(device.log.len(), k + 1);
        assert_eq!(device.reads_of(LINE_STATUS), k);
        assert_eq!(device.writes(), vec![Access::Write { addr: DATA, value: 0xa5 }]);
        assert_eq!(device.log[k], Access::Write { addr: DATA, value: 0xa5 });
    }
}

#[test]
fn send_byte_too_late_by_one_poll() {
    let uart = fresh_uart();
    let mut device = Device::new();
    device.status_script = vec![0x00; 1000];
    device.registers[5] = THRE;
    assert_eq!(run_send(&mut device, &uart, 0xa5), Err(Fault::TxNotEmpty));
    assert_eq!(device.reads_of(LINE_STATUS), 1000);
    assert!(device.writes().is_empty());
}

#[test]
fn send_byte_looks_at_bit_five_only() {
    let uart = fresh_uart();
    let mut device = Device::with_status(0xdf);
    assert_eq!(run_send(&mut device, &uart, 1), Err(Fault::TxNotEmpty));
    let mut device = Device::with_status(0xff);
    assert_eq!(run_send(&mut device, &uart, 1), Ok(()));
    assert_eq!(device.log.len(), 2);
}

#[test]
fn send_byte_step_by_step() {
    let uart = fresh_uart();
    let mut transmit = uart.send_byte(0x41);
    assert_eq!(transmit.request(), Request::Read { addr: LINE_STATUS });
    transmit.write_done();
    assert_eq!(transmit.request(), Request::Read { addr: LINE_STATUS });
    transmit.read_done(0x01);
    assert_eq!(transmit.request(), Request::Read { addr: LINE_STATUS });
    transmit.read_done(0x21);
    assert_eq!(transmit.request(), Request::Write { addr: DATA, value: 0x41 });
    transmit.read_done(0x00);
    transmit.read_done(0x20);
    assert_eq!(transmit.request(), Request::Write { addr: DATA, value: 0x41 });
    transmit.write_done();
    assert_eq!(transmit.request(), Request::Done(Ok(())));
    transmit.write_done();
    transmit.read_done(0x00);
    assert_eq!(transmit.request(), Request::Done(Ok(())));
}

#[test]
fn send_byte_stays_failed() {
    let uart = fresh_uart();
    let mut transmit = uart.send_byte(0x41);
    for _ in 0..1000 {
        assert_eq!(transmit.request(), Request::Read { addr: LINE_STATUS });
        transmit.read_done(0x00);
    }
    assert_eq!(transmit.request(), Request::Done(Err(Fault::TxNotEmpty)));
    transmit.read_done(0x20);
    transmit.write_done();
    assert_eq!(transmit.request(), Request::Done(Err(Fault::TxNotEmpty)));
}

#[test]
fn read_byte_when_ready_on_poll_k() {
    let uart = fresh_uart();
    for k in [1usize, 2, 7, 999, 1000] {
        let mut device = Device::new();
        device.status_script = vec![0x60; k - 1];
        device.status_script.push(0x61);
        device.registers[0] = 0x99;
        assert_eq!(run_read(&mut device, &uart), Ok(0x99));
        assert_eq!(device.log.len(), k + 1);
        assert_eq!(device.reads_of(LINE_STATUS), k);
        assert_eq!(device.reads_of(DATA), 1);
        assert_eq!(device.log[k], Access::Read { addr: DATA, value: 0x99 });
        assert!(device.writes().is_empty());
    }
}

#[test]
fn read_byte_gives_up_after_the_budget() {
    let uart = fresh_uart();
    let mut device = Device::with_status(0xfe);
    device.registers[0] = 0x99;
    assert_eq!(run_read(&mut device, &uart), Err(Fault::DataNotReady));
    assert_eq!(device.log.len(), 1000);
    assert_eq!(device.reads_of(LINE_STATUS), 1000);
    assert_eq!(device.reads_of(DATA), 0);
    assert!(device.writes().is_empty());
}

#[test]
fn read_byte_too_late_by_one_poll() {
    let uart = fresh_uart();
    let mut device = Device::new();
    device.status_script = vec![0x00; 1000];
    device.registers[5] = DR;
    assert_eq!(run_read(&mut device, &uart), Err(Fault::DataNotReady));
    assert_eq!(device.reads_of(DATA), 0);
}

#[test]
fn read_byte_returns_any_data_value() {
    let uart = fresh_uart();
    for byte in [0x00u8, 0x01, 0x20, 0x21, 0x80, 0xff] {
        let mut device = Device::with_status(DR);
        device.registers[0] = byte;
        assert_eq!(run_read(&mut device, &uart), Ok(byte));
        assert_eq!(
            device.log,
            vec![
                Access::Read { addr: LINE_STATUS, value: DR },
                Access::Read { addr: DATA, value: byte },
            ]
        );
    }
}

#[test]
fn read_byte_step_by_step() {
    let uart = fresh_uart();
    let mut receive = uart.read_byte();
    assert_eq!(receive.request(), Request::Read { addr: LINE_STATUS });
    receive.read_done(0x20);
    assert_eq!(receive.request(), Request::Read { addr: LINE_STATUS });
    receive.read_done(0x01);
    assert_eq!(receive.request(), Request::Read { addr: DATA });
    receive.read_done(0x42);
    assert_eq!(receive.request(), Request::Done(Ok(0x42)));
    receive.read_done(0x43);
    assert_eq!(receive.request(), Request::Done(Ok(0x42)));
}

#[test]
fn read_byte_stays_failed() {
    let uart = fresh_uart();
    let mut receive = uart.read_byte();
    for _ in 0..1000 {
        receive.read_done(0xfe);
    }
    assert_eq!(receive.request(), Request::Done(Err(Fault::DataNotReady)));
    receive.read_done(0x01);
    assert_eq!(receive.request(), Request::Done(Err(Fault::DataNotReady)));
}

#[test]
fn round_trip_over_a_register_file() {
    let mut device = Device::new();
    let uart = run_setup(&mut device, BASE).unwrap();
    device.registers[5] = THRE;
    assert_eq!(run_send(&mut device, &uart, 0x41), Ok(()));
    assert_eq!(device.registers[0], 0x41);

    device.registers[5] |= DR;
    device.registers[0] = 0x42;
    let before = device.registers;
    let writes_before = device.writes().len();
    assert_eq!(run_read(&mut device, &uart), Ok(0x42));
    assert_eq!(device.registers, before);
    assert_eq!(device.writes().len(), writes_before);
    assert_eq!(device.registers[5] & THRE, THRE);
    assert_eq!(run_send(&mut device, &uart, 0x43), Ok(()));
    assert_eq!(device.registers[0], 0x43);
}

#[test]
fn status_flags() {
    assert!(UART::is_transmit_empty(0x20));
    assert!(UART::is_transmit_empty(0xff));
    assert!(UART::is_transmit_empty(0x61));
    assert!(!UART::is_transmit_empty(0x00));
    assert!(!UART::is_transmit_empty(0xdf));
    assert!(!UART::is_transmit_empty(0x01));
    assert!(UART::is_data_ready(0x01));
    assert!(UART::is_data_ready(0xff));
    assert!(UART::is_data_ready(0x21));
    assert!(!UART::is_data_ready(0x00));
    assert!(!UART::is_data_ready(0xfe));
    assert!(!UART::is_data_ready(0x20));
}

#[test]
fn divisor_is_the_ratio_of_the_rates() {
    assert_eq!(divisor_bytes(), (3, 0));
}

#[test]
fn poll_is_ready_at_the_first_hit() {
    let mut poll = Poll::new(0x08, 5);
    assert_eq!(poll.state(), PollState::Waiting);
    poll.observe(0xf7);
    assert_eq!(poll.state(), PollState::Waiting);
    poll.observe(0x08);
    assert_eq!(poll.state(), PollState::Ready);
    poll.observe(0x00);
    poll.observe(0x00);
    poll.observe(0x00);
    poll.observe(0x00);
    assert_eq!(poll.state(), PollState::Ready);
}

#[test]
fn poll_is_exhausted_after_its_budget() {
    let mut poll = Poll::new(0x01, 3);
    poll.observe(0xfe);
    poll.observe(0xfe);
    assert_eq!(poll.state(), PollState::Waiting);
    poll.observe(0xfe);
    assert_eq!(poll.state(), PollState::Exhausted);
    poll.observe(0x01);
    assert_eq!(poll.state(), PollState::Exhausted);
}

#[test]
fn poll_is_ready_on_its_last_read() {
    let mut poll = Poll::new(0x01, 3);
    poll.observe(0x00);
    poll.observe(0x00);
    poll.observe(0x01);
    assert_eq!(poll.state(), PollState::Ready);
}

#[test]
fn poll_without_budget_is_exhausted_at_once() {
    let mut poll = Poll::new(0xff, 0);
    assert_eq!(poll.state(), PollState::Exhausted);
    poll.observe(0xff);
    assert_eq!(poll.state(), PollState::Exhausted);
}

#[test]
fn poll_with_an_empty_mask_never_hits() {
    let mut poll = Poll::new(0x00, 2);
    poll.observe(0xff);
    assert_eq!(poll.state(), PollState::Waiting);
    poll.observe(0xff);
    assert_eq!(poll.state(), PollState::Exhausted);
}
