use embedded_hal::i2c::{ErrorKind, ErrorType, I2c, Operation};
use reglink::{
    command_byte, BusTransfer, Commands, Error, Exchange, I2cInterface, Progress, ReadData, Reply,
    Transfer, WriteData,
};

const ADDRESS: u8 = 0x40;

/// What one bus transaction carried: the target, the bytes written, and the
/// length of the buffer that was read into.
#[derive(Debug, Clone, PartialEq, Eq)]
struct Transaction {
    address: u8,
    written: Vec<u8>,
    read: Option<usize>,
}

/// A bus that records its transactions, answers reads from `answer`, and
/// fails the transaction numbered `fail_at`.
struct RecordingBus {
    log: Vec<Transaction>,
    answer: Vec<u8>,
    fail_at: Option<usize>,
}

impl RecordingBus {
    fn new(answer: &[u8]) -> Self {
        RecordingBus { log: Vec::new(), answer: answer.to_vec(), fail_at: None }
    }

    fn failing(fail_at: usize) -> Self {
        RecordingBus { log: Vec::new(), answer: Vec::new(), fail_at: Some(fail_at) }
    }
}

impl ErrorType for RecordingBus {
    type Error = ErrorKind;
}

impl I2c for RecordingBus {
    fn transaction(
        &mut self,
        address: u8,
        operations: &mut [Operation<'_>],
    ) -> Result<(), ErrorKind> {
        let mut entry = Transaction { address, written: Vec::new(), read: None };
        for operation in operations.iter_mut() {
            match operation {
                Operation::Write(bytes) => entry.written.extend_from_slice(bytes),
                Operation::Read(buffer) => {
                    entry.read = Some(buffer.len());
                    for (slot, byte) in buffer.iter_mut().zip(self.answer.iter()) {
                        *slot = *byte;
                    }
                }
            }
        }
        let index = self.log.len();
        self.log.push(entry);
        if self.fail_at == Some(index) {
            Err(ErrorKind::Bus)
        } else {
            Ok(())
        }
    }
}

fn perform(bus: &mut RecordingBus, transfer: &BusTransfer) -> Result<Vec<u8>, ErrorKind> {
    match transfer {
        BusTransfer::Write { address, bytes } => bus.write(*address, bytes).map(|_| Vec::new()),
        BusTransfer::WriteRead { address, bytes, count } => {
            let mut buffer = vec![0u8; *count];
            bus.write_read(*address, bytes, &mut buffer).map(|_| buffer)
        }
    }
}

fn run<R: Reply>(
    bus: &mut RecordingBus,
    exchange: Exchange<BusTransfer, R>,
) -> Result<R, Error<ErrorKind>> {
    let mut exchange = exchange;
    loop {
        let outcome = perform(bus, exchange.transfer());
        if let Ok(bytes) = &outcome {
            assert_eq!(bytes.len(), exchange.transfer().reads());
        }
        match exchange.advance(outcome)? {
            Progress::Continue(next) => exchange = next,
            Progress::Complete(value) => return Ok(value),
        }
    }
}

fn interface(bus: RecordingBus) -> I2cInterface<RecordingBus> {
    I2cInterface { i2c: bus, address: ADDRESS }
}

#[test]
fn bus_write_register_issues_one_write_of_command_and_value() {
    let mut device = interface(RecordingBus::new(&[]));
    let exchange = device.write_register(5, 0x42);
    assert_eq!(exchange.remaining(), 1);
    let result = run(&mut device.i2c, exchange);
    assert_eq!(result, Ok(()));
    assert_eq!(device.i2c.log.len(), 1);
    let only = &device.i2c.log[0];
    assert_eq!(only.written[0], command_byte(Commands::WReg, 5));
    assert_eq!(only.written[1], 0x42);
    assert_eq!(
        *only,
        Transaction { address: ADDRESS, written: vec![0x17, 0x42], read: None }
    );
}

#[test]
fn bus_write_register_plans_exactly_that_transfer() {
    let device = interface(RecordingBus::new(&[]));
    let exchange = device.write_register(5, 0x42);
    assert_eq!(
        *exchange.transfer(),
        BusTransfer::Write { address: ADDRESS, bytes: vec![command_byte(Commands::WReg, 5), 0x42] }
    );
    assert_eq!(exchange.transfer().reads(), 0);
}

#[test]
fn bus_write_data_issues_one_write_of_the_payload_alone() {
    let mut device = interface(RecordingBus::new(&[]));
    let exchange = device.write_data(0xA7);
    assert_eq!(exchange.remaining(), 1);
    let result = run(&mut device.i2c, exchange);
    assert_eq!(result, Ok(()));
    assert_eq!(
        device.i2c.log,
        vec![Transaction { address: ADDRESS, written: vec![0xA7], read: None }]
    );
}

#[test]
fn bus_read_register_writes_the_command_and_reads_one_byte_back() {
    let mut device = interface(RecordingBus::new(&[0x9C]));
    let exchange = device.read_register(7);
    assert_eq!(exchange.remaining(), 1);
    assert_eq!(
        *exchange.transfer(),
        BusTransfer::WriteRead {
            address: ADDRESS,
            bytes: vec![command_byte(Commands::RReg, 7)],
            count: 1
        }
    );
    let result = run(&mut device.i2c, exchange);
    assert_eq!(result, Ok(0x9C));
    assert_eq!(
        device.i2c.log,
        vec![Transaction { address: ADDRESS, written: vec![0x1E], read: Some(1) }]
    );
}

#[test]
fn bus_read_data_writes_the_opcode_and_decodes_three_bytes() {
    let mut device = interface(RecordingBus::new(&[0x01, 0x02, 0x03]));
    let exchange = device.read_data();
    assert_eq!(exchange.remaining(), 1);
    let result = run(&mut device.i2c, exchange);
    assert_eq!(result, Ok(0x010203));
    assert_eq!(
        device.i2c.log,
        vec![Transaction {
            address: ADDRESS,
            written: vec![Commands::RData.opcode()],
            read: Some(3)
        }]
    );
}

#[test]
fn bus_read_data_of_all_ones() {
    let mut device = interface(RecordingBus::new(&[0xFF, 0xFF, 0xFF]));
    let exchange = device.read_data();
    assert_eq!(run(&mut device.i2c, exchange), Ok(0x00FF_FFFF));
}

#[test]
fn bus_uses_the_address_it_was_given() {
    let mut device = I2cInterface { i2c: RecordingBus::new(&[0x11]), address: 0x45 };
    let exchange = device.read_register(0);
    assert_eq!(run(&mut device.i2c, exchange), Ok(0x11));
    assert_eq!(device.i2c.log[0].address, 0x45);
    assert_eq!(device.address, 0x45);
}

#[test]
fn bus_reaches_the_highest_register() {
    let mut device = interface(RecordingBus::new(&[]));
    let exchange = device.write_register(63, 0x00);
    assert_eq!(run(&mut device.i2c, exchange), Ok(()));
    assert_eq!(device.i2c.log[0].written, vec![0xFF, 0x00]);
}

#[test]
fn bus_failure_surfaces_as_communication_error() {
    let mut device = interface(RecordingBus::failing(0));
    let exchange = device.write_register(5, 0x42);
    assert_eq!(run(&mut device.i2c, exchange), Err(Error::CommError(ErrorKind::Bus)));
    assert_eq!(device.i2c.log.len(), 1);

    let mut device = interface(RecordingBus::failing(0));
    let exchange = device.write_data(1);
    assert_eq!(run(&mut device.i2c, exchange), Err(Error::CommError(ErrorKind::Bus)));
    assert_eq!(device.i2c.log.len(), 1);

    let mut device = interface(RecordingBus::failing(0));
    let exchange = device.read_register(7);
    assert_eq!(run(&mut device.i2c, exchange), Err(Error::CommError(ErrorKind::Bus)));
    assert_eq!(device.i2c.log.len(), 1);

    let mut device = interface(RecordingBus::failing(0));
    let exchange = device.read_data();
    assert_eq!(run(&mut device.i2c, exchange), Err(Error::CommError(ErrorKind::Bus)));
    assert_eq!(device.i2c.log.len(), 1);
}

#[test]
fn bus_keeps_no_state_between_operations() {
    let mut device = interface(RecordingBus::failing(0));
    let exchange = device.write_register(1, 2);
    assert_eq!(run(&mut device.i2c, exchange), Err(Error::CommError(ErrorKind::Bus)));
    let exchange = device.write_register(1, 2);
    assert_eq!(run(&mut device.i2c, exchange), Ok(()));
    assert_eq!(device.i2c.log.len(), 2);
    assert_eq!(device.i2c.log[0], device.i2c.log[1]);
}

#[test]
fn bus_transfer_clone_is_equal() {
    let transfer = BusTransfer::WriteRead { address: 1, bytes: vec![2, 3], count: 4 };
    assert_eq!(transfer.clone(), transfer);
    let transfer = BusTransfer::Write { address: 1, bytes: vec![2, 3] };
    assert_eq!(transfer.clone(), transfer);
}
