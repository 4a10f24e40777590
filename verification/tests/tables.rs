use yuffie::proto::console::serial::SerialIo;
use yuffie::proto::console::serial::SerialIoMode;
use yuffie::proto::console::serial::ParityType;
use yuffie::proto::console::serial::StopBitsType;
use yuffie::proto::console::text::{InputKey, SimpleTextInput, SimpleTextOutput,
    SimpleTextOutputMode};
use yuffie::status::Status;
use yuffie::table::{BootServices, Header, RuntimeServices};
use yuffie::table::runtime::Time;
use yuffie::mem::PhysicalAddress;
use yuffie::Event;

fn header() -> Header {
    Header { Signature: 0x5453595320494249, Revision: 0x0002_000A, Size: 96, Crc32: 0, Reserved: 0 }
}

#[test]
fn header_accessors() {
    let h = header();
    assert_eq!(h.signature(), 0x5453595320494249);
    assert_eq!(h.revision(), 0x0002_000A);
    assert_eq!(h.size(), 96);
    assert_eq!(h.crc32(), 0);
}

#[test]
fn boot_services_replies() {
    let bs = BootServices { Hdr: header() };
    assert_eq!(
        bs.allocate_pages(Status(0), PhysicalAddress(0x1000)),
        Ok(PhysicalAddress(0x1000))
    );
    assert_eq!(
        bs.allocate_pages(Status(Status::OUT_OF_RESOURCES), PhysicalAddress(0)),
        Err(Status(Status::OUT_OF_RESOURCES))
    );
    assert_eq!(bs.free_pages(Status(0)), Ok(()));
    assert_eq!(bs.crc32(Status(0), 0xDEADBEEF), Ok(0xDEADBEEF));
    assert_eq!(bs.wait_for_event(Status(0), 2), Ok(2));
    assert_eq!(
        bs.check_event(Status(Status::NOT_READY)),
        Err(Status(Status::NOT_READY))
    );
}

#[test]
fn copy_and_set_mem() {
    let bs = BootServices { Hdr: header() };
    let mut dest = vec![0u8; 6];
    let src = vec![1u8, 2, 3, 4];
    bs.copy_mem(&mut dest, &src, 3);
    assert_eq!(dest, vec![1, 2, 3, 0, 0, 0]);
    let mut buf = vec![9u8; 4];
    bs.set_mem(&mut buf, 2, 0x55);
    assert_eq!(buf, vec![0x55, 0x55, 9, 9]);
}

#[test]
fn runtime_services_replies() {
    let rt = RuntimeServices { Hdr: header() };
    let noon = Time { Year: 2024, Month: 6, Day: 1, Hour: 12, ..Time::default() };
    assert_eq!(rt.get_time(Status(0), noon), Ok(noon));
    assert_eq!(
        rt.get_time(Status(Status::DEVICE_ERROR), noon),
        Err(Status(Status::DEVICE_ERROR))
    );
    assert_eq!(rt.query_variable_info(Status(0), 100, 60, 10), Ok((100, 60, 10)));
}

#[test]
fn serial_replies() {
    let serial = SerialIo {
        Revision: 1,
        Mode: SerialIoMode {
            ControlMask: 0,
            Timeout: 0,
            BaudRate: 115200,
            ReceiveFifoDepth: 16,
            DataBits: 8,
            Parity: ParityType(ParityType::NONE),
            StopBits: StopBitsType(StopBitsType::ONE),
        },
    };
    assert_eq!(serial.write(Status(0), 5), Ok(5));
    assert_eq!(
        serial.write(Status(Status::TIMEOUT), 2),
        Err(Status(Status::TIMEOUT))
    );
    assert_eq!(serial.reset(Status(0)), Ok(()));
}

#[test]
fn text_replies() {
    let stdin = SimpleTextInput { WaitForKey: Event(0) };
    let key = InputKey { ScanCode: 0, UnicodeChar: 0x41 };
    assert_eq!(stdin.read_key(Status(0), key), Ok(key));
    let stdout = SimpleTextOutput {
        Mode: SimpleTextOutputMode {
            MaxMode: 1,
            Mode: 0,
            Attribute: 7,
            CursorColumn: 0,
            CursorRow: 0,
            CursorVisible: true,
        },
    };
    assert_eq!(stdout.query_mode(Status(0), 80, 25), Ok((80, 25)));
    assert_eq!(stdout.clear_screen(Status(0)), Ok(()));
}

#[test]
fn status_conversion() {
    assert!(Status(0).is_success());
    assert!(!Status(0).is_error());
    assert!(Status(Status::UNSUPPORTED).is_error());
    assert_eq!(Status(0).to_result(), Ok(()));
    assert_eq!(
        Status(Status::ABORTED).to_result(),
        Err(Status(Status::ABORTED))
    );
}

#[test]
fn protocol_guids_print_canonically() {
    assert_eq!(
        SerialIo::guid().to_string_lower(),
        "bb25cf6f-f1d4-11d2-9a0c-0090273fc1fd"
    );
    assert_eq!(
        SimpleTextOutput::guid().to_string_lower(),
        "387477c2-69c7-11d2-8e39-00a0c969723b"
    );
}
