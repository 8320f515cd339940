use echo_device::buffer::{EchoMsg, BUFFERSIZE};
use echo_device::device::{CharacterDevice, Uio, GID_WHEEL, NODE_MODE, UID_ROOT};
use echo_device::error::EchoError;

fn device() -> CharacterDevice {
    match CharacterDevice::new(Ok(7)) {
        Ok(d) => d,
        Err(_) => panic!("registration succeeded"),
    }
}

fn write(
    d: &mut CharacterDevice,
    offset: usize,
    payload: &[u8],
) -> (Result<(), EchoError>, Option<Uio>) {
    let mut uio = Some(Uio { offset, resid: payload.len(), data: payload.to_vec() });
    let r = d.echo_write(&mut uio);
    (r, uio)
}

fn read(d: &CharacterDevice, offset: usize, resid: usize) -> (Result<(), EchoError>, Vec<u8>) {
    let mut uio = Some(Uio { offset, resid, data: Vec::new() });
    let r = d.echo_read(&mut uio);
    (r, uio.unwrap().data)
}

fn message(d: &CharacterDevice, n: usize) -> Vec<u8> {
    (0..n).map(|i| d.buffer().byte_at(i)).collect()
}

#[test]
fn write_then_append_then_read_from_start() {
    let mut d = device();
    let (r, _) = write(&mut d, 0, b"abc");
    assert_eq!(r, Ok(()));
    assert_eq!(d.buffer().get_len(), 3);
    assert_eq!(message(&d, 4), b"abc\0".to_vec());
    let (r, _) = write(&mut d, 3, b"de");
    assert_eq!(r, Ok(()));
    assert_eq!(d.buffer().get_len(), 5);
    assert_eq!(message(&d, 6), b"abcde\0".to_vec());
    let (r, data) = read(&d, 0, 100);
    assert_eq!(r, Ok(()));
    assert_eq!(data, b"abcde\0".to_vec());
}

#[test]
fn read_at_offset_copies_from_start() {
    let mut d = device();
    write(&mut d, 0, b"abcde");
    let (r, data) = read(&d, 2, 100);
    assert_eq!(r, Ok(()));
    assert_eq!(data, b"abcd".to_vec());
}

#[test]
fn read_window_limited_by_resid() {
    let mut d = device();
    write(&mut d, 0, b"hello");
    let (_, data) = read(&d, 0, 2);
    assert_eq!(data, b"he".to_vec());
}

#[test]
fn descriptor_advances_on_read() {
    let mut d = device();
    write(&mut d, 0, b"xy");
    let mut uio = Some(Uio { offset: 1, resid: 10, data: vec![9] });
    assert_eq!(d.echo_read(&mut uio), Ok(()));
    let u = uio.unwrap();
    assert_eq!(u.data, vec![9, b'x', b'y']);
    assert_eq!(u.offset, 3);
    assert_eq!(u.resid, 8);
}

#[test]
fn new_message_replaces_old() {
    let mut d = device();
    write(&mut d, 0, b"longer message");
    let (r, _) = write(&mut d, 0, b"hi");
    assert_eq!(r, Ok(()));
    assert_eq!(d.buffer().get_len(), 2);
    assert_eq!(message(&d, 3), b"hi\0".to_vec());
    let (_, data) = read(&d, 0, 100);
    assert_eq!(data, b"hi\0".to_vec());
}

#[test]
fn write_descriptor_consumes_payload() {
    let mut d = device();
    let mut uio = Some(Uio { offset: 0, resid: 2, data: b"abcd".to_vec() });
    assert_eq!(d.echo_write(&mut uio), Ok(()));
    let u = uio.unwrap();
    assert_eq!(u.data, b"cd".to_vec());
    assert_eq!(u.offset, 2);
    assert_eq!(u.resid, 0);
    assert_eq!(d.buffer().get_len(), 2);
}

#[test]
fn write_in_middle_is_invalid() {
    let mut d = device();
    write(&mut d, 0, b"abcdef");
    let (r, uio) = write(&mut d, 2, b"zz");
    assert_eq!(r, Err(EchoError::InvalidArgument));
    assert_eq!(uio.unwrap().data, b"zz".to_vec());
    assert_eq!(d.buffer().get_len(), 6);
    assert_eq!(message(&d, 7), b"abcdef\0".to_vec());
}

#[test]
fn write_after_gap_is_invalid() {
    let mut d = device();
    write(&mut d, 0, b"abc");
    let (r, _) = write(&mut d, 4, b"z");
    assert_eq!(r, Err(EchoError::InvalidArgument));
    assert_eq!(d.buffer().get_len(), 3);
}

#[test]
fn write_capped_at_capacity() {
    let mut d = device();
    let big = vec![b'q'; 300];
    let (r, uio) = write(&mut d, 0, &big);
    assert_eq!(r, Ok(()));
    let u = uio.unwrap();
    assert_eq!(u.offset, BUFFERSIZE);
    assert_eq!(u.resid, 300 - BUFFERSIZE);
    assert_eq!(u.data.len(), 300 - BUFFERSIZE);
    assert_eq!(d.buffer().get_len(), BUFFERSIZE);
    let (r, uio) = write(&mut d, BUFFERSIZE, b"more");
    assert_eq!(r, Ok(()));
    assert_eq!(uio.unwrap().offset, BUFFERSIZE);
    assert_eq!(d.buffer().get_len(), BUFFERSIZE);
}

#[test]
fn append_capped_at_room_left() {
    let mut d = device();
    write(&mut d, 0, &vec![b'a'; 250]);
    let (r, uio) = write(&mut d, 250, &vec![b'b'; 10]);
    assert_eq!(r, Ok(()));
    assert_eq!(uio.unwrap().offset, 256);
    assert_eq!(d.buffer().get_len(), 256);
    assert_eq!(d.buffer().byte_at(255), b'b');
}

#[test]
fn full_buffer_reads_capacity_only() {
    let mut d = device();
    write(&mut d, 0, &vec![b'z'; BUFFERSIZE]);
    let (r, data) = read(&d, 0, 1000);
    assert_eq!(r, Ok(()));
    assert_eq!(data.len(), BUFFERSIZE);
}

#[test]
fn read_past_end_transfers_nothing() {
    let mut d = device();
    write(&mut d, 0, b"abc");
    let (r, data) = read(&d, 4, 100);
    assert_eq!(r, Ok(()));
    assert!(data.is_empty());
    let (_, data) = read(&d, 1000, usize::MAX);
    assert!(data.is_empty());
    let (_, data) = read(&d, 3, 100);
    assert_eq!(data, b"a".to_vec());
}

#[test]
fn empty_device_reads_terminator() {
    let d = device();
    let (_, data) = read(&d, 0, 100);
    assert_eq!(data, vec![0]);
}

#[test]
fn null_descriptor_faults() {
    let mut d = device();
    write(&mut d, 0, b"keep");
    let mut none: Option<Uio> = None;
    assert_eq!(d.echo_write(&mut none), Err(EchoError::Fault));
    assert_eq!(d.echo_read(&mut none), Err(EchoError::Fault));
    assert!(none.is_none());
    assert_eq!(d.buffer().get_len(), 4);
    assert_eq!(message(&d, 5), b"keep\0".to_vec());
}

#[test]
fn short_caller_bytes_fault() {
    let mut d = device();
    write(&mut d, 0, b"keep");
    let mut uio = Some(Uio { offset: 0, resid: 10, data: b"abc".to_vec() });
    assert_eq!(d.echo_write(&mut uio), Err(EchoError::Fault));
    let u = uio.unwrap();
    assert_eq!(u.offset, 0);
    assert_eq!(u.data, b"abc".to_vec());
    assert_eq!(d.buffer().get_len(), 4);
}

#[test]
fn error_codes() {
    assert_eq!(EchoError::Fault.code(), libc::EFAULT);
    assert_eq!(EchoError::InvalidArgument.code(), libc::EINVAL);
}

#[test]
fn registration_failure_passes_code() {
    match CharacterDevice::new(Err(17)) {
        Err(e) => assert_eq!(e, 17),
        Ok(_) => panic!("registration failed"),
    }
}

#[test]
fn registered_device_starts_empty() {
    let d = device();
    assert_eq!(d.node(), 7);
    assert_eq!(d.open_count(), 0);
    assert_eq!(d.buffer().get_len(), 0);
    for i in 0..BUFFERSIZE {
        assert_eq!(d.buffer().byte_at(i), 0);
    }
    assert_eq!(d.destroy(), 7);
}

#[test]
fn node_config_is_echo_root_wheel_0600() {
    let c = CharacterDevice::node_config();
    assert_eq!(c.name, "echo");
    assert_eq!(c.uid, UID_ROOT);
    assert_eq!(c.uid, 0);
    assert_eq!(c.gid, GID_WHEEL);
    assert_eq!(c.mode, NODE_MODE);
    assert_eq!(c.mode, 0o600);
}

#[test]
fn open_and_close_count_references() {
    let mut d = device();
    assert_eq!(d.echo_open(), 0);
    assert_eq!(d.echo_open(), 0);
    assert_eq!(d.open_count(), 2);
    assert_eq!(d.echo_close(), 0);
    assert_eq!(d.open_count(), 1);
    assert_eq!(d.buffer().get_len(), 0);
}

#[test]
fn echo_msg_accessors() {
    let mut m = EchoMsg::new();
    assert_eq!(m.get_len(), 0);
    let r = m.write_at(0, b"abc");
    assert_eq!(r, Ok(3));
    m.set_len(2);
    assert_eq!(m.get_len(), 2);
    assert_eq!(m.byte_at(2), b'c');
    m.reset_msg(2);
    assert_eq!(m.byte_at(2), 0);
    assert_eq!(m.write_at(5, b"x"), Err(EchoError::InvalidArgument));
    assert_eq!(m.read_at(0, 10), b"ab\0".to_vec());
}

#[test]
fn sequence_of_calls_keeps_terminator() {
    let mut d = device();
    let steps: Vec<(usize, &[u8])> =
        vec![(0, b"ab"), (2, b"cd"), (1, b"x"), (0, b"z"), (1, b"yy"), (9, b"q"), (3, b"w")];
    for (offset, payload) in steps {
        write(&mut d, offset, payload);
        let len = d.buffer().get_len();
        assert!(len <= BUFFERSIZE);
        if len < BUFFERSIZE {
            assert_eq!(d.buffer().byte_at(len), 0);
        }
        let (_, data) = read(&d, 0, 100);
        assert_eq!(data.len(), len + 1);
    }
    assert_eq!(message(&d, 5), b"zyyw\0".to_vec());
}
