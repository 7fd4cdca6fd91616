use deno_ipc::ops::read_buffer;
use deno_ipc::ops::read_bytes_outcome;
use deno_ipc::ops::write_all_outcome;
use deno_ipc::ops::ReadEvent;
use deno_ipc::ops::ReadStep;
use deno_ipc::ops::StringReader;
use deno_ipc::registry::Registry;
use deno_ipc::requests::close_request;
use deno_ipc::requests::new_request;
use deno_ipc::response::encode_response;
use deno_ipc::response::IpcError;

fn read_all(events: Vec<ReadEvent>) -> Result<Vec<u8>, IpcError> {
    let mut reader = StringReader::new();
    for ev in events {
        if let ReadStep::Finished(r) = reader.step(ev) {
            return r;
        }
    }
    panic!("stream did not end");
}

#[test]
fn write_outcomes() {
    assert_eq!(write_all_outcome(Ok(())), Ok(b"done".to_vec()));
    assert_eq!(write_all_outcome(Err("Broken pipe".to_string())), Err(IpcError::Os("Broken pipe".to_string())));
}

#[test]
fn read_buffer_has_requested_length() {
    assert_eq!(read_buffer(4), vec![0u8; 4]);
    assert_eq!(read_buffer(0), Vec::<u8>::new());
}

#[test]
fn short_read_returns_delivered_prefix() {
    let mut buf = read_buffer(4);
    buf[0] = b'p';
    buf[1] = b'i';
    assert_eq!(read_bytes_outcome(buf, Ok(2)), Ok(b"pi".to_vec()));
}

#[test]
fn full_read_returns_all_bytes() {
    assert_eq!(read_bytes_outcome(b"ping".to_vec(), Ok(4)), Ok(b"ping".to_vec()));
    assert_eq!(read_bytes_outcome(read_buffer(4), Ok(0)), Ok(Vec::new()));
}

#[test]
fn failed_read_returns_no_partial_payload() {
    assert_eq!(
        read_bytes_outcome(b"pi\0\0".to_vec(), Err("Connection reset".to_string())),
        Err(IpcError::Os("Connection reset".to_string()))
    );
}

#[test]
fn read_string_until_peer_closes() {
    let mut events: Vec<ReadEvent> = b"hello".iter().map(|b| ReadEvent::Byte(*b)).collect();
    events.push(ReadEvent::End);
    assert_eq!(read_all(events), Ok(b"hello".to_vec()));
    assert_eq!(read_all(vec![ReadEvent::End]), Ok(Vec::new()));
}

#[test]
fn read_string_failure_after_data_is_end() {
    let events = vec![ReadEvent::Byte(b'o'), ReadEvent::Byte(b'k'), ReadEvent::Failed("reset".to_string())];
    assert_eq!(read_all(events), Ok(b"ok".to_vec()));
}

#[test]
fn read_string_failure_before_data_is_error() {
    assert_eq!(
        read_all(vec![ReadEvent::Failed("reset".to_string())]),
        Err(IpcError::Os("reset".to_string()))
    );
}

#[test]
fn reader_asks_for_more_after_a_byte() {
    let mut reader = StringReader::new();
    assert_eq!(reader.step(ReadEvent::Byte(1)), ReadStep::More);
    assert_eq!(reader.step(ReadEvent::End), ReadStep::Finished(Ok(vec![1])));
}

/// A connection to an echo server: what is written comes back on reads.
fn echo_write(conn: &mut Vec<u8>, data: &[u8]) -> Result<(), String> {
    conn.extend_from_slice(data);
    Ok(())
}

fn echo_read(conn: &mut Vec<u8>, buf: &mut [u8]) -> Result<usize, String> {
    let n = buf.len().min(conn.len());
    buf[..n].copy_from_slice(&conn[..n]);
    conn.drain(..n);
    Ok(n)
}

fn write_all_op(reg: &mut Registry<Vec<u8>>, id: u32, data: &[u8]) -> Vec<u8> {
    match reg.checkout(id) {
        Err(e) => encode_response(Err(e)),
        Ok(mut c) => {
            let w = echo_write(&mut c, data);
            reg.checkin(id, c);
            encode_response(write_all_outcome(w))
        }
    }
}

fn read_bytes_op(reg: &mut Registry<Vec<u8>>, id: u32, len: u32) -> Vec<u8> {
    match reg.checkout(id) {
        Err(e) => encode_response(Err(e)),
        Ok(mut c) => {
            let mut buf = read_buffer(len);
            let got = echo_read(&mut c, &mut buf);
            reg.checkin(id, c);
            encode_response(read_bytes_outcome(buf, got))
        }
    }
}

#[test]
fn echo_session() {
    let mut reg: Registry<Vec<u8>> = Registry::new();
    assert_eq!(new_request(&mut reg, Ok(Vec::new())), b"0".to_vec());
    assert_eq!(write_all_op(&mut reg, 0, b"ping"), b"done".to_vec());
    assert_eq!(read_bytes_op(&mut reg, 0, 4), b"ping".to_vec());
    assert_eq!(close_request(&mut reg, &[b"0".to_vec()]), b"done".to_vec());
    assert_eq!(
        read_bytes_op(&mut reg, 0, 4),
        b"ipc_err::local socket connection not found".to_vec()
    );
    assert_eq!(
        write_all_op(&mut reg, 0, b"ping"),
        b"ipc_err::local socket connection not found".to_vec()
    );
    assert_eq!(reg.get_next_id(), Some(0));
}
