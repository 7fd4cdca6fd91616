use deno_ipc::args::format_u32;
use deno_ipc::args::parse_u32;
use deno_ipc::args::text_arg;
use deno_ipc::args::u32_arg;
use deno_ipc::response::done;
use deno_ipc::response::encode_response;
use deno_ipc::response::IpcError;

#[test]
fn parses_decimal_u32() {
    assert_eq!(parse_u32(b"0"), Ok(0));
    assert_eq!(parse_u32(b"42"), Ok(42));
    assert_eq!(parse_u32(b"007"), Ok(7));
    assert_eq!(parse_u32(b"4294967295"), Ok(u32::MAX));
}

#[test]
fn rejects_malformed_numbers() {
    assert_eq!(parse_u32(b""), Err(IpcError::NotNumber));
    assert_eq!(parse_u32(b"4294967296"), Err(IpcError::NotNumber));
    assert_eq!(parse_u32(b"99999999999"), Err(IpcError::NotNumber));
    assert_eq!(parse_u32(b"12a"), Err(IpcError::NotNumber));
    assert_eq!(parse_u32(b"-1"), Err(IpcError::NotNumber));
    assert_eq!(parse_u32(b" 1"), Err(IpcError::NotNumber));
}

#[test]
fn reads_numeric_arguments() {
    let args = vec![b"3".to_vec(), b"16".to_vec()];
    assert_eq!(u32_arg(&args, 0), Ok(3));
    assert_eq!(u32_arg(&args, 1), Ok(16));
    assert_eq!(u32_arg(&args, 2), Err(IpcError::MissingArgument));
}

#[test]
fn reads_text_arguments() {
    let args = vec!["/tmp/t\u{e9}st.sock".as_bytes().to_vec(), vec![0xff, 0xfe]];
    assert_eq!(text_arg(&args, 0), Ok("/tmp/t\u{e9}st.sock".to_string()));
    assert_eq!(text_arg(&args, 1), Err(IpcError::NotText));
    assert_eq!(text_arg(&args, 2), Err(IpcError::MissingArgument));
}

#[test]
fn formats_canonical_decimal() {
    assert_eq!(format_u32(0), b"0".to_vec());
    assert_eq!(format_u32(7), b"7".to_vec());
    assert_eq!(format_u32(1230), b"1230".to_vec());
    assert_eq!(format_u32(u32::MAX), b"4294967295".to_vec());
}

#[test]
fn success_payload_is_verbatim() {
    assert_eq!(encode_response(Ok(b"ping".to_vec())), b"ping".to_vec());
    assert_eq!(encode_response(Ok(Vec::new())), Vec::<u8>::new());
    assert_eq!(encode_response(Ok(done())), b"done".to_vec());
}

#[test]
fn errors_carry_the_tag() {
    assert_eq!(
        encode_response(Err(IpcError::NotFound)),
        b"ipc_err::local socket connection not found".to_vec()
    );
    assert_eq!(
        encode_response(Err(IpcError::Os("Broken pipe (os error 32)".to_string()))),
        b"ipc_err::Broken pipe (os error 32)".to_vec()
    );
    assert_eq!(encode_response(Err(IpcError::NotText)), b"ipc_err::argument is not valid UTF-8 text".to_vec());
    assert_eq!(encode_response(Err(IpcError::NoFreeHandle)), b"ipc_err::no free handle".to_vec());
}

#[test]
fn tagged_success_payload_looks_like_an_error() {
    assert_eq!(encode_response(Ok(b"ipc_err::x".to_vec())), encode_response(Err(IpcError::Os("x".to_string()))));
}
