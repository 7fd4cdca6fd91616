use vstd::prelude::*;
use vstd::string::StringSliceAdditionalSpecFns;

verus! {

/// Why an operation failed.
#[derive(Debug, PartialEq, Eq)]
pub enum IpcError {
    /// The handle names no open connection.
    NotFound,
    /// The operating system reported a failure (connect, read or write); its description.
    Os(String),
    /// A required argument was not supplied.
    MissingArgument,
    /// A text argument was not valid UTF-8.
    NotText,
    /// A numeric argument was not the decimal form of a `u32`.
    NotNumber,
    /// Every `u32` already names an open connection.
    NoFreeHandle,
}

/// The prefix that marks an error payload.
pub open spec fn error_tag() -> Seq<u8> {
    "ipc_err::".spec_bytes()
}

/// The payload of a successful `close` or `write_all`.
pub open spec fn done_bytes() -> Seq<u8> {
    "done".spec_bytes()
}

/// The UTF-8 bytes of a text.
pub open spec fn text_bytes(s: Seq<char>) -> Seq<u8> {
    vstd::utf8::encode_utf8(s)
}

/// The message body that describes an error.
pub open spec fn message_of(e: IpcError) -> Seq<u8> {
    match e {
        IpcError::NotFound => "local socket connection not found".spec_bytes(),
        IpcError::Os(m) => text_bytes(m@),
        IpcError::MissingArgument => "missing argument".spec_bytes(),
        IpcError::NotText => "argument is not valid UTF-8 text".spec_bytes(),
        IpcError::NotNumber => "argument is not a decimal u32".spec_bytes(),
        IpcError::NoFreeHandle => "no free handle".spec_bytes(),
    }
}

/// The single byte buffer that carries an outcome: a payload verbatim, an
/// error as the tag followed by its message.
pub open spec fn response_of(r: Result<Seq<u8>, IpcError>) -> Seq<u8> {
    match r {
        Ok(p) => p,
        Err(e) => error_tag() + message_of(e),
    }
}

/// The bytes of an outcome's payload.
pub open spec fn payload_view(r: Result<Vec<u8>, IpcError>) -> Result<Seq<u8>, IpcError> {
    match r {
        Ok(p) => Ok(p@),
        Err(e) => Err(e),
    }
}

/// The outcome of an operation whose success carries `"done"`.
pub open spec fn done_or(r: Result<(), IpcError>) -> Result<Seq<u8>, IpcError> {
    match r {
        Ok(_) => Ok(done_bytes()),
        Err(e) => Err(e),
    }
}

/// Appends `bytes` to `out`.
fn push_all(out: &mut Vec<u8>, bytes: &[u8])
    ensures
        final(out)@ == old(out)@ + bytes@,
{
    let mut i: usize = 0;
    while i < bytes.len()
        invariant
            i <= bytes@.len(),
            out@ == old(out)@ + bytes@.subrange(0, i as int),
        decreases bytes@.len() - i,
    {
        out.push(bytes[i]);
        i = i + 1;
        assert(bytes@.subrange(0, i as int) == bytes@.subrange(0, i - 1) + seq![bytes@[i - 1]]);
    }
    assert(bytes@.subrange(0, i as int) == bytes@);
}

/// A new vector holding `bytes`.
fn to_vec(bytes: &[u8]) -> (r: Vec<u8>)
    ensures
        r@ == bytes@,
{
    let mut r: Vec<u8> = Vec::new();
    push_all(&mut r, bytes);
    r
}

/// The payload of a successful `close` or `write_all`.
pub fn done() -> (r: Vec<u8>)
    ensures
        r@ == done_bytes(),
{
    to_vec("done".as_bytes())
}

impl IpcError {
    /// The message body that describes this error.
    pub fn message(&self) -> (r: Vec<u8>)
        ensures
            r@ == message_of(*self),
    {
        match self {
            IpcError::NotFound => to_vec("local socket connection not found".as_bytes()),
            IpcError::Os(m) => to_vec(m.as_str().as_bytes()),
            IpcError::MissingArgument => to_vec("missing argument".as_bytes()),
            IpcError::NotText => to_vec("argument is not valid UTF-8 text".as_bytes()),
            IpcError::NotNumber => to_vec("argument is not a decimal u32".as_bytes()),
            IpcError::NoFreeHandle => to_vec("no free handle".as_bytes()),
        }
    }
}

/// Encodes an outcome as one byte buffer.
pub fn encode_response(r: Result<Vec<u8>, IpcError>) -> (out: Vec<u8>)
    ensures
        out@ == response_of(payload_view(r)),
{
    match r {
        Ok(p) => p,
        Err(e) => {
            let mut out = to_vec("ipc_err::".as_bytes());
            let m = e.message();
            push_all(&mut out, m.as_slice());
            out
        },
    }
}

} // verus!
