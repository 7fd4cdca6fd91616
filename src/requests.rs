use crate::args::decimal_text;
use crate::args::parsed_u32;
use crate::args::u32_arg;
use crate::registry::Registry;
use crate::registry::close_result;
use crate::registry::close_state;
use crate::registry::is_smallest_free;
use crate::response::IpcError;
use crate::response::done;
use crate::response::done_or;
use crate::response::encode_response;
use crate::response::error_tag;
use crate::response::message_of;
use crate::response::response_of;
use vstd::prelude::*;

verus! {

/// Serves `new` once the connect was tried: the response is the new handle's
/// decimal text, or the tagged error; a failed connect registers nothing.
pub fn new_request<C>(reg: &mut Registry<C>, connected: Result<C, String>) -> (r: Vec<u8>)
    ensures
        match connected {
            Err(m) => r@ == error_tag() + message_of(IpcError::Os(m)) && final(reg)@ == old(reg)@,
            Ok(c) => if forall|i: u32| old(reg)@.contains_key(i) {
                r@ == error_tag() + message_of(IpcError::NoFreeHandle) && final(reg)@ == old(reg)@
            } else {
                exists|id: u32| #![auto]
                    r@ == decimal_text(id as nat) && is_smallest_free(old(reg)@, id)
                        && final(reg)@ == old(reg)@.insert(id, c)
            },
        },
{
    encode_response(reg.open_text(connected))
}

/// Serves `close`: the arguments are the handle's decimal text.
pub fn close_request<C>(reg: &mut Registry<C>, args: &[Vec<u8>]) -> (r: Vec<u8>)
    ensures
        match parsed_u32(args@, 0) {
            Err(e) => r@ == response_of(Err(e)) && final(reg)@ == old(reg)@,
            Ok(id) => r@ == response_of(done_or(close_result(old(reg)@, id)))
                && final(reg)@ == close_state(old(reg)@, id),
        },
{
    match u32_arg(args, 0) {
        Err(e) => encode_response(Err(e)),
        Ok(id) => match reg.close(id) {
            Ok(_) => encode_response(Ok(done())),
            Err(e) => encode_response(Err(e)),
        },
    }
}

} // verus!
