//! Application-level errors carried in `NetErr` replies.

use crate::ctl::{ErrCode, NetErr};
use vstd::prelude::*;

verus! {

/// Outcome of an operation run for a remote caller.
pub type NetResult<T> = Result<T, NetErr>;

/// The code of an error reply, `Internal` when it is unset.
pub open spec fn err_code_of(e: NetErr) -> ErrCode {
    match e.code {
        Some(c) => c,
        None => ErrCode::Internal,
    }
}

/// A short description of each error code.
pub open spec fn code_description(c: ErrCode) -> Seq<char> {
    match c {
        ErrCode::Internal => "Internal error"@,
        ErrCode::Io => "IO error"@,
        ErrCode::NotFound => "Entity not found"@,
        ErrCode::Unauthorized => "Client failed authorization with server"@,
        ErrCode::Conflict => "Entity exists or is unable to update with given parameters"@,
    }
}

/// An error reply with the given code and message.
pub fn err(code: ErrCode, msg: String) -> (r: NetErr)
    ensures
        r == (NetErr { code: Some(code), msg: Some(msg) }),
{
    let mut e = NetErr::new();
    e.set_code(code);
    e.set_msg(msg);
    e
}

impl NetErr {
    /// A short description of this error's code.
    pub fn description(&self) -> (r: &'static str)
        ensures
            r@ == code_description(err_code_of(*self)),
    {
        match self.get_code() {
            ErrCode::Internal => "Internal error",
            ErrCode::Io => "IO error",
            ErrCode::NotFound => "Entity not found",
            ErrCode::Unauthorized => "Client failed authorization with server",
            ErrCode::Conflict => "Entity exists or is unable to update with given parameters",
        }
    }
}

} // verus!
