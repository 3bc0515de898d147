use vstd::prelude::*;

use crate::io::Response;

verus! {

/// Body of a one-shot error response: a message, an optional stable error
/// tag, and the optionally echoed offending input.
#[derive(Clone, Debug)]
pub struct ServerError {
    pub message: String,
    pub error: Option<String>,
    pub input: Option<String>,
}

impl ServerError {
    /// Builds a finalized error response at the given transport code in one
    /// step, with no headers and no cookies.
    pub fn new(status: u16, msg: &str, err: Option<String>, input: Option<String>) -> (r: Response<
        ServerError,
    >)
        ensures
            r.code == status,
            r.body.message@ == msg@,
            r.body.error == err,
            r.body.input == input,
            r.headers@.len() == 0,
            r.cookies@.len() == 0,
    {
        Response {
            code: status,
            body: ServerError { message: msg.to_owned(), error: err, input },
            headers: Vec::new(),
            cookies: Vec::new(),
        }
    }
}

} // verus!
