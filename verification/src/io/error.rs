use vstd::prelude::*;

use crate::io::cookie::Cookie;
use crate::io::status::{http_code, Status};
use crate::io::{has_header, unique_header_keys, upsert_header, Response};

verus! {

/// Body of an error response: `{status, error, input?}`. The optional input
/// echoes the offending raw value back for diagnostics.
#[derive(Debug, Clone)]
pub struct ServerErrorPayload {
    pub status: Status,
    pub error: String,
    pub input: Option<String>,
}

/// Accumulates an error response: an outcome and a message at construction,
/// then an optional echoed input, header entries (keys unique, last write
/// wins) and cookies (append-only), turned into a [`Response`] by
/// [`ServerError::finish`].
#[derive(Debug)]
pub struct ServerError {
    pub payload: ServerErrorPayload,
    pub headers: Vec<(String, String)>,
    pub cookies: Vec<Cookie>,
}

impl ServerError {
    pub fn new(status: Status, msg: &str) -> (r: ServerError)
        ensures
            r.payload.status == status,
            r.payload.error@ == msg@,
            r.payload.input is None,
            r.headers@.len() == 0,
            r.cookies@.len() == 0,
    {
        ServerError {
            payload: ServerErrorPayload { status, error: msg.to_owned(), input: None },
            headers: Vec::new(),
            cookies: Vec::new(),
        }
    }

    /// Attaches the offending raw input for diagnostics.
    pub fn input(self, input: &str) -> (r: ServerError)
        ensures
            r.payload.status == self.payload.status,
            r.payload.error == self.payload.error,
            r.payload.input matches Some(s) && s@ == input@,
            r.headers == self.headers,
            r.cookies == self.cookies,
    {
        ServerError {
            payload: ServerErrorPayload { input: Some(input.to_owned()), ..self.payload },
            ..self
        }
    }

    /// Sets a header entry; keys stay unique and the last write to a key
    /// wins.
    pub fn header(self, name: &str, value: &str) -> (r: ServerError)
        requires
            unique_header_keys(self.headers@),
        ensures
            r.payload == self.payload,
            r.cookies == self.cookies,
            unique_header_keys(r.headers@),
            has_header(r.headers@, name@, value@),
            forall|k: Seq<char>, v: Seq<char>|
                k != name@ ==> (#[trigger] has_header(r.headers@, k, v) <==> has_header(
                    self.headers@,
                    k,
                    v,
                )),
    {
        let headers = upsert_header(self.headers, name, value);
        ServerError { headers, ..self }
    }

    /// Appends a cookie instruction; duplicates by name are permitted, the
    /// transport layer resolves precedence.
    pub fn cookie(self, cookie: Cookie) -> (r: ServerError)
        ensures
            r.payload == self.payload,
            r.headers == self.headers,
            r.cookies@ == self.cookies@.push(cookie),
    {
        let mut cookies = self.cookies;
        cookies.push(cookie);
        ServerError { cookies, ..self }
    }

    /// Finalizes the accumulated state into a response at the outcome's
    /// mapped transport code.
    pub fn finish(self) -> (r: Response<ServerErrorPayload>)
        ensures
            r.code == http_code(self.payload.status),
            r.body == self.payload,
            r.headers == self.headers,
            r.cookies == self.cookies,
    {
        let code = self.payload.status.http();
        Response { code, body: self.payload, headers: self.headers, cookies: self.cookies }
    }
}

/// Starts an error response for the given outcome and message.
pub fn new(status: Status, msg: &str) -> (r: ServerError)
    ensures
        r.payload.status == status,
        r.payload.error@ == msg@,
        r.payload.input is None,
        r.headers@.len() == 0,
        r.cookies@.len() == 0,
{
    ServerError::new(status, msg)
}

} // verus!
