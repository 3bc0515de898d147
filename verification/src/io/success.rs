use vstd::prelude::*;

use crate::io::cookie::Cookie;
use crate::io::status::{http_code, Status};
use crate::io::{has_header, unique_header_keys, upsert_header, Response};

verus! {

/// Body of a success response: `{status, message, data?}`. The data payload
/// is an arbitrary tree-shaped value supplied by the caller; this module
/// only carries it.
#[derive(Debug, Clone)]
pub struct SuccessPayload<D> {
    pub status: Status,
    pub message: String,
    pub data: Option<D>,
}

/// Accumulates a success response: an outcome and a message at construction,
/// then an optional data payload, header entries (keys unique, last write
/// wins) and cookies (append-only), turned into a [`Response`] by
/// [`Success::finish`].
#[derive(Debug)]
pub struct Success<D> {
    pub payload: SuccessPayload<D>,
    pub headers: Vec<(String, String)>,
    pub cookies: Vec<Cookie>,
}

impl<D> Success<D> {
    pub fn new(status: Status, msg: &str) -> (r: Success<D>)
        ensures
            r.payload.status == status,
            r.payload.message@ == msg@,
            r.payload.data is None,
            r.headers@.len() == 0,
            r.cookies@.len() == 0,
    {
        Success {
            payload: SuccessPayload { status, message: msg.to_owned(), data: None },
            headers: Vec::new(),
            cookies: Vec::new(),
        }
    }

    /// Attaches the structured data payload.
    pub fn data(self, data: D) -> (r: Success<D>)
        ensures
            r.payload.status == self.payload.status,
            r.payload.message == self.payload.message,
            r.payload.data == Some(data),
            r.headers == self.headers,
            r.cookies == self.cookies,
    {
        Success {
            payload: SuccessPayload { data: Some(data), ..self.payload },
            ..self
        }
    }

    /// Sets a header entry; keys stay unique and the last write to a key
    /// wins.
    pub fn header(self, name: &str, value: &str) -> (r: Success<D>)
        requires
            unique_header_keys(self.headers@),
        ensures
            r.payload == self.payload,
            r.cookies == self.cookies,
            unique_header_keys(r.headers@),
            has_header(r.headers@, name@, value@),
            forall|k: Seq<char>, v: Seq<char>|
                k != name@ ==> (#[trigger] has_header(r.headers@, k, v) <==> has_header(
                    self.headers@,
                    k,
                    v,
                )),
    {
        let headers = upsert_header(self.headers, name, value);
        Success { headers, ..self }
    }

    /// Appends a cookie instruction; duplicates by name are permitted, the
    /// transport layer resolves precedence.
    pub fn cookie(self, cookie: Cookie) -> (r: Success<D>)
        ensures
            r.payload == self.payload,
            r.headers == self.headers,
            r.cookies@ == self.cookies@.push(cookie),
    {
        let mut cookies = self.cookies;
        cookies.push(cookie);
        Success { cookies, ..self }
    }

    /// Finalizes the accumulated state into a response at the outcome's
    /// mapped transport code.
    pub fn finish(self) -> (r: Response<SuccessPayload<D>>)
        ensures
            r.code == http_code(self.payload.status),
            r.body == self.payload,
            r.headers == self.headers,
            r.cookies == self.cookies,
    {
        let code = self.payload.status.http();
        Response { code, body: self.payload, headers: self.headers, cookies: self.cookies }
    }
}

/// Starts a success response for the given outcome and message.
pub fn new<D>(status: Status, msg: &str) -> (r: Success<D>)
    ensures
        r.payload.status == status,
        r.payload.message@ == msg@,
        r.payload.data is None,
        r.headers@.len() == 0,
        r.cookies@.len() == 0,
{
    Success::new(status, msg)
}

} // verus!
