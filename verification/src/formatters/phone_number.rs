use vstd::prelude::*;

use vstd::string::{StrSliceExecFns, StringExecFns};

use crate::errors::server_error::ServerError;
use crate::io::input::{is_phone_digit, valid_phone_number};
use crate::io::Response;

verus! {

pub struct PhoneNumber {}

impl PhoneNumber {
    /// Validates a phone number, handing it back unchanged when it is
    /// well-formed and building the matching bad-request response when it
    /// is not.
    pub fn check(input: String) -> (r: Result<String, Response<ServerError>>)
        ensures
            r is Ok <==> valid_phone_number(input@),
            r matches Ok(s) ==> s@ == input@,
            r matches Err(resp) ==> resp.code == 400 && resp.headers@.len() == 0
                && resp.cookies@.len() == 0,
            r matches Err(resp) ==> (input@.len() == 0 ==> resp.body.message@
                == "Phone number must not be empty"@ && (resp.body.error matches Some(e) && e@
                == "bad_input"@) && resp.body.input is None),
            r matches Err(resp) ==> (input@.len() > 0 && input@[0] != '+' ==> resp.body.message@
                == "Phone number must begin with '+'"@ && resp.body.error is None
                && (resp.body.input matches Some(s) && s@ == input@)),
            r matches Err(resp) ==> (input@.len() > 0 && input@[0] == '+' ==> resp.body.message@
                == "Phone number must only contain numbers -- input: '"@ + input@ + "'"@
                && (resp.body.error matches Some(e) && e@ == "bad_input"@)
                && (resp.body.input matches Some(s) && s@ == input@)),
    {
        let n = input.as_str().unicode_len();
        if n == 0 {
            return Err(
                ServerError::new(
                    400,
                    "Phone number must not be empty",
                    Some("bad_input".to_owned()),
                    None,
                ),
            );
        }
        if input.as_str().get_char(0) != '+' {
            let echoed = input.clone();
            return Err(
                ServerError::new(400, "Phone number must begin with '+'", None, Some(echoed)),
            );
        }
        let mut i: usize = 1;
        while i < n
            invariant
                1 <= i <= n,
                n == input@.len(),
                input@[0] == '+',
                forall|j: int| 1 <= j < i ==> is_phone_digit(#[trigger] input@[j]),
            decreases n - i,
        {
            let c = input.as_str().get_char(i);
            let code = c as u32;
            if code < 48 || code > 57 {
                let mut msg = String::from_str("Phone number must only contain numbers -- input: '");
                msg.append(input.as_str());
                msg.append("'");
                let echoed = input.clone();
                return Err(ServerError::new(400, msg.as_str(), Some("bad_input".to_owned()), Some(echoed)));
            }
            i += 1;
        }
        Ok(input)
    }
}

} // verus!
