use vstd::prelude::*;

use vstd::string::StrSliceExecFns;

use crate::io::error;
use crate::io::error::ServerErrorPayload;
use crate::io::status::Status;
use crate::io::Response;

verus! {

/// A decimal digit.
pub open spec fn is_phone_digit(c: char) -> bool {
    48 <= c as u32 <= 57
}

/// A well-formed phone number: a leading '+' followed by decimal digits
/// only.
pub open spec fn valid_phone_number(s: Seq<char>) -> bool {
    &&& s.len() >= 1
    &&& s[0] == '+'
    &&& forall|i: int| 1 <= i < s.len() ==> is_phone_digit(#[trigger] s[i])
}

/// Validates a phone number, handing it back unchanged when it is
/// well-formed and building the matching bad-input error response when it
/// is not.
pub fn check(input: String) -> (r: Result<String, Response<ServerErrorPayload>>)
    ensures
        r is Ok <==> valid_phone_number(input@),
        r matches Ok(s) ==> s@ == input@,
        r matches Err(resp) ==> resp.body.status == Status::BadInput && resp.code == 400
            && resp.headers@.len() == 0 && resp.cookies@.len() == 0,
        r matches Err(resp) ==> (input@.len() == 0 ==> resp.body.error@
            == "Phone number must not be empty"@ && resp.body.input is None),
        r matches Err(resp) ==> (input@.len() > 0 && input@[0] != '+' ==> resp.body.error@
            == "Phone number must begin with '+'"@ && resp.body.input is None),
        r matches Err(resp) ==> (input@.len() > 0 && input@[0] == '+' ==> resp.body.error@
            == "Phone number must only contain numbers"@ && (resp.body.input matches Some(s) && s@
            == input@)),
{
    let n = input.as_str().unicode_len();
    if n == 0 {
        return Err(error::new(Status::BadInput, "Phone number must not be empty").finish());
    }
    if input.as_str().get_char(0) != '+' {
        return Err(error::new(Status::BadInput, "Phone number must begin with '+'").finish());
    }
    let mut i: usize = 1;
    while i < n
        invariant
            1 <= i <= n,
            n == input@.len(),
            input@[0] == '+',
            forall|j: int| 1 <= j < i ==> is_phone_digit(#[trigger] input@[j]),
        decreases n - i,
    {
        let c = input.as_str().get_char(i);
        let code = c as u32;
        if code < 48 || code > 57 {
            return Err(
                error::new(Status::BadInput, "Phone number must only contain numbers").input(
                    input.as_str(),
                ).finish(),
            );
        }
        i += 1;
    }
    Ok(input)
}

} // verus!
