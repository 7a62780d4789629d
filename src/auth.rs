use crate::client::Client;
use crate::error::Error;
use crate::request::{header_safe, is_success, Response};
use vstd::prelude::*;

verus! {

/// Authenticates `access_token` at `base_url`, given the server's answer to
/// the signed GET of `/auth`: the client on a success status, `BadRequest`
/// with the status otherwise, and `HeaderValue` first of all when the token
/// cannot stand in a header.
pub fn auth(base_url: &str, access_token: &str, response: Response) -> (r: Result<Client, Error>)
    ensures
        !header_safe(access_token@) ==> r matches Err(Error::HeaderValue { .. }),
        header_safe(access_token@) && !is_success(response.status) ==> r == Err::<Client, Error>(
            Error::BadRequest { status: response.status },
        ),
        header_safe(access_token@) && is_success(response.status) ==> (r matches Ok(c) && c.token()
            == access_token@ && c.base() == base_url@),
{
    Client::new(base_url, access_token, response)
}

} // verus!
