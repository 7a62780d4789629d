use vstd::prelude::*;

verus! {

/// The base URL of the public API.
pub fn request_url() -> (r: String)
    ensures
        r@ == "https://readwise.io"@,
{
    String::from_str("https://readwise.io")
}

} // verus!
