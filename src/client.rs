use crate::error::Error;
use crate::request::{
    authorization, check_status, header_safe, is_success, sign, signed_as, token_header, Body,
    Fields, Method, Payload, Request, Response,
};
use crate::text::{decimal, signed_decimal, to_decimal, to_signed_decimal};
use vstd::prelude::*;

verus! {

/// The path of a page of books.
pub open spec fn books_path(page: nat) -> Seq<char> {
    "/books?page="@ + decimal(page)
}

/// The path of a page of highlights.
pub open spec fn highlights_path(page: nat) -> Seq<char> {
    "/highlights?page="@ + decimal(page)
}

/// The path of one book.
pub open spec fn book_path(id: nat) -> Seq<char> {
    "/books/"@ + decimal(id)
}

/// The path of one highlight.
pub open spec fn highlight_path(id: int) -> Seq<char> {
    "/highlights/"@ + signed_decimal(id)
}

/// The path under which highlights are created.
pub open spec fn highlights_root() -> Seq<char> {
    "/highlights"@
}

/// A handle on the API for one access token. It is made only for a token that
/// the server accepted, and does not change.
pub struct Client {
    access_token: String,
    base_url: String,
}

impl Client {
    #[verifier::type_invariant]
    spec fn inv(self) -> bool {
        header_safe(self.access_token@)
    }

    /// The access token that every request is signed with.
    pub closed spec fn token(self) -> Seq<char> {
        self.access_token@
    }

    /// The base URL that every path is resolved against.
    pub closed spec fn base(self) -> Seq<char> {
        self.base_url@
    }

    /// `q` is this client's request for `method` on `endpoint`, carrying
    /// `payload`.
    pub open spec fn signs(self, q: Request, method: Method, endpoint: Seq<char>, payload: Option<Payload>) -> bool {
        signed_as(q, self.base(), self.token(), method, endpoint, payload)
    }

    /// The client for `access_token` at `base_url`, given the server's answer
    /// to the signed GET of `/auth`. It fails with `HeaderValue` when the
    /// token cannot stand in a header, and else with `BadRequest` when the
    /// status does not report success.
    pub fn new(base_url: &str, access_token: &str, response: Response) -> (r: Result<Client, Error>)
        ensures
            !header_safe(access_token@) ==> r matches Err(Error::HeaderValue { .. }),
            header_safe(access_token@) && !is_success(response.status) ==> r == Err::<Client, Error>(
                Error::BadRequest { status: response.status },
            ),
            header_safe(access_token@) && is_success(response.status) ==> (r matches Ok(c) && c.token()
                == access_token@ && c.base() == base_url@),
    {
        match authorization(access_token) {
            Err(e) => Err(e),
            Ok(_) => match check_status(response) {
                Err(e) => Err(e),
                Ok(_) => Ok(
                    Client {
                        access_token: String::from_str(access_token),
                        base_url: String::from_str(base_url),
                    },
                ),
            },
        }
    }

    /// The access token that this client signs with.
    pub fn access_token(&self) -> (r: &str)
        ensures
            r@ == self.token(),
    {
        self.access_token.as_str()
    }

    fn request(&self, endpoint: &str, method: Method, body: Option<Body>) -> (q: Request)
        requires
            crate::request::body_fits(method, body),
        ensures
            self.signs(q, method, endpoint@, crate::request::payload_of(method, body)),
    {
        sign(&self.base_url, endpoint, token_header(&self.access_token), method, body)
    }

    /// The request for the books on page `page`.
    pub fn books(&self, page: u64) -> (q: Request)
        ensures
            self.signs(q, Method::Get, books_path(page as nat), None),
    {
        let mut endpoint = String::from_str("/books?page=");
        endpoint.append(to_decimal(page).as_str());
        self.request(endpoint.as_str(), Method::Get, None)
    }

    /// The request for the highlights on page `page`.
    pub fn highlights(&self, page: u64) -> (q: Request)
        ensures
            self.signs(q, Method::Get, highlights_path(page as nat), None),
    {
        let mut endpoint = String::from_str("/highlights?page=");
        endpoint.append(to_decimal(page).as_str());
        self.request(endpoint.as_str(), Method::Get, None)
    }

    /// The request for the book `id`.
    pub fn book(&self, id: u64) -> (q: Request)
        ensures
            self.signs(q, Method::Get, book_path(id as nat), None),
    {
        let mut endpoint = String::from_str("/books/");
        endpoint.append(to_decimal(id).as_str());
        self.request(endpoint.as_str(), Method::Get, None)
    }

    /// The request for the highlight `id`.
    pub fn highlight(&self, id: u64) -> (q: Request)
        ensures
            self.signs(q, Method::Get, highlight_path(id as int), None),
    {
        let mut endpoint = String::from_str("/highlights/");
        endpoint.append(to_decimal(id).as_str());
        self.request(endpoint.as_str(), Method::Get, None)
    }

    /// The request that creates `highlights`: a POST of
    /// `{"highlights": [<highlights>...]}`.
    pub fn create_highlights(&self, highlights: Vec<Fields>) -> (q: Request)
        ensures
            q.method == Method::Post,
            q.url@ == crate::request::api_url(self.base(), highlights_root()),
            q.authorization@ == crate::request::authorization_text(self.token()),
            (q.payload matches Some(Payload::Batch(b)) && b.key@ == "highlights"@ && b.items
                == highlights),
    {
        let body = Body { key: String::from_str("highlights"), items: highlights };
        self.request("/highlights", Method::Post, Some(body))
    }

    /// The request that sets `fields` on the highlight `id`. The fields are
    /// handed to the signer as `{"body": [<fields>]}`, of which it sends the
    /// one item: the PATCH carries `{<fields>}`.
    pub fn update_highlight(&self, id: i64, fields: Fields) -> (q: Request)
        ensures
            self.signs(q, Method::Patch, highlight_path(id as int), Some(Payload::Single(fields))),
    {
        let mut endpoint = String::from_str("/highlights/");
        endpoint.append(to_signed_decimal(id).as_str());
        let mut items: Vec<Fields> = Vec::new();
        items.push(fields);
        let body = Body { key: String::from_str("body"), items };
        proof {
            reveal_strlit("body");
            assert(body.key@ =~= seq!['b', 'o', 'd', 'y']);
        }
        self.request(endpoint.as_str(), Method::Patch, Some(body))
    }

    /// The request that deletes the highlight `id`.
    pub fn delete_highlight(&self, id: i64) -> (q: Request)
        ensures
            self.signs(q, Method::Delete, highlight_path(id as int), None),
    {
        let mut endpoint = String::from_str("/highlights/");
        endpoint.append(to_signed_decimal(id).as_str());
        self.request(endpoint.as_str(), Method::Delete, None)
    }
}

} // verus!
