use readwise::{
    auth, check_status, modified_ids, request_url, signed_request, to_decimal, to_signed_decimal,
    Body, Book, Client, Creation, Error, Fields, Highlight, HighlightCreateResponse, Method,
    Payload, Progress, Request, Response,
};

const BASE: &str = "http://127.0.0.1:1234";

fn answer(status: u16, text: &str) -> Response {
    Response { status, text: text.to_string() }
}

fn client() -> Client {
    Client::new(BASE, "", answer(200, "")).unwrap()
}

fn url(path: &str) -> String {
    format!("{}{}", BASE, path)
}

fn highlight_with_id(id: u64) -> Highlight {
    let mut h = Highlight::default();
    h.id = id;
    h
}

fn created(ids: Vec<u64>) -> HighlightCreateResponse {
    let mut r = HighlightCreateResponse::default();
    r.modified_highlights = ids;
    r
}

fn fields(pairs: &[(&str, &str)]) -> Fields {
    pairs.iter().map(|(k, v)| (k.to_string(), v.to_string())).collect()
}

#[test]
fn authenticate() {
    let result = Client::new(BASE, "token", answer(204, ""));

    assert!(result.is_ok(), "{:?}", result.err());

    let client = result.unwrap();

    assert_eq!("token", client.access_token());
}

#[test]
fn authenticate_bad_token() {
    let result = Client::new(BASE, "token", answer(401, ""));

    assert!(result.is_err());
    assert!(matches!(result, Err(Error::BadRequest { status: 401 })));
}

#[test]
fn books() {
    let q = client().books(1);
    assert_eq!(q.method, Method::Get);
    assert_eq!(q.url, url("/api/v2/books?page=1"));
    assert_eq!(q.authorization, "Token ");
    assert_eq!(q.payload, None);

    let body = r#" { "count": 1, "next": null, "previous": null, "results": [{}] } "#;
    let result = check_status(answer(200, body));

    assert!(result.is_ok(), "{:?}", result.err());
    assert_eq!(result.unwrap().text, body);
}

#[test]
fn highlights() {
    let q = client().highlights(1);
    assert_eq!(q.method, Method::Get);
    assert_eq!(q.url, url("/api/v2/highlights?page=1"));
    assert_eq!(q.payload, None);

    let body = r#" { "count": 1, "next": null, "previous": null, "results": [{}] } "#;
    let result = check_status(answer(200, body));

    assert!(result.is_ok(), "{:?}", result.err());
}

#[test]
fn single_book() {
    let q = client().book(1);
    assert_eq!(q.method, Method::Get);
    assert_eq!(q.url, url("/api/v2/books/1"));
    assert_eq!(q.payload, None);

    let result = check_status(answer(200, "{}"));

    assert!(result.is_ok(), "{:?}", result.err());
}

#[test]
fn single_highlight() {
    let q = client().highlight(1);
    assert_eq!(q.method, Method::Get);
    assert_eq!(q.url, url("/api/v2/highlights/1"));
    assert_eq!(q.payload, None);

    let result = check_status(answer(200, "{}"));

    assert!(result.is_ok(), "{:?}", result.err());
}

#[test]
fn create_highlights() {
    let client = client();
    let q = client.create_highlights(Vec::new());
    assert_eq!(q.method, Method::Post);
    assert_eq!(q.url, url("/api/v2/highlights"));
    assert_eq!(
        q.payload,
        Some(Payload::Batch(Body { key: "highlights".to_string(), items: Vec::new() }))
    );

    let mut book = created(Vec::new());
    book.id = 1;
    book.title = "Quotes".to_string();
    book.category = "books".to_string();
    book.num_highlights = 5;
    let result = match Creation::begin(&client, Ok(vec![book])) {
        Progress::Done(highlights) => Ok(highlights),
        Progress::Failed(e) => Err(e),
        Progress::Fetch(_, q) => panic!("unexpected fetch of {}", q.url),
    };

    assert!(result.is_ok(), "{:?}", result.err());
    assert!(result.unwrap().is_empty());
}

#[test]
fn update_highlight() {
    let q = client().update_highlight(0, Fields::new());
    assert_eq!(q.method, Method::Patch);
    assert_eq!(q.url, url("/api/v2/highlights/0"));
    assert_eq!(q.payload, Some(Payload::Single(Fields::new())));

    let result = check_status(answer(200, "{}"));

    assert!(result.is_ok(), "{:?}", result.err());
}

#[test]
fn delete_highlight() {
    let q = client().delete_highlight(1);
    assert_eq!(q.method, Method::Delete);
    assert_eq!(q.url, url("/api/v2/highlights/1"));
    assert_eq!(q.payload, None);

    let result = check_status(answer(200, ""));

    assert!(result.is_ok(), "{:?}", result.err());
}

#[test]
fn auth_keeps_the_supplied_token_and_base() {
    let client = auth(BASE, "my-token", answer(200, "")).unwrap();
    assert_eq!(client.access_token(), "my-token");
    let q = client.book(7);
    assert_eq!(q.url, url("/api/v2/books/7"));
    assert_eq!(q.authorization, "Token my-token");
}

#[test]
fn auth_rejects_unauthorized() {
    assert!(matches!(
        auth(BASE, "token", answer(401, "")),
        Err(Error::BadRequest { status: 401 })
    ));
}

#[test]
fn auth_rejects_a_token_that_cannot_be_a_header() {
    assert!(matches!(
        auth(BASE, "bad\ntoken", answer(200, "")),
        Err(Error::HeaderValue { .. })
    ));
    assert!(matches!(
        Client::new(BASE, "del\u{7f}", answer(401, "")),
        Err(Error::HeaderValue { .. })
    ));
}

#[test]
fn auth_accepts_tab_and_non_ascii_tokens() {
    let client = auth(BASE, "a\tb\u{e9}", answer(204, "")).unwrap();
    assert_eq!(client.access_token(), "a\tb\u{e9}");
}

#[test]
fn create_fetches_each_modified_id_in_order() {
    let client = client();
    let progress = Creation::begin(&client, Ok(vec![created(vec![1, 2])]));
    let (creation, q) = match progress {
        Progress::Fetch(c, q) => (c, q),
        _ => panic!("expected a fetch"),
    };
    assert_eq!(q.method, Method::Get);
    assert_eq!(q.url, url("/api/v2/highlights/1"));

    let (creation, q) = match creation.step(&client, Ok(highlight_with_id(1))) {
        Progress::Fetch(c, q) => (c, q),
        _ => panic!("expected a second fetch"),
    };
    assert_eq!(q.method, Method::Get);
    assert_eq!(q.url, url("/api/v2/highlights/2"));

    match creation.step(&client, Ok(highlight_with_id(2))) {
        Progress::Done(highlights) => {
            assert_eq!(highlights, vec![highlight_with_id(1), highlight_with_id(2)]);
        }
        _ => panic!("expected the end"),
    }
}

#[test]
fn create_fails_whole_on_a_failed_fetch() {
    let client = client();
    let creation = match Creation::begin(&client, Ok(vec![created(vec![1, 2])])) {
        Progress::Fetch(c, _) => c,
        _ => panic!("expected a fetch"),
    };
    let creation = match creation.step(&client, Ok(highlight_with_id(1))) {
        Progress::Fetch(c, _) => c,
        _ => panic!("expected a second fetch"),
    };
    let outcome = creation.step(&client, Err(Error::BadRequest { status: 404 }));
    assert!(matches!(outcome, Progress::Failed(Error::BadRequest { status: 404 })));
}

#[test]
fn create_fails_when_the_post_fails() {
    let outcome = Creation::begin(&client(), Err(Error::BadRequest { status: 500 }));
    assert!(matches!(outcome, Progress::Failed(Error::BadRequest { status: 500 })));
}

#[test]
fn modified_ids_flatten_in_order() {
    let responses = vec![created(vec![3]), created(Vec::new()), created(vec![5, 4])];
    assert_eq!(modified_ids(&responses), vec![3, 5, 4]);
    assert!(modified_ids(&Vec::new()).is_empty());
}

#[test]
fn update_sends_the_fields_alone() {
    let f = fields(&[("text", "hello, world!")]);
    let q = client().update_highlight(138105649, f.clone());
    assert_eq!(q.method, Method::Patch);
    assert_eq!(q.url, url("/api/v2/highlights/138105649"));
    assert_eq!(q.payload, Some(Payload::Single(f)));
}

#[test]
fn negative_ids_are_written_with_a_sign() {
    assert_eq!(client().delete_highlight(-5).url, url("/api/v2/highlights/-5"));
    assert_eq!(client().update_highlight(-12, Fields::new()).url, url("/api/v2/highlights/-12"));
}

#[test]
fn delete_fails_with_the_status_on_not_found() {
    assert!(check_status(answer(204, "")).is_ok());
    assert!(matches!(check_status(answer(404, "")), Err(Error::BadRequest { status: 404 })));
}

#[test]
fn any_status_outside_success_is_a_bad_request() {
    for status in [100u16, 199, 300, 301, 400, 401, 500, 503] {
        match check_status(answer(status, "x")) {
            Err(Error::BadRequest { status: s }) => assert_eq!(s, status),
            other => panic!("status {} gave {:?}", status, other),
        }
    }
    for status in [200u16, 201, 204, 299] {
        assert_eq!(check_status(answer(status, "x")).unwrap(), answer(status, "x"));
    }
}

#[test]
fn signed_request_patch_sends_the_first_item() {
    let body = Body {
        key: "body".to_string(),
        items: vec![fields(&[("note", "n")]), fields(&[("note", "m")])],
    };
    let q: Request =
        signed_request(BASE, "/highlights/3", "tok", Method::Patch, Some(body)).unwrap();
    assert_eq!(q.url, url("/api/v2/highlights/3"));
    assert_eq!(q.authorization, "Token tok");
    assert_eq!(q.payload, Some(Payload::Single(fields(&[("note", "n")]))));
}

#[test]
fn signed_request_post_sends_the_body_whole_and_get_sends_none() {
    let body = Body { key: "highlights".to_string(), items: vec![fields(&[("text", "hi")])] };
    let q = signed_request(BASE, "/highlights", "tok", Method::Post, Some(body)).unwrap();
    assert_eq!(
        q.payload,
        Some(Payload::Batch(Body {
            key: "highlights".to_string(),
            items: vec![fields(&[("text", "hi")])],
        }))
    );
    let q = signed_request(BASE, "/auth", "tok", Method::Get, None).unwrap();
    assert_eq!(q.url, url("/api/v2/auth"));
    assert_eq!(q.payload, None);
    assert!(matches!(
        signed_request(BASE, "/auth", "t\rk", Method::Get, None),
        Err(Error::HeaderValue { .. })
    ));
}

#[test]
fn decimal_writing() {
    assert_eq!(to_decimal(0), "0");
    assert_eq!(to_decimal(42), "42");
    assert_eq!(to_decimal(u64::MAX), "18446744073709551615");
    assert_eq!(to_signed_decimal(0), "0");
    assert_eq!(to_signed_decimal(-1), "-1");
    assert_eq!(to_signed_decimal(i64::MIN), "-9223372036854775808");
    assert_eq!(to_signed_decimal(i64::MAX), "9223372036854775807");
}

#[test]
fn default_records_are_blank() {
    let b = Book::default();
    assert_eq!(b.id, 0);
    assert!(b.title.is_empty() && b.author.is_none() && b.source_url.is_none());
    let h = Highlight::default();
    assert_eq!(h.location, 0);
    assert!(h.text.is_empty() && h.books_id.is_none() && h.highlighted_at.is_none());
    assert!(HighlightCreateResponse::default().modified_highlights.is_empty());
}

#[test]
fn default_base_url() {
    assert_eq!(request_url(), "https://readwise.io");
    let client = Client::new(&request_url(), "t", answer(200, "")).unwrap();
    assert_eq!(client.books(3).url, "https://readwise.io/api/v2/books?page=3");
}
