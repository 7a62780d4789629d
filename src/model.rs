use vstd::prelude::*;

verus! {

/// A source document in the reader's library.
#[derive(Debug, Clone, PartialEq, Eq)]
pub struct Book {
    pub id: u64,
    pub title: String,
    pub author: Option<String>,
    pub category: String,
    pub num_highlights: u64,
    pub last_highlighted_at: Option<String>,
    pub updated: String,
    pub cover_image_url: String,
    pub highlights_url: String,
    pub source_url: Option<String>,
}

/// One page of books: the total count, the cursors of the pages around it,
/// and the books of this page in the server's order.
#[derive(Debug, Clone, PartialEq, Eq)]
pub struct BooksResponse {
    pub count: u64,
    pub next: Option<String>,
    pub previous: Option<String>,
    pub results: Vec<Book>,
}

/// An excerpt that the reader captured from a book.
#[derive(Debug, Clone, PartialEq, Eq)]
pub struct Highlight {
    pub id: u64,
    pub text: String,
    pub note: String,
    pub location: u64,
    pub location_type: String,
    pub highlighted_at: Option<String>,
    pub url: Option<String>,
    pub color: String,
    pub updated: String,
    pub books_id: Option<String>,
}

/// One page of highlights: the total count, the cursors of the pages around
/// it, and the highlights of this page in the server's order.
#[derive(Debug, Clone, PartialEq, Eq)]
pub struct HighlightsResponse {
    pub count: u64,
    pub next: Option<String>,
    pub previous: Option<String>,
    pub results: Vec<Highlight>,
}

/// The server's answer about one book to a request that creates highlights:
/// the book, and the ids of the highlights that the request created or
/// changed in it.
#[derive(Debug, Clone, PartialEq, Eq)]
pub struct HighlightCreateResponse {
    pub id: u64,
    pub title: String,
    pub author: Option<String>,
    pub category: String,
    pub num_highlights: u64,
    pub last_highlighted_at: Option<String>,
    pub updated: String,
    pub cover_image_url: String,
    pub highlights_url: String,
    pub source_url: Option<String>,
    pub modified_highlights: Vec<u64>,
}

/// A book whose numbers are zero, whose texts are empty and whose optional
/// fields are absent.
pub open spec fn is_blank_book(b: Book) -> bool {
    &&& b.id == 0
    &&& b.title@.len() == 0
    &&& b.author is None
    &&& b.category@.len() == 0
    &&& b.num_highlights == 0
    &&& b.last_highlighted_at is None
    &&& b.updated@.len() == 0
    &&& b.cover_image_url@.len() == 0
    &&& b.highlights_url@.len() == 0
    &&& b.source_url is None
}

/// A highlight whose numbers are zero, whose texts are empty and whose
/// optional fields are absent.
pub open spec fn is_blank_highlight(h: Highlight) -> bool {
    &&& h.id == 0
    &&& h.text@.len() == 0
    &&& h.note@.len() == 0
    &&& h.location == 0
    &&& h.location_type@.len() == 0
    &&& h.highlighted_at is None
    &&& h.url is None
    &&& h.color@.len() == 0
    &&& h.updated@.len() == 0
    &&& h.books_id is None
}

impl Default for Book {
    fn default() -> (r: Book)
        ensures
            is_blank_book(r),
    {
        Book {
            id: 0,
            title: String::new(),
            author: None,
            category: String::new(),
            num_highlights: 0,
            last_highlighted_at: None,
            updated: String::new(),
            cover_image_url: String::new(),
            highlights_url: String::new(),
            source_url: None,
        }
    }
}

impl Default for Highlight {
    fn default() -> (r: Highlight)
        ensures
            is_blank_highlight(r),
    {
        Highlight {
            id: 0,
            text: String::new(),
            note: String::new(),
            location: 0,
            location_type: String::new(),
            highlighted_at: None,
            url: None,
            color: String::new(),
            updated: String::new(),
            books_id: None,
        }
    }
}

impl Default for HighlightCreateResponse {
    fn default() -> (r: HighlightCreateResponse)
        ensures
            r.id == 0,
            r.title@.len() == 0,
            r.author is None,
            r.category@.len() == 0,
            r.num_highlights == 0,
            r.last_highlighted_at is None,
            r.updated@.len() == 0,
            r.cover_image_url@.len() == 0,
            r.highlights_url@.len() == 0,
            r.source_url is None,
            r.modified_highlights@.len() == 0,
    {
        HighlightCreateResponse {
            id: 0,
            title: String::new(),
            author: None,
            category: String::new(),
            num_highlights: 0,
            last_highlighted_at: None,
            updated: String::new(),
            cover_image_url: String::new(),
            highlights_url: String::new(),
            source_url: None,
            modified_highlights: Vec::new(),
        }
    }
}

} // verus!
