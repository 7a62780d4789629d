use crate::client::{highlight_path, Client};
use crate::error::Error;
use crate::model::{Highlight, HighlightCreateResponse};
use crate::request::{Method, Request};
use vstd::prelude::*;

verus! {

/// The highlight ids that a create answer names, book after book, each
/// book's ids in the order it gives them.
pub open spec fn created_ids(responses: Seq<HighlightCreateResponse>) -> Seq<u64>
    decreases responses.len(),
{
    if responses.len() == 0 {
        seq![]
    } else {
        created_ids(responses.drop_last()) + responses.last().modified_highlights@
    }
}

/// Lists the highlight ids that a create answer names, in the order of
/// `created_ids`.
pub fn modified_ids(responses: &Vec<HighlightCreateResponse>) -> (r: Vec<u64>)
    ensures
        r@ == created_ids(responses@),
{
    let mut ids: Vec<u64> = Vec::new();
    let mut i: usize = 0;
    while i < responses.len()
        invariant
            i <= responses.len(),
            ids@ == created_ids(responses@.subrange(0, i as int)),
        decreases responses.len() - i,
    {
        let item = &responses[i];
        let mut j: usize = 0;
        while j < item.modified_highlights.len()
            invariant
                i < responses.len(),
                item == responses@[i as int],
                j <= item.modified_highlights@.len(),
                ids@ == created_ids(responses@.subrange(0, i as int))
                    + item.modified_highlights@.subrange(0, j as int),
            decreases item.modified_highlights@.len() - j,
        {
            ids.push(item.modified_highlights[j]);
            j += 1;
            assert(ids@ =~= created_ids(responses@.subrange(0, i as int))
                + item.modified_highlights@.subrange(0, j as int));
        }
        assert(responses@.subrange(0, i + 1).drop_last() =~= responses@.subrange(0, i as int));
        assert(item.modified_highlights@.subrange(0, j as int) =~= item.modified_highlights@);
        i += 1;
    }
    assert(responses@.subrange(0, i as int) =~= responses@);
    ids
}

/// A create call between its follow-up fetches: the ids that the server
/// named, and the highlights fetched so far for the first of them. At least
/// one id is still to be fetched.
pub struct Creation {
    ids: Vec<u64>,
    fetched: Vec<Highlight>,
}

/// Where a create call stands after an event.
pub enum Progress {
    /// Send this request for the next highlight, then hand its outcome to
    /// `Creation::step`.
    Fetch(Creation, Request),
    /// Every highlight was fetched: here they are, in the order of the ids.
    Done(Vec<Highlight>),
    /// The call failed as a whole; nothing fetched is kept.
    Failed(Error),
}

impl Creation {
    #[verifier::type_invariant]
    spec fn inv(self) -> bool {
        self.fetched@.len() < self.ids@.len()
    }

    /// The ids to fetch, in order.
    pub closed spec fn ids(self) -> Seq<u64> {
        self.ids@
    }

    /// The highlights fetched so far, one for each of the first ids.
    pub closed spec fn fetched(self) -> Seq<Highlight> {
        self.fetched@
    }

    /// How a create call goes on once `highlights` were fetched for the
    /// first of `ids`: with the fetch of the next id, or done with them.
    pub open spec fn continues(
        r: Progress,
        client: Client,
        ids: Seq<u64>,
        highlights: Seq<Highlight>,
    ) -> bool {
        if highlights.len() == ids.len() {
            r matches Progress::Done(v) && v@ == highlights
        } else {
            r matches Progress::Fetch(c, q) && c.ids() == ids && c.fetched() == highlights
                && client.signs(q, Method::Get, highlight_path(ids[highlights.len() as int] as int), None)
        }
    }

    fn proceed(client: &Client, ids: Vec<u64>, fetched: Vec<Highlight>) -> (r: Progress)
        requires
            fetched@.len() <= ids@.len(),
        ensures
            Creation::continues(r, *client, ids@, fetched@),
    {
        if fetched.len() == ids.len() {
            Progress::Done(fetched)
        } else {
            let q = client.highlight(ids[fetched.len()]);
            Progress::Fetch(Creation { ids, fetched }, q)
        }
    }

    /// Starts the follow-up fetches once the server answered the POST that
    /// creates highlights. A failed POST fails the call; else the fetches go
    /// through the ids of `created_ids`, in order.
    pub fn begin(client: &Client, created: Result<Vec<HighlightCreateResponse>, Error>) -> (r:
        Progress)
        ensures
            created matches Err(e) ==> r == Progress::Failed(e),
            created matches Ok(responses) ==> Creation::continues(
                r,
                *client,
                created_ids(responses@),
                seq![],
            ),
    {
        match created {
            Err(e) => Progress::Failed(e),
            Ok(responses) => {
                let ids = modified_ids(&responses);
                Creation::proceed(client, ids, Vec::new())
            },
        }
    }

    /// Takes the outcome of the fetch that `Progress::Fetch` asked for. A
    /// failure fails the whole call, and drops what was fetched before.
    pub fn step(self, client: &Client, outcome: Result<Highlight, Error>) -> (r: Progress)
        ensures
            outcome matches Err(e) ==> r == Progress::Failed(e),
            outcome matches Ok(h) ==> Creation::continues(
                r,
                *client,
                self.ids(),
                self.fetched().push(h),
            ),
    {
        proof {
            use_type_invariant(&self);
        }
        match outcome {
            Err(e) => Progress::Failed(e),
            Ok(h) => {
                let Creation { ids, mut fetched } = self;
                fetched.push(h);
                Creation::proceed(client, ids, fetched)
            },
        }
    }
}

} // verus!
