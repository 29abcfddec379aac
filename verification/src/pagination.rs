//! Draining a paginated collection, one page at a time.
//!
//! A `PageWalk` decides; the caller fetches. `PageWalk::start` gives the
//! first request, and each fetched page goes to `PageWalk::accept`, which
//! either asks for the next page or hands over everything collected.

use vstd::prelude::*;
use crate::types::{IterableRequest, IterableResponse};

verus! {

/// What a walk that has collected some records does with a page, as a
/// mathematical value.
pub enum StepModel<T> {
    /// Another page is to be fetched. `collected` holds the records so
    /// far, and the next request skips as many records as it holds.
    Fetch { collected: Seq<T> },
    /// The walk is over, and `results` is what it hands over.
    Done { results: Seq<T> },
}

/// The step of a walk that has collected `collected` and is handed a page
/// with the records `records`: they are appended in order; the walk goes on
/// exactly when the page names a next page.
pub open spec fn walk_step<T>(collected: Seq<T>, records: Seq<T>, has_next: bool) -> StepModel<T> {
    if has_next {
        StepModel::Fetch { collected: collected + records }
    } else {
        StepModel::Done { results: collected + records }
    }
}

/// Whether `request` is the page request of a walk over `filter` that has
/// collected `collected` records: same filters, no page size, and an offset
/// equal to the number of records collected so far.
pub open spec fn is_page_request<P: IterableRequest>(
    request: P,
    filter: P::Filter,
    collected: nat,
) -> bool {
    &&& request.filter() == filter
    &&& request.page_limit() is None
    &&& request.page_offset() == Some(collected as u64)
}

/// A walk over the pages of one collection: the filters it was started
/// with and the records collected so far.
pub struct PageWalk<P: IterableRequest, T> {
    params: P,
    collected: Vec<T>,
}

/// What a walk does after a page has come in.
pub enum WalkStep<P: IterableRequest, T> {
    /// Fetch the page that `request` describes and hand it to `walk`.
    Fetch { walk: PageWalk<P, T>, request: P },
    /// No page follows: `results` holds every record, in the order served.
    Done { results: Vec<T> },
}

impl<P: IterableRequest, T> WalkStep<P, T> {
    /// The step as a mathematical value.
    pub open spec fn model(&self) -> StepModel<T> {
        match *self {
            WalkStep::Fetch { walk, request } => StepModel::Fetch { collected: walk.collected() },
            WalkStep::Done { results } => StepModel::Done { results: results@ },
        }
    }
}

impl<P: IterableRequest, T> PageWalk<P, T> {
    #[verifier::type_invariant]
    spec fn cleared(self) -> bool {
        self.params.page_limit() is None
    }

    /// The records collected so far, in the order served.
    pub closed spec fn collected(&self) -> Seq<T> {
        self.collected@
    }

    /// The filters that every request of this walk carries.
    pub closed spec fn filter(&self) -> P::Filter {
        self.params.filter()
    }

    /// Begins a walk. The page size and offset of `params` are dropped, so
    /// that the server's own page size governs; the first request asks for
    /// offset zero.
    pub fn start(params: &P) -> (r: (Self, P))
        ensures
            r.0.collected() == Seq::<T>::empty(),
            r.0.filter() == params.filter(),
            is_page_request(r.1, params.filter(), 0),
    {
        let cleared = params.limit(None).offset(None);
        let request = cleared.offset(Some(0));
        (PageWalk { params: cleared, collected: Vec::new() }, request)
    }

    /// Takes one fetched page. Its records are appended in order. Where the
    /// page names no next page the walk is over; otherwise the next request
    /// skips exactly the records collected so far.
    pub fn accept<R: IterableResponse<T>>(self, page: R) -> (step: WalkStep<P, T>)
        ensures
            step.model() == walk_step(
                self.collected(),
                page.records(),
                page.next_link() is Some,
            ),
            step matches WalkStep::Fetch { walk, request } ==> {
                &&& walk.filter() == self.filter()
                &&& is_page_request(request, self.filter(), walk.collected().len())
            },
    {
        proof {
            use_type_invariant(&self);
        }
        let more = page.next().is_some();
        let mut records = page.results();
        let PageWalk { params, mut collected } = self;
        collected.append(&mut records);
        if more {
            let offset: u64 = collected.len() as u64;
            let request = params.offset(Some(offset));
            WalkStep::Fetch { walk: PageWalk { params, collected }, request }
        } else {
            WalkStep::Done { results: collected }
        }
    }
}

/// The outcome of a whole walk: the records handed over and the offset of
/// each request made, in order.
pub struct Drained<T> {
    pub records: Seq<T>,
    pub offsets: Seq<nat>,
}

/// The records of the first `count` pages of `pages`, in order.
pub open spec fn records_through<T>(pages: Seq<Seq<T>>, count: int) -> Seq<T>
    decreases count,
{
    if count <= 0 || count > pages.len() {
        Seq::empty()
    } else {
        records_through(pages, count - 1) + pages[count - 1]
    }
}

/// A walk that has collected `collected`, run to its end on the pages
/// `pages[from]`, `pages[from + 1]` and so on, of which all but the last
/// name a next page.
pub open spec fn walk_pages<T>(pages: Seq<Seq<T>>, from: int, collected: Seq<T>) -> Drained<T>
    decreases pages.len() - from,
{
    if from < 0 || from >= pages.len() {
        Drained { records: collected, offsets: Seq::empty() }
    } else {
        let offset = collected.len();
        match walk_step(collected, pages[from], from + 1 < pages.len()) {
            StepModel::Fetch { collected: grown } => {
                let rest = walk_pages(pages, from + 1, grown);
                Drained { records: rest.records, offsets: seq![offset] + rest.offsets }
            },
            StepModel::Done { results } => Drained { records: results, offsets: seq![offset] },
        }
    }
}

proof fn lemma_walk_pages_from<T>(pages: Seq<Seq<T>>, from: int, collected: Seq<T>)
    requires
        0 <= from < pages.len(),
        collected == records_through(pages, from),
    ensures
        walk_pages(pages, from, collected).records == records_through(pages, pages.len() as int),
        walk_pages(pages, from, collected).offsets.len() == pages.len() - from,
        forall|i: int|
            0 <= i < pages.len() - from ==> #[trigger] walk_pages(pages, from, collected).offsets[i]
                == records_through(pages, from + i).len(),
    decreases pages.len() - from,
{
    let grown = collected + pages[from];
    assert(grown == records_through(pages, from + 1));
    if from + 1 < pages.len() {
        lemma_walk_pages_from(pages, from + 1, grown);
        let rest = walk_pages(pages, from + 1, grown);
        let all = walk_pages(pages, from, collected);
        assert(all.offsets == seq![collected.len()] + rest.offsets);
        assert forall|i: int| 0 <= i < pages.len() - from implies #[trigger] all.offsets[i]
            == records_through(pages, from + i).len() by {
            if i > 0 {
                assert(all.offsets[i] == rest.offsets[i - 1]);
            }
        }
    }
}

/// Whatever the sizes of the pages that a server hands out, as long as all
/// but the last name a next page: a walk hands over the records of all
/// pages, in the order served; it makes one request for each page; and each
/// request's offset is the number of records in the pages before it.
pub proof fn lemma_walk_collects_every_page<T>(pages: Seq<Seq<T>>)
    requires
        pages.len() > 0,
    ensures
        walk_pages(pages, 0, Seq::empty()).records == records_through(pages, pages.len() as int),
        walk_pages(pages, 0, Seq::empty()).offsets.len() == pages.len(),
        forall|i: int|
            0 <= i < pages.len() ==> #[trigger] walk_pages(pages, 0, Seq::empty()).offsets[i]
                == records_through(pages, i).len(),
{
    lemma_walk_pages_from(pages, 0, Seq::empty());
}

/// The page that a server holding `collection` returns at `offset` when it
/// serves `page_size` records per page.
pub open spec fn served_records<T>(collection: Seq<T>, page_size: nat, offset: nat) -> Seq<T> {
    if offset >= collection.len() {
        Seq::empty()
    } else if offset + page_size >= collection.len() {
        collection.subrange(offset as int, collection.len() as int)
    } else {
        collection.subrange(offset as int, (offset + page_size) as int)
    }
}

/// Whether that server names a next page at `offset`.
pub open spec fn served_next(length: nat, page_size: nat, offset: nat) -> bool {
    offset + page_size < length
}

/// A walk that has collected `collected`, run to its end against a server
/// that holds `collection` and serves `page_size` records per page: each
/// request asks for the offset that is the number of records collected,
/// and each page served goes through `walk_step`.
pub open spec fn drain<T>(collection: Seq<T>, page_size: nat, collected: Seq<T>) -> Drained<T>
    decreases collection.len() - collected.len(),
    when page_size > 0
{
    let offset = collected.len();
    let records = served_records(collection, page_size, offset);
    let has_next = served_next(collection.len(), page_size, offset);
    match walk_step(collected, records, has_next) {
        StepModel::Fetch { collected: grown } => {
            let rest = drain(collection, page_size, grown);
            Drained { records: rest.records, offsets: seq![offset] + rest.offsets }
        },
        StepModel::Done { results } => Drained { records: results, offsets: seq![offset] },
    }
}

/// The number of pages it takes to serve `length` records, `page_size` at a
/// time: the quotient rounded up.
pub open spec fn page_count(length: nat, page_size: nat) -> nat {
    ((length + page_size - 1) / (page_size as int)) as nat
}

proof fn lemma_drain_from<T>(collection: Seq<T>, page_size: nat, collected: Seq<T>)
    requires
        page_size > 0,
        collected.len() <= collection.len(),
        collected =~= collection.subrange(0, collected.len() as int),
    ensures
        drain(collection, page_size, collected).records == collection,
        drain(collection, page_size, collected).offsets.len() == (if collected.len()
            == collection.len() {
            1
        } else {
            page_count((collection.len() - collected.len()) as nat, page_size)
        }),
        forall|i: int|
            0 <= i < drain(collection, page_size, collected).offsets.len() ==> #[trigger] drain(
                collection,
                page_size,
                collected,
            ).offsets[i] == collected.len() + i * page_size,
    decreases collection.len() - collected.len(),
{
    let offset = collected.len();
    let left = (collection.len() - offset) as nat;
    let page = served_records(collection, page_size, offset);
    let grown = collected + page;
    assert(0 * page_size == 0);
    if served_next(collection.len(), page_size, offset) {
        assert(grown =~= collection.subrange(0, (offset + page_size) as int));
        lemma_drain_from(collection, page_size, grown);
        let rest = drain(collection, page_size, grown);
        let all = drain(collection, page_size, collected);
        assert(all.offsets == seq![offset] + rest.offsets);
        assert(page_count(left, page_size) == 1 + page_count((left - page_size) as nat, page_size))
            by (nonlinear_arith)
            requires
                page_size > 0,
                left > page_size,
        ;
        assert forall|i: int| 0 <= i < all.offsets.len() implies #[trigger] all.offsets[i] == offset
            + i * page_size by {
            if i > 0 {
                assert(all.offsets[i] == rest.offsets[i - 1]);
                assert(offset + page_size + (i - 1) * page_size == offset + i * page_size)
                    by (nonlinear_arith);
            }
        }
    } else {
        assert(grown =~= collection);
        if left > 0 {
            assert(page_count(left, page_size) == 1) by (nonlinear_arith)
                requires
                    page_size > 0,
                    0 < left <= page_size,
            ;
        }
    }
}

/// Against a server that holds a non-empty collection and serves a fixed
/// number of records per page, a walk hands over exactly the collection, in
/// the server's order; it makes as many requests as there are pages; and
/// each request's offset is the number of records served before it.
pub proof fn lemma_walk_returns_collection<T>(collection: Seq<T>, page_size: nat)
    requires
        page_size > 0,
        collection.len() > 0,
    ensures
        drain(collection, page_size, Seq::empty()).records == collection,
        drain(collection, page_size, Seq::empty()).offsets.len() == page_count(
            collection.len(),
            page_size,
        ),
        forall|i: int|
            0 <= i < drain(collection, page_size, Seq::empty()).offsets.len() ==> #[trigger] drain(
                collection,
                page_size,
                Seq::empty(),
            ).offsets[i] == i * page_size,
{
    lemma_drain_from(collection, page_size, Seq::empty());
}

/// Against a server that holds nothing, a walk makes one request, at offset
/// zero, and hands over no record.
pub proof fn lemma_walk_of_empty_collection<T>(collection: Seq<T>, page_size: nat)
    requires
        page_size > 0,
        collection.len() == 0,
    ensures
        drain(collection, page_size, Seq::empty()).records == Seq::<T>::empty(),
        drain(collection, page_size, Seq::empty()).offsets == seq![0nat],
{
    assert(drain(collection, page_size, Seq::<T>::empty()).records =~= Seq::<T>::empty());
}

} // verus!
