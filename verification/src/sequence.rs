//! What a consumer observes of a cursor, from the first pull to the end:
//! the requests and the elements, in the order in which they happen.

use crate::cursor::{into_queue, outcome_view, Action, ActionView, Batch, Cursor, CursorView};
use crate::error::Error;
use crate::page::{first_next, parsed_url, Page, PaginationLink};
use vstd::prelude::*;

verus! {

/// One thing that a consumer sees happen.
#[derive(Debug, PartialEq, Eq)]
pub enum Event<T> {
    /// The page at this URL is asked for.
    Request(String),
    /// The sequence produces this element: an item, or the error that it
    /// fails with.
    Element(Result<T, Error>),
}

/// An event, with its URL as a sequence of characters.
pub enum EventView<T> {
    Request(Seq<char>),
    Element(Result<T, Error>),
}

impl<T> View for Event<T> {
    type V = EventView<T>;

    open spec fn view(&self) -> EventView<T> {
        match *self {
            Event::Request(url) => EventView::Request(url@),
            Event::Element(element) => EventView::Element(element),
        }
    }
}

/// What a consumer has seen of a sequence.
#[verifier::ext_equal]
pub struct Trace<T> {
    /// What happened, in its order.
    pub events: Seq<EventView<T>>,
    /// Whether the end of the sequence was reached.
    pub ended: bool,
}

/// What came of running a cursor over the answers to its requests.
#[derive(Debug, PartialEq, Eq)]
pub struct Replay<T> {
    /// What happened, in its order.
    pub events: Vec<Event<T>>,
    /// Whether the end of the sequence was reached.
    pub ended: bool,
}

/// Events as mathematical values.
pub open spec fn event_views<T>(events: Seq<Event<T>>) -> Seq<EventView<T>> {
    Seq::new(events.len(), |i: int| events[i]@)
}

impl<T> View for Replay<T> {
    type V = Trace<T>;

    open spec fn view(&self) -> Trace<T> {
        Trace { events: event_views(self.events@), ended: self.ended }
    }
}

/// The outcomes of some requests as a cursor takes them in.
pub open spec fn outcomes<T>(replies: Seq<Result<Page<T>, Error>>) -> Seq<Result<Batch<T>, Error>> {
    Seq::new(replies.len(), |i: int| outcome_view(replies[i]))
}

/// The elements among some events, in their order.
pub open spec fn elements_of<T>(events: Seq<EventView<T>>) -> Seq<Result<T, Error>>
    decreases events.len(),
{
    if events.len() == 0 {
        Seq::empty()
    } else {
        match events[0] {
            EventView::Element(element) => seq![element] + elements_of(events.drop_first()),
            EventView::Request(_) => elements_of(events.drop_first()),
        }
    }
}

/// The URLs of the requests among some events, in their order.
pub open spec fn requests_of<T>(events: Seq<EventView<T>>) -> Seq<Seq<char>>
    decreases events.len(),
{
    if events.len() == 0 {
        Seq::empty()
    } else {
        match events[0] {
            EventView::Element(_) => requests_of(events.drop_first()),
            EventView::Request(url) => seq![url] + requests_of(events.drop_first()),
        }
    }
}

impl<T> Trace<T> {
    /// The trace of a sequence that ends at once.
    pub open spec fn ended() -> Self {
        Trace { events: Seq::empty(), ended: true }
    }

    /// The trace of a sequence of which nothing more is seen, and not its
    /// end either.
    pub open spec fn open() -> Self {
        Trace { events: Seq::empty(), ended: false }
    }

    /// This trace, preceded by some events.
    pub open spec fn after(self, events: Seq<EventView<T>>) -> Self {
        Trace { events: events + self.events, ended: self.ended }
    }

    /// This trace, followed by a later one.
    pub open spec fn followed_by(self, later: Trace<T>) -> Self {
        Trace { events: self.events + later.events, ended: later.ended }
    }

    /// The elements that were produced, in their order.
    pub open spec fn elements(self) -> Seq<Result<T, Error>> {
        elements_of(self.events)
    }

    /// The URLs of the pages that were asked for, in their order.
    pub open spec fn requests(self) -> Seq<Seq<char>> {
        requests_of(self.events)
    }
}

/// The events in which some items are yielded one after the other.
pub open spec fn yields<T>(items: Seq<T>) -> Seq<EventView<T>> {
    Seq::new(items.len(), |i: int| EventView::Element(Ok(items[i])))
}

/// The items of some pages, one page after the other.
pub open spec fn items_of<T>(pages: Seq<Batch<T>>) -> Seq<T>
    decreases pages.len(),
{
    if pages.len() == 0 {
        Seq::empty()
    } else {
        pages[0].items + items_of(pages.drop_first())
    }
}

/// Items as elements of a sequence that did not fail.
pub open spec fn as_elements<T>(items: Seq<T>) -> Seq<Result<T, Error>> {
    Seq::new(items.len(), |i: int| Ok(items[i]))
}

/// Pages as the answers to as many successful requests.
pub open spec fn as_replies<T>(pages: Seq<Batch<T>>) -> Seq<Result<Batch<T>, Error>> {
    Seq::new(pages.len(), |i: int| Ok(pages[i]))
}

/// Whether each of the first `count` pages names a page that follows it.
pub open spec fn linked<T>(pages: Seq<Batch<T>>, count: int) -> bool {
    forall|k: int| 0 <= k < count ==> (#[trigger] pages[k]).next_url is Some
}

/// The first `count` URLs on the way through the pages: `url`, then what
/// each page names as its successor.
pub open spec fn addresses<T>(url: Seq<char>, pages: Seq<Batch<T>>, count: nat) -> Seq<Seq<char>> {
    Seq::new(
        count,
        |k: int|
            if k == 0 {
                url
            } else {
                pages[k - 1].next_url.unwrap()
            },
    )
}

/// The URL that the way through the pages arrives at: what the last page
/// names as its successor, and `url` where there is no page.
pub open spec fn arrival<T>(url: Seq<char>, pages: Seq<Batch<T>>) -> Seq<char> {
    if pages.len() == 0 {
        url
    } else {
        pages.last().next_url.unwrap()
    }
}

/// The way through the pages: the first page is asked for at `url` and its
/// items are yielded, then the second page is asked for where the first
/// one points and its items are yielded, and so on.
pub open spec fn walk<T>(url: Seq<char>, pages: Seq<Batch<T>>) -> Seq<EventView<T>>
    decreases pages.len(),
{
    if pages.len() == 0 {
        Seq::empty()
    } else {
        seq![EventView::Request(url)] + yields(pages[0].items) + match pages[0].next_url {
            Some(onward) => walk(onward, pages.drop_first()),
            None => Seq::empty(),
        }
    }
}

impl<T> CursorView<T> {
    /// What a consumer observes who is handed `action` in this state and
    /// pulls until the end. The request for a page is answered by the first
    /// of `replies`, the one after it by the second, and so on; a request
    /// that finds no reply is never answered.
    pub open spec fn run(
        self,
        action: ActionView<T>,
        replies: Seq<Result<Batch<T>, Error>>,
    ) -> Trace<T>
        decreases
            replies.len(),
            self.buffered.len() + if action is Yield || action is Fail {
                1int
            } else {
                0int
            },
    {
        match action {
            ActionView::Yield(item) => {
                let (state, next) = self.pull();
                state.run(next, replies).after(seq![EventView::Element(Ok(item))])
            },
            ActionView::Fail(error) => {
                let (state, next) = self.pull();
                state.run(next, replies).after(seq![EventView::Element(Err(error))])
            },
            ActionView::Fetch(url) => {
                if replies.len() == 0 {
                    Trace::open().after(seq![EventView::Request(url)])
                } else {
                    let (state, next) = self.deliver(replies[0]);
                    state.run(next, replies.drop_first()).after(seq![EventView::Request(url)])
                }
            },
            ActionView::End => Trace::ended(),
        }
    }

    /// What a consumer observes who pulls this cursor until the end.
    pub open spec fn drain(self, replies: Seq<Result<Batch<T>, Error>>) -> Trace<T> {
        let (state, action) = self.pull();
        state.run(action, replies)
    }

    /// The state after `count` pulls.
    pub open spec fn after_pulls(self, count: nat) -> Self
        decreases count,
    {
        if count == 0 {
            self
        } else {
            self.pull().0.after_pulls((count - 1) as nat)
        }
    }
}

impl<T> Cursor<T> {
    /// Pulls the cursor to its end and answers its requests from `replies`:
    /// the first request with the first reply, the one after it with the
    /// second, and so on. Where the replies run out, the run stops at the
    /// request that finds none.
    ///
    /// This is the loop that a caller runs around its transport, with the
    /// answers at hand instead of a transport.
    pub fn replay(&mut self, replies: Vec<Result<Page<T>, Error>>) -> (replay: Replay<T>)
        ensures
            replay@ == old(self)@.drain(outcomes(replies@)),
            replay.ended ==> final(self)@.is_exhausted(),
    {
        let ghost whole = old(self)@.drain(outcomes(replies@));
        let mut waiting = into_queue(replies);
        let mut events: Vec<Event<T>> = Vec::new();
        let mut ended = false;
        let mut action = self.pull();
        loop
            invariant_except_break
                !ended,
                action is End ==> self@.is_exhausted(),
                (Trace::<T> { events: event_views(events@), ended }).followed_by(
                    self@.run(action@, outcomes(waiting@)),
                ) == whole,
            ensures
                (Trace::<T> { events: event_views(events@), ended }) == whole,
                ended ==> self@.is_exhausted(),
            decreases
                waiting@.len(),
                self@.buffered.len() + if action is Yield || action is Fail {
                    1int
                } else {
                    0int
                },
        {
            let ghost seen = event_views(events@);
            let ghost rest = outcomes(waiting@);
            match action {
                Action::Yield(item) => {
                    events.push(Event::Element(Ok(item)));
                    action = self.pull();
                },
                Action::Fail(error) => {
                    events.push(Event::Element(Err(error)));
                    action = self.pull();
                },
                Action::Fetch(url) => {
                    events.push(Event::Request(url));
                    match waiting.pop_front() {
                        Some(reply) => {
                            action = self.deliver(reply);
                            assert(rest[0] == outcome_view(reply));
                            assert(rest.drop_first() =~= outcomes(waiting@));
                        },
                        None => {
                            break;
                        },
                    }
                },
                Action::End => {
                    ended = true;
                    break;
                },
            }
            assert(event_views(events@) =~= seen.push(event_views(events@).last()));
        }
        Replay { events, ended }
    }
}

/// The elements among events that follow one another.
pub proof fn lemma_elements_of_both<T>(first: Seq<EventView<T>>, second: Seq<EventView<T>>)
    ensures
        elements_of(first + second) == elements_of(first) + elements_of(second),
    decreases first.len(),
{
    if first.len() == 0 {
        assert(first + second =~= second);
    } else {
        assert((first + second).drop_first() =~= first.drop_first() + second);
        lemma_elements_of_both(first.drop_first(), second);
    }
}

/// The requests among events that follow one another.
pub proof fn lemma_requests_of_both<T>(first: Seq<EventView<T>>, second: Seq<EventView<T>>)
    ensures
        requests_of(first + second) == requests_of(first) + requests_of(second),
    decreases first.len(),
{
    if first.len() == 0 {
        assert(first + second =~= second);
    } else {
        assert((first + second).drop_first() =~= first.drop_first() + second);
        lemma_requests_of_both(first.drop_first(), second);
    }
}

/// A request alone asks for its URL and produces nothing.
pub proof fn lemma_request_alone<T>(url: Seq<char>)
    ensures
        elements_of(seq![EventView::<T>::Request(url)]) == Seq::<Result<T, Error>>::empty(),
        requests_of(seq![EventView::<T>::Request(url)]) == seq![url],
{
    let alone = seq![EventView::<T>::Request(url)];
    assert(alone.drop_first() =~= Seq::<EventView<T>>::empty());
    assert(elements_of(alone.drop_first()) =~= Seq::<Result<T, Error>>::empty());
    assert(requests_of(alone.drop_first()) =~= Seq::<Seq<char>>::empty());
    assert(elements_of(alone) =~= Seq::<Result<T, Error>>::empty());
    assert(requests_of(alone) =~= seq![url]);
}

/// An element alone is produced and asks for nothing.
pub proof fn lemma_element_alone<T>(element: Result<T, Error>)
    ensures
        elements_of(seq![EventView::Element(element)]) == seq![element],
        requests_of(seq![EventView::Element(element)]) == Seq::<Seq<char>>::empty(),
{
    let alone = seq![EventView::Element(element)];
    assert(alone.drop_first() =~= Seq::<EventView<T>>::empty());
    assert(elements_of(alone.drop_first()) =~= Seq::<Result<T, Error>>::empty());
    assert(requests_of(alone.drop_first()) =~= Seq::<Seq<char>>::empty());
    assert(elements_of(alone) =~= seq![element]);
    assert(requests_of(alone) =~= Seq::<Seq<char>>::empty());
}

/// Yielding items produces them as elements and asks for nothing.
pub proof fn lemma_yields<T>(items: Seq<T>)
    ensures
        elements_of(yields(items)) == as_elements(items),
        requests_of(yields(items)) == Seq::<Seq<char>>::empty(),
    decreases items.len(),
{
    if items.len() > 0 {
        assert(yields(items).drop_first() =~= yields(items.drop_first()));
        lemma_yields(items.drop_first());
        assert(seq![Ok::<T, Error>(items[0])] + as_elements(items.drop_first()) =~= as_elements(
            items,
        ));
    }
}

/// On the way through pages that link one to the next, the items of the
/// pages are produced one page after the other, and each page is asked for
/// once: the first at `url`, each further one where the page before it
/// points.
pub proof fn lemma_walk<T>(url: Seq<char>, pages: Seq<Batch<T>>)
    requires
        linked(pages, pages.len() - 1),
    ensures
        elements_of(walk(url, pages)) == as_elements(items_of(pages)),
        requests_of(walk(url, pages)) == addresses(url, pages, pages.len()),
    decreases pages.len(),
{
    if pages.len() > 0 {
        let first = pages[0];
        let tail = pages.drop_first();
        let asked = seq![EventView::<T>::Request(url)];
        let onward = match first.next_url {
            Some(onward) => walk(onward, tail),
            None => Seq::empty(),
        };
        assert(walk(url, pages) == asked + yields(first.items) + onward);
        lemma_elements_of_both(asked + yields(first.items), onward);
        lemma_elements_of_both(asked, yields(first.items));
        lemma_requests_of_both(asked + yields(first.items), onward);
        lemma_requests_of_both(asked, yields(first.items));
        lemma_yields(first.items);
        lemma_request_alone::<T>(url);
        if pages.len() == 1 {
            assert(tail =~= Seq::<Batch<T>>::empty());
            assert(items_of(tail) =~= Seq::<T>::empty());
            assert(elements_of(onward) =~= Seq::<Result<T, Error>>::empty());
            assert(requests_of(onward) =~= Seq::<Seq<char>>::empty());
            assert(addresses(url, pages, 1) =~= seq![url]);
        } else {
            let next = first.next_url.unwrap();
            assert(linked(tail, tail.len() - 1)) by {
                assert forall|k: int| 0 <= k < tail.len() - 1 implies (#[trigger] tail[k]).next_url
                    is Some by {
                    assert(tail[k] == pages[k + 1]);
                }
            }
            lemma_walk(next, tail);
            assert(as_elements(first.items) + as_elements(items_of(tail)) =~= as_elements(
                items_of(pages),
            ));
            assert(seq![url] + addresses(next, tail, tail.len()) =~= addresses(
                url,
                pages,
                pages.len(),
            )) by {
                let left = seq![url] + addresses(next, tail, tail.len());
                let right = addresses(url, pages, pages.len());
                assert forall|k: int| 0 <= k < left.len() implies left[k] == right[k] by {
                    if k > 1 {
                        assert(tail[k - 2] == pages[k - 1]);
                    }
                }
            }
        }
    }
}

/// A cursor with items in its buffer yields them, the oldest first, before
/// anything else happens: before it asks for a page, and before it ends.
pub proof fn lemma_buffer_comes_first<T>(
    state: CursorView<T>,
    replies: Seq<Result<Batch<T>, Error>>,
)
    ensures
        state.drain(replies) == CursorView::<T>::holding(Seq::empty(), state.next_url).drain(
            replies,
        ).after(yields(state.buffered)),
    decreases state.buffered.len(),
{
    if state.buffered.len() == 0 {
        assert(state.buffered =~= Seq::<T>::empty());
    } else {
        let rest = CursorView::<T>::holding(state.buffered.drop_first(), state.next_url);
        lemma_buffer_comes_first(rest, replies);
        assert(seq![EventView::<T>::Element(Ok(state.buffered[0]))] + yields(rest.buffered)
            =~= yields(state.buffered));
    }
}

/// A cursor whose request is answered by a page goes on as a cursor that
/// holds the items of that page and its link.
pub proof fn lemma_page_is_taken_in<T>(
    url: Seq<char>,
    batch: Batch<T>,
    replies: Seq<Result<Batch<T>, Error>>,
)
    ensures
        CursorView::<T>::start(url).drain(seq![Ok(batch)] + replies) == CursorView::<T>::holding(
            batch.items,
            batch.next_url,
        ).drain(replies).after(seq![EventView::Request(url)]),
{
    assert((seq![Ok::<Batch<T>, Error>(batch)] + replies).drop_first() =~= replies);
}

/// Pages that link one to the next are fetched one after the other, each
/// when the items of the one before it have been yielded; what happens after
/// the last of them is up to its link and to the replies that remain.
pub proof fn lemma_pages_then_rest<T>(
    url: Seq<char>,
    pages: Seq<Batch<T>>,
    rest: Seq<Result<Batch<T>, Error>>,
)
    requires
        pages.len() >= 1,
        linked(pages, pages.len() - 1),
    ensures
        CursorView::<T>::start(url).drain(as_replies(pages) + rest) == CursorView::<T>::holding(
            Seq::empty(),
            pages.last().next_url,
        ).drain(rest).after(walk(url, pages)),
    decreases pages.len(),
{
    let first = pages[0];
    let tail = pages.drop_first();
    let later = as_replies(tail) + rest;
    let taken = CursorView::<T>::holding(first.items, first.next_url);
    let emptied = CursorView::<T>::holding(Seq::empty(), first.next_url);
    let asked = seq![EventView::<T>::Request(url)];
    assert(as_replies(pages) + rest =~= seq![Ok(first)] + later);
    lemma_page_is_taken_in(url, first, later);
    lemma_buffer_comes_first(taken, later);
    assert(CursorView::<T>::start(url).drain(as_replies(pages) + rest) == emptied.drain(
        later,
    ).after(yields(first.items)).after(asked));
    if pages.len() == 1 {
        assert(later =~= rest);
        if first.next_url is Some {
            assert(walk(first.next_url.unwrap(), tail) =~= Seq::<EventView<T>>::empty());
        }
        assert(walk(url, pages) =~= asked + yields(first.items));
    } else {
        let onward = first.next_url.unwrap();
        assert(linked(tail, tail.len() - 1)) by {
            assert forall|k: int| 0 <= k < tail.len() - 1 implies (#[trigger] tail[k]).next_url
                is Some by {
                assert(tail[k] == pages[k + 1]);
            }
        }
        lemma_pages_then_rest(onward, tail, rest);
        assert(tail.last() == pages.last());
        assert(walk(url, pages) == asked + yields(first.items) + walk(onward, tail));
    }
}

/// Buffer-then-fetch ordering. Where each page but the last links to the
/// next, and the last links to none, the consumer sees the first page asked
/// for at the initial URL and then its items, in their order; then the
/// second page asked for where the first one points, and its items; and so
/// on to the last page, after whose items the sequence ends, whatever else
/// the service would have answered. So the elements are the items of the
/// pages, one page after the other; one request is made for each page; and
/// no page is asked for before the items of the page before it are out.
pub proof fn lemma_pages_in_order<T>(
    url: Seq<char>,
    pages: Seq<Batch<T>>,
    rest: Seq<Result<Batch<T>, Error>>,
)
    requires
        pages.len() >= 1,
        linked(pages, pages.len() - 1),
        pages.last().next_url is None,
    ensures
        CursorView::<T>::start(url).drain(as_replies(pages) + rest) == (Trace {
            events: walk(url, pages),
            ended: true,
        }),
        CursorView::<T>::start(url).drain(as_replies(pages) + rest).elements() == as_elements(
            items_of(pages),
        ),
        CursorView::<T>::start(url).drain(as_replies(pages) + rest).requests() == addresses(
            url,
            pages,
            pages.len(),
        ),
{
    lemma_pages_then_rest(url, pages, rest);
    lemma_walk(url, pages);
    assert(CursorView::<T>::start(url).drain(as_replies(pages) + rest).events =~= walk(
        url,
        pages,
    ));
}

/// A page is asked for only when the buffer is empty, and asking changes
/// nothing: until the outcome is delivered the cursor asks for the same
/// page again.
pub proof fn lemma_fetch_only_when_drained<T>(state: CursorView<T>)
    ensures
        state.pull().1 is Fetch ==> state.buffered.len() == 0 && state.pull().0 == state,
        state.buffered.len() > 0 ==> state.pull().1 == ActionView::Yield(state.buffered[0]),
{
}

/// Idempotent exhaustion. A cursor in the terminal state answers every pull
/// with the end of the sequence and stays in that state, however often it
/// is pulled: it yields no item, raises no error and asks for no page.
pub proof fn lemma_exhaustion_is_final<T>(
    state: CursorView<T>,
    count: nat,
    replies: Seq<Result<Batch<T>, Error>>,
)
    requires
        state.is_exhausted(),
    ensures
        state.pull() == (state, ActionView::<T>::End),
        state.after_pulls(count) == state,
        state.drain(replies) == Trace::<T>::ended(),
    decreases count,
{
    if count > 0 {
        lemma_exhaustion_is_final(state, (count - 1) as nat, replies);
    }
}

/// Empty-page continuation. A page without items that links to a following
/// page does not end the sequence: the cursor asks for the following page.
pub proof fn lemma_empty_page_continues<T>(
    state: CursorView<T>,
    onward: Seq<char>,
    replies: Seq<Result<Batch<T>, Error>>,
)
    ensures
        state.deliver(Ok(Batch { items: Seq::empty(), next_url: Some(onward) })) == (
            CursorView::<T>::start(onward),
            ActionView::<T>::Fetch(onward),
        ),
        state.buffered.len() == 0 && state.next_url is Some ==> state.drain(
            seq![Ok(Batch { items: Seq::empty(), next_url: Some(onward) })] + replies,
        ) == CursorView::<T>::start(onward).drain(replies).after(
            seq![EventView::Request(state.next_url.unwrap())],
        ),
{
    if state.buffered.len() == 0 && state.next_url is Some {
        let batch = Batch::<T> { items: Seq::empty(), next_url: Some(onward) };
        assert(state.buffered =~= Seq::<T>::empty());
        lemma_page_is_taken_in(state.next_url.unwrap(), batch, replies);
    }
}

/// A cursor whose request fails hands on the error and ends.
pub proof fn lemma_failed_request<T>(
    url: Seq<char>,
    error: Error,
    rest: Seq<Result<Batch<T>, Error>>,
)
    ensures
        CursorView::<T>::start(url).drain(seq![Err(error)] + rest) == (Trace::<T> {
            events: seq![EventView::Request(url), EventView::Element(Err(error))],
            ended: true,
        }),
{
    let replies = seq![Err::<Batch<T>, Error>(error)] + rest;
    let start = CursorView::<T>::start(url);
    let done = CursorView::<T>::exhausted();
    let failed = seq![EventView::<T>::Element(Err(error))];
    assert(start.deliver(replies[0]) == (done, ActionView::<T>::Fail(error)));
    assert(done.run(ActionView::End, replies.drop_first()) == Trace::<T>::ended());
    assert(done.run(ActionView::Fail(error), replies.drop_first()) == Trace::<T>::ended().after(
        failed,
    ));
    assert(start.drain(replies).events =~= seq![
        EventView::Request(url),
        EventView::Element(Err(error)),
    ]);
}

/// Single-error termination. Where the pages link one to the next and the
/// request after them fails, the consumer sees the way through those pages,
/// then the failing request, then the error, once, and then the end of the
/// sequence. So the elements are the items of those pages and then the
/// error, and nothing of what the service would have answered afterwards
/// is asked for.
pub proof fn lemma_failure_ends<T>(
    url: Seq<char>,
    pages: Seq<Batch<T>>,
    error: Error,
    rest: Seq<Result<Batch<T>, Error>>,
)
    requires
        linked(pages, pages.len() as int),
    ensures
        CursorView::<T>::start(url).drain(as_replies(pages).push(Err(error)) + rest) == (Trace {
            events: walk(url, pages) + seq![
                EventView::Request(arrival(url, pages)),
                EventView::Element(Err(error)),
            ],
            ended: true,
        }),
        CursorView::<T>::start(url).drain(
            as_replies(pages).push(Err(error)) + rest,
        ).elements() == as_elements(items_of(pages)).push(Err(error)),
        CursorView::<T>::start(url).drain(
            as_replies(pages).push(Err(error)) + rest,
        ).requests() == addresses(url, pages, pages.len() + 1),
{
    let failing = seq![Err::<Batch<T>, Error>(error)] + rest;
    let replies = as_replies(pages).push(Err(error)) + rest;
    let onward = arrival(url, pages);
    let last = seq![EventView::<T>::Request(onward), EventView::Element(Err(error))];
    let trace = CursorView::<T>::start(url).drain(replies);
    lemma_failed_request(onward, error, rest);
    if pages.len() == 0 {
        assert(replies =~= failing);
    } else {
        assert(replies =~= as_replies(pages) + failing);
        lemma_pages_then_rest(url, pages, failing);
    }
    assert(trace.events =~= walk(url, pages) + last);
    lemma_walk(url, pages);
    lemma_elements_of_both(walk(url, pages), last);
    lemma_requests_of_both(walk(url, pages), last);
    assert(last =~= seq![EventView::<T>::Request(onward)] + seq![
        EventView::Element(Err(error)),
    ]);
    lemma_request_alone::<T>(onward);
    lemma_element_alone::<T>(Err(error));
    lemma_elements_of_both(
        seq![EventView::<T>::Request(onward)],
        seq![EventView::Element(Err(error))],
    );
    lemma_requests_of_both(
        seq![EventView::<T>::Request(onward)],
        seq![EventView::Element(Err(error))],
    );
    assert(trace.elements() =~= as_elements(items_of(pages)).push(Err(error)));
    assert(addresses(url, pages, pages.len()) + seq![onward] =~= addresses(
        url,
        pages,
        pages.len() + 1,
    ));
}

/// Links to the preceding page alone name no following page.
pub proof fn lemma_previous_links_lead_nowhere(links: Seq<PaginationLink>)
    requires
        forall|i: int| 0 <= i < links.len() ==> (#[trigger] links[i]) is Previous,
    ensures
        first_next(links) is None,
    decreases links.len(),
{
    if links.len() > 0 {
        assert forall|i: int| 0 <= i < links.drop_first().len() implies (
        #[trigger] links.drop_first()[i]) is Previous by {
            assert(links.drop_first()[i] == links[i + 1]);
        }
        lemma_previous_links_lead_nowhere(links.drop_first());
    }
}

/// A page that names no following page is the last one: the consumer sees
/// it asked for, gets its items, and then the end.
pub proof fn lemma_last_page_ends<T>(
    url: Seq<char>,
    batch: Batch<T>,
    rest: Seq<Result<Batch<T>, Error>>,
)
    requires
        batch.next_url is None,
    ensures
        CursorView::<T>::start(url).drain(seq![Ok(batch)] + rest) == (Trace {
            events: seq![EventView::Request(url)] + yields(batch.items),
            ended: true,
        }),
        CursorView::<T>::start(url).drain(seq![Ok(batch)] + rest).elements() == as_elements(
            batch.items,
        ),
        CursorView::<T>::start(url).drain(seq![Ok(batch)] + rest).requests() == seq![url],
{
    let pages = seq![batch];
    assert(as_replies(pages) =~= seq![Ok::<Batch<T>, Error>(batch)]);
    lemma_pages_in_order(url, pages, rest);
    assert(items_of(pages.drop_first()) =~= Seq::<T>::empty());
    assert(items_of(pages) =~= batch.items);
    assert(addresses(url, pages, 1) =~= seq![url]);
    assert(walk(url, pages) =~= seq![EventView::Request(url)] + yields(batch.items));
}

/// Link-tag discrimination. A page that links only to the one before it is
/// the last page: the consumer gets its items and then the end, whatever
/// the page says of its offset and of the size of the collection.
pub proof fn lemma_previous_link_is_no_continuation<T>(
    url: Seq<char>,
    page: Page<T>,
    rest: Seq<Result<Batch<T>, Error>>,
)
    requires
        forall|i: int|
            0 <= i < page.pagination.links@.len() ==> (
            #[trigger] page.pagination.links@[i]) is Previous,
    ensures
        page.next_target() is None,
        CursorView::<T>::start(url).drain(seq![Ok(page.batch())] + rest) == (Trace {
            events: seq![EventView::Request(url)] + yields(page.data@),
            ended: true,
        }),
        CursorView::<T>::start(url).drain(seq![Ok(page.batch())] + rest).elements()
            == as_elements(page.data@),
{
    lemma_previous_links_lead_nowhere(page.pagination.links@);
    lemma_last_page_ends(url, page.batch(), rest);
}

/// Graceful termination. A page whose link to the following page is no URL
/// is the last page as well: the consumer gets its items and then the end,
/// and no error.
pub proof fn lemma_broken_link_is_no_continuation<T>(
    url: Seq<char>,
    page: Page<T>,
    rest: Seq<Result<Batch<T>, Error>>,
)
    ensures
        first_next(page.pagination.links@) matches Some(uri) && parsed_url(uri) is None
            ==> CursorView::<T>::start(url).drain(seq![Ok(page.batch())] + rest) == (Trace {
            events: seq![EventView::Request(url)] + yields(page.data@),
            ended: true,
        }),
{
    if first_next(page.pagination.links@) matches Some(uri) && parsed_url(uri) is None {
        lemma_last_page_ends(url, page.batch(), rest);
    }
}

} // verus!
