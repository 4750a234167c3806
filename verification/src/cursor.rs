//! The paginated sequence engine: a cursor over a collection that the
//! service hands out page by page.
//!
//! The cursor never performs a request. Pulling it yields the next item, or
//! the URL of the page that has to be fetched first; the caller fetches the
//! page and delivers the outcome, on which the cursor goes on.

use crate::error::Error;
use crate::page::{url_view, Page};
use std::collections::VecDeque;
use vstd::prelude::*;

verus! {

/// The state of a sequence: the items of the current page that have not been
/// yielded yet, and the URL of the page that follows.
#[derive(Debug)]
pub struct Cursor<T> {
    buffered: VecDeque<T>,
    next_url: Option<String>,
}

/// What a cursor holds, as mathematical values.
pub struct CursorView<T> {
    /// The items fetched and not yet yielded, the next one first.
    pub buffered: Seq<T>,
    /// The URL of the page to fetch once the buffer is empty.
    pub next_url: Option<Seq<char>>,
}

/// What the cursor hands to its caller.
#[derive(Debug, PartialEq, Eq)]
pub enum Action<T> {
    /// The next item of the sequence.
    Yield(T),
    /// The sequence fails with this error, which is its last element.
    Fail(Error),
    /// The page at this URL is needed: fetch it and deliver the outcome.
    Fetch(String),
    /// The sequence has ended.
    End,
}

/// An action, with its URL as a sequence of characters.
pub enum ActionView<T> {
    Yield(T),
    Fail(Error),
    Fetch(Seq<char>),
    End,
}

/// A page as the cursor takes it in: its items, and the URL that its link
/// to the following page resolved to.
pub struct Batch<T> {
    pub items: Seq<T>,
    pub next_url: Option<Seq<char>>,
}

impl<T> View for Cursor<T> {
    type V = CursorView<T>;

    closed spec fn view(&self) -> CursorView<T> {
        CursorView { buffered: self.buffered@, next_url: url_view(self.next_url) }
    }
}

impl<T> View for Action<T> {
    type V = ActionView<T>;

    open spec fn view(&self) -> ActionView<T> {
        match *self {
            Action::Yield(item) => ActionView::Yield(item),
            Action::Fail(error) => ActionView::Fail(error),
            Action::Fetch(url) => ActionView::Fetch(url@),
            Action::End => ActionView::End,
        }
    }
}

impl<T> Page<T> {
    /// The page as a cursor takes it in.
    pub open spec fn batch(self) -> Batch<T> {
        Batch { items: self.data@, next_url: self.next_target() }
    }
}

/// The outcome of a page request as a cursor takes it in.
pub open spec fn outcome_view<T>(outcome: Result<Page<T>, Error>) -> Result<Batch<T>, Error> {
    match outcome {
        Ok(page) => Ok(page.batch()),
        Err(error) => Err(error),
    }
}

impl<T> CursorView<T> {
    /// The state before anything was fetched: nothing buffered, and the
    /// first page at `url`.
    pub open spec fn start(url: Seq<char>) -> Self {
        CursorView { buffered: Seq::empty(), next_url: Some(url) }
    }

    /// The state with the given items in the buffer and the given URL to go
    /// on with.
    pub open spec fn holding(buffered: Seq<T>, next_url: Option<Seq<char>>) -> Self {
        CursorView { buffered, next_url }
    }

    /// The terminal state: nothing buffered and no page to go on with.
    pub open spec fn exhausted() -> Self {
        CursorView { buffered: Seq::empty(), next_url: None }
    }

    /// Whether this is the terminal state.
    pub open spec fn is_exhausted(self) -> bool {
        self.buffered.len() == 0 && self.next_url is None
    }

    /// One pull: the front of the buffer if there is one; else a request
    /// for the following page if there is one; else the end.
    pub open spec fn pull(self) -> (Self, ActionView<T>) {
        if self.buffered.len() > 0 {
            (
                CursorView { buffered: self.buffered.drop_first(), next_url: self.next_url },
                ActionView::Yield(self.buffered[0]),
            )
        } else {
            match self.next_url {
                Some(url) => (self, ActionView::Fetch(url)),
                None => (self, ActionView::End),
            }
        }
    }

    /// A page arrived: its items replace the buffer, its link replaces the
    /// URL, and the cursor is pulled at once.
    pub open spec fn advance(self, batch: Batch<T>) -> (Self, ActionView<T>) {
        Self::holding(batch.items, batch.next_url).pull()
    }

    /// A page request failed: the error is handed on and the cursor is
    /// exhausted.
    pub open spec fn fail(self, error: Error) -> (Self, ActionView<T>) {
        (Self::exhausted(), ActionView::Fail(error))
    }

    /// The outcome of a page request arrived.
    pub open spec fn deliver(self, outcome: Result<Batch<T>, Error>) -> (Self, ActionView<T>) {
        match outcome {
            Ok(batch) => self.advance(batch),
            Err(error) => self.fail(error),
        }
    }
}

/// Moves the items of a vector into a queue, keeping their order.
pub(crate) fn into_queue<T>(items: Vec<T>) -> (queue: VecDeque<T>)
    ensures
        queue@ == items@,
{
    let ghost all = items@;
    let mut items = items;
    let mut queue: VecDeque<T> = VecDeque::new();
    while items.len() > 0
        invariant
            items@ + queue@ == all,
        decreases items.len(),
    {
        let item = items.pop().unwrap();
        queue.push_front(item);
    }
    queue
}

impl<T> Cursor<T> {
    /// A cursor at the start of the collection whose first page is at `url`.
    pub fn new(url: String) -> (cursor: Self)
        ensures
            cursor@ == CursorView::<T>::start(url@),
    {
        Cursor { buffered: VecDeque::new(), next_url: Some(url) }
    }

    /// Whether the sequence has ended: nothing is buffered and no page
    /// follows.
    pub fn is_exhausted(&self) -> (r: bool)
        ensures
            r == self@.is_exhausted(),
    {
        self.buffered.len() == 0 && self.next_url.is_none()
    }

    /// How many fetched items wait to be yielded.
    pub fn buffered_len(&self) -> (r: usize)
        ensures
            r == self@.buffered.len(),
    {
        self.buffered.len()
    }

    /// The URL of the page that will be asked for once the buffer is empty.
    pub fn next_url(&self) -> (r: Option<&str>)
        ensures
            match r {
                Some(url) => self@.next_url == Some(url@),
                None => self@.next_url is None,
            },
    {
        match &self.next_url {
            Some(url) => Some(url.as_str()),
            None => None,
        }
    }

    /// Asks for the next element of the sequence.
    ///
    /// A buffered item is yielded, the oldest first. With an empty buffer
    /// the cursor asks for the following page, and leaves its state as it
    /// is until the outcome is delivered. With no page left the sequence has
    /// ended, and stays so.
    pub fn pull(&mut self) -> (action: Action<T>)
        ensures
            (final(self)@, action@) == old(self)@.pull(),
    {
        match self.buffered.pop_front() {
            Some(item) => {
                Action::Yield(item)
            },
            None => match &self.next_url {
                Some(url) => Action::Fetch(url.clone()),
                None => Action::End,
            },
        }
    }

    /// Takes in a page whose link has been resolved already, and goes on:
    /// with the first item of the page, with a request for the page after
    /// it where this one is empty, or with the end.
    pub fn advance(&mut self, items: Vec<T>, next_url: Option<String>) -> (action: Action<T>)
        ensures
            (final(self)@, action@) == old(self)@.advance(
                Batch { items: items@, next_url: url_view(next_url) },
            ),
    {
        self.buffered = into_queue(items);
        self.next_url = next_url;
        self.pull()
    }

    /// Takes in the failure of a page request: the error is the last element
    /// of the sequence.
    pub fn fail(&mut self, error: Error) -> (action: Action<T>)
        ensures
            (final(self)@, action@) == old(self)@.fail(error),
    {
        self.buffered = VecDeque::new();
        self.next_url = None;
        Action::Fail(error)
    }

    /// Takes in the outcome of the page request that the cursor asked for.
    ///
    /// The link of a page to its successor is resolved with the url crate;
    /// a link that is no URL ends the sequence after this page.
    pub fn deliver(&mut self, outcome: Result<Page<T>, Error>) -> (action: Action<T>)
        ensures
            (final(self)@, action@) == old(self)@.deliver(outcome_view(outcome)),
    {
        match outcome {
            Ok(page) => {
                let next_url = page.next_url();
                self.advance(page.data, next_url)
            },
            Err(error) => self.fail(error),
        }
    }
}

} // verus!
