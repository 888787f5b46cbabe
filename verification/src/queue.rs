//! The bounded first-in, first-out queue of speech requests.

use crate::error::{ErrorView, TtsError};
use crate::request::{request_views, RequestView, SpeechRequest};
use std::collections::VecDeque;
use vstd::prelude::*;

verus! {

/// How many requests the queue holds at most.
pub const QUEUE_CAPACITY: usize = 64;

/// What the queue holds: the waiting requests, oldest first, the number of
/// requests that have left it, and whether it is closed for good.
///
/// The ticket of a request is its position in the order of enqueueing: the
/// request at index `i` has the ticket `taken + i`.
pub struct QueueView {
    pub items: Seq<RequestView>,
    pub taken: u64,
    pub closed: bool,
}

impl QueueView {
    /// An open queue that nothing has entered.
    pub open spec fn empty() -> QueueView {
        QueueView { items: Seq::empty(), taken: 0, closed: false }
    }

    /// The queue is within its capacity and every waiting request has a
    /// ticket.
    pub open spec fn wf(self) -> bool {
        &&& self.items.len() <= QUEUE_CAPACITY
        &&& self.taken + self.items.len() <= u64::MAX
    }

    /// Whether no ticket is left for another request.
    pub open spec fn exhausted(self) -> bool {
        self.taken + self.items.len() >= u64::MAX
    }

    /// Whether the queue is at its capacity.
    pub open spec fn full(self) -> bool {
        self.items.len() >= QUEUE_CAPACITY
    }

    /// The answer to a request to enqueue: the queue is closed, or full, or
    /// it accepts.
    pub open spec fn admission(self) -> Result<(), ErrorView> {
        if self.closed || self.exhausted() {
            Err(ErrorView::QueueClosed)
        } else if self.full() {
            Err(ErrorView::QueueFull)
        } else {
            Ok(())
        }
    }

    /// The queue after an attempt to enqueue `request`: the request is last
    /// in line if the queue accepts, and nothing has changed if it does not.
    pub open spec fn enqueued(self, request: RequestView) -> QueueView {
        if self.admission() is Ok {
            QueueView { items: self.items.push(request), ..self }
        } else {
            self
        }
    }

    /// The queue after its oldest request has left.
    pub open spec fn dequeued(self) -> QueueView {
        if self.items.len() > 0 {
            QueueView { items: self.items.drop_first(), taken: (self.taken + 1) as u64, ..self }
        } else {
            self
        }
    }

    /// The queue after every waiting request has been dropped.
    pub open spec fn discarded(self) -> QueueView {
        QueueView {
            items: Seq::empty(),
            taken: (self.taken + self.items.len()) as u64,
            ..self
        }
    }

    /// The queue, closed for good.
    pub open spec fn shut(self) -> QueueView {
        QueueView { closed: true, ..self }
    }
}

/// The bounded queue between the callers and the generation worker.
pub struct GenerationQueue {
    items: VecDeque<SpeechRequest>,
    taken: u64,
    closed: bool,
}

impl View for GenerationQueue {
    type V = QueueView;

    closed spec fn view(&self) -> QueueView {
        QueueView { items: request_views(self.items@), taken: self.taken, closed: self.closed }
    }
}

impl GenerationQueue {
    /// An open, empty queue.
    pub fn new() -> (queue: Self)
        ensures
            queue@ == QueueView::empty(),
            queue@.wf(),
    {
        let queue = GenerationQueue { items: VecDeque::new(), taken: 0, closed: false };
        assert(queue@.items =~= Seq::<RequestView>::empty());
        queue
    }

    /// The number of waiting requests.
    pub fn len(&self) -> (n: usize)
        ensures
            n == self@.items.len(),
    {
        self.items.len()
    }

    /// Whether the queue is closed for good.
    pub fn is_closed(&self) -> (closed: bool)
        ensures
            closed == self@.closed,
    {
        self.closed
    }

    /// The ticket that the next request to leave the queue has.
    pub fn next_ticket(&self) -> (ticket: u64)
        ensures
            ticket == self@.taken,
    {
        self.taken
    }

    /// Appends `request`. A closed queue answers `QueueClosed`; a full one
    /// answers `QueueFull`, and the caller waits until there is room. No
    /// request is dropped or overtaken.
    pub fn enqueue(&mut self, request: SpeechRequest) -> (accepted: Result<(), TtsError>)
        requires
            old(self)@.wf(),
        ensures
            final(self)@.wf(),
            final(self)@ == old(self)@.enqueued(request@),
            accepted is Ok <==> old(self)@.admission() is Ok,
            accepted matches Err(error) ==> old(self)@.admission() == Err::<(), ErrorView>(
                error@,
            ),
    {
        if self.closed || self.items.len() as u64 >= u64::MAX - self.taken {
            Err(TtsError::QueueClosed)
        } else if self.items.len() >= QUEUE_CAPACITY {
            Err(TtsError::QueueFull)
        } else {
            self.items.push_back(request);
            assert(self@.items =~= old(self)@.items.push(request@));
            Ok(())
        }
    }

    /// Takes the oldest request out, with its ticket.
    pub fn dequeue(&mut self) -> (oldest: Option<(u64, SpeechRequest)>)
        requires
            old(self)@.wf(),
        ensures
            final(self)@.wf(),
            final(self)@ == old(self)@.dequeued(),
            oldest is Some <==> old(self)@.items.len() > 0,
            oldest matches Some(taken) ==> taken.0 == old(self)@.taken && taken.1@ == old(
                self,
            )@.items[0],
    {
        match self.items.pop_front() {
            Some(request) => {
                let ticket = self.taken;
                self.taken = self.taken + 1;
                assert(self@.items =~= old(self)@.items.drop_first());
                Some((ticket, request))
            },
            None => None,
        }
    }

    /// Drops every waiting request and hands them out, oldest first.
    pub fn discard_all(&mut self) -> (dropped: Vec<SpeechRequest>)
        requires
            old(self)@.wf(),
        ensures
            final(self)@.wf(),
            final(self)@ == old(self)@.discarded(),
            request_views(dropped@) == old(self)@.items,
    {
        let mut dropped: Vec<SpeechRequest> = Vec::new();
        while self.items.len() > 0
            invariant
                self@.wf(),
                self@.closed == old(self)@.closed,
                self@.taken + self@.items.len() == old(self)@.taken + old(self)@.items.len(),
                request_views(dropped@) + self@.items == old(self)@.items,
            decreases self@.items.len(),
        {
            let ghost before = self@;
            let ghost dropped_before = request_views(dropped@);
            match self.items.pop_front() {
                Some(request) => {
                    self.taken = self.taken + 1;
                    dropped.push(request);
                    assert(self@.items =~= before.items.drop_first());
                    assert(request_views(dropped@) =~= dropped_before.push(before.items[0]));
                    assert(request_views(dropped@) + self@.items =~= dropped_before
                        + before.items);
                },
                None => {},
            }
        }
        assert(self@.items =~= Seq::<RequestView>::empty());
        assert(request_views(dropped@) =~= request_views(dropped@) + self@.items);
        dropped
    }

    /// Closes the queue for good. What waits in it stays until it is taken
    /// or discarded.
    pub fn close(&mut self)
        ensures
            final(self)@ == old(self)@.shut(),
    {
        self.closed = true;
    }
}

} // verus!
