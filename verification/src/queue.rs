//! The playback queue: sounds are played one at a time, in the order in
//! which they were asked for.
//!
//! The worker that owns the queue asks for the next request, plays it to
//! the end (or skips it when no output can be opened), and reports that it
//! is done before it asks again.

use crate::config::Level;
use vstd::prelude::*;

verus! {

/// One sound to play: the decoded sound and the volume.
#[derive(Debug)]
pub struct PlayRequest<S> {
    pub samples: S,
    pub volume: Level,
}

/// Mathematical form of a [`PlayQueue`].
pub struct PlayQueueView<S> {
    /// Requests that have not started, oldest first.
    pub waiting: Seq<PlayRequest<S>>,
    /// A request has started and has not ended.
    pub playing: bool,
}

/// The requests that wait for playback, and whether one is being played.
pub struct PlayQueue<S> {
    waiting: Vec<PlayRequest<S>>,
    playing: bool,
}

/// The queue after a request was added: it waits behind all earlier ones.
pub open spec fn after_send<S>(queue: PlayQueueView<S>, request: PlayRequest<S>) -> PlayQueueView<S> {
    PlayQueueView { waiting: queue.waiting.push(request), playing: queue.playing }
}

/// The request that may start now: the oldest one, and only while nothing is playing.
pub open spec fn startable<S>(queue: PlayQueueView<S>) -> Option<PlayRequest<S>> {
    if !queue.playing && queue.waiting.len() > 0 {
        Some(queue.waiting[0])
    } else {
        None
    }
}

/// The queue after the worker asked for the next request.
pub open spec fn after_next<S>(queue: PlayQueueView<S>) -> PlayQueueView<S> {
    if startable(queue) is Some {
        PlayQueueView { waiting: queue.waiting.skip(1), playing: true }
    } else {
        queue
    }
}

/// The queue after the worker reported the end of a playback.
pub open spec fn after_finished<S>(queue: PlayQueueView<S>) -> PlayQueueView<S> {
    PlayQueueView { waiting: queue.waiting, playing: false }
}

impl<S> View for PlayQueue<S> {
    type V = PlayQueueView<S>;

    closed spec fn view(&self) -> PlayQueueView<S> {
        PlayQueueView { waiting: self.waiting@, playing: self.playing }
    }
}

impl<S> PlayQueue<S> {
    /// An empty queue with nothing playing.
    pub fn new() -> (queue: Self)
        ensures
            queue@.waiting == Seq::<PlayRequest<S>>::empty(),
            !queue@.playing,
    {
        PlayQueue { waiting: Vec::new(), playing: false }
    }

    /// Number of requests that have not started.
    pub fn waiting_len(&self) -> (len: usize)
        ensures
            len == self@.waiting.len(),
    {
        self.waiting.len()
    }

    /// Whether a request has started and has not ended.
    pub fn is_playing(&self) -> (playing: bool)
        ensures
            playing == self@.playing,
    {
        self.playing
    }

    /// Adds a request behind all waiting ones. The queue has no bound.
    pub fn send_samples(&mut self, samples: S, volume: Level)
        ensures
            final(self)@ == after_send(old(self)@, PlayRequest { samples, volume }),
    {
        self.waiting.push(PlayRequest { samples, volume });
    }

    /// Hands out the request to play next, if one may start: the oldest
    /// waiting one, and none while another is being played.
    pub fn next(&mut self) -> (request: Option<PlayRequest<S>>)
        ensures
            request == startable(old(self)@),
            final(self)@ == after_next(old(self)@),
    {
        if self.playing || self.waiting.len() == 0 {
            return None;
        }
        let request = self.waiting.remove(0);
        self.playing = true;
        assert(self.waiting@ =~= old(self)@.waiting.skip(1));
        Some(request)
    }

    /// Records that the playback that was handed out has ended, or was
    /// skipped because no output could be opened.
    pub fn finished(&mut self)
        ensures
            final(self)@ == after_finished(old(self)@),
    {
        self.playing = false;
    }
}

/// While a request is being played none starts, however many are waiting.
pub proof fn nothing_starts_during_playback<S>(queue: PlayQueueView<S>)
    requires
        queue.playing,
    ensures
        startable(queue) is None,
        after_next(queue) == queue,
{
}

/// Two requests sent one after the other are played one after the other:
/// the first starts first, the second does not start before the first has
/// ended, and then the second starts.
pub proof fn second_waits_for_first<S>(first: PlayRequest<S>, second: PlayRequest<S>)
    ensures
        ({
            let idle = PlayQueueView::<S> { waiting: Seq::empty(), playing: false };
            let sent = after_send(after_send(idle, first), second);
            let started = after_next(sent);
            &&& startable(sent) == Some(first)
            &&& startable(started) is None
            &&& startable(after_finished(started)) == Some(second)
        }),
{
    let idle = PlayQueueView::<S> { waiting: Seq::empty(), playing: false };
    let sent = after_send(after_send(idle, first), second);
    assert(sent.waiting[0] == first);
    assert(sent.waiting.skip(1)[0] == second);
}

/// Sending never changes the order of what already waits: a request sent
/// later starts after every request that waited before it.
pub proof fn sending_keeps_order<S>(queue: PlayQueueView<S>, request: PlayRequest<S>)
    ensures
        after_send(queue, request).waiting.len() == queue.waiting.len() + 1,
        after_send(queue, request).waiting.last() == request,
        forall|i: int|
            0 <= i < queue.waiting.len() ==> #[trigger] after_send(queue, request).waiting[i]
                == queue.waiting[i],
{
}

} // verus!
