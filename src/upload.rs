use vstd::prelude::*;

verus! {

/// What one poll of an [`UploadProgressAdapter`] hands back.
pub enum UploadPoll<S, E> {
    /// The most recent progress snapshot; the sequence goes on.
    Progress(S),
    /// The error that ended the upload; it is the last element.
    Failed(E),
    /// The sequence has ended and yields nothing more.
    Exhausted,
    /// Nothing to deliver yet: the consumer waits to be woken.
    NotReady,
}

impl<S, E> UploadPoll<S, E> {
    /// A terminal result: the end of the sequence or its trailing error.
    pub open spec fn is_terminal(self) -> bool {
        self is Failed || self is Exhausted
    }
}

/// An input to the adapter: a callback of the upload task, a poll by the
/// consumer with its resumption handle, or the consumer letting go.
pub enum AdapterEvent<S, E, W> {
    Progress(S),
    Error(E),
    Complete,
    Poll(W),
    Detach,
}

/// The state that the upload task's callbacks and the consumer share.
pub struct AdapterModel<S, E, W> {
    /// At most one snapshot that the consumer has not taken yet.
    pub pending_snapshot: Option<S>,
    /// The terminal error, until the consumer takes it.
    pub pending_error: Option<E>,
    /// Set by the error or the completion callback, never cleared.
    pub completed: bool,
    /// The resumption handle of the most recent poll.
    pub waker: Option<W>,
    /// Whether the callbacks are still registered with the upload task.
    pub subscribed: bool,
    /// Set once a poll has returned a terminal result, never cleared.
    pub finished: bool,
}

impl<S, E, W> AdapterModel<S, E, W> {
    /// The state right after the callbacks were registered.
    pub open spec fn initial() -> Self {
        AdapterModel {
            pending_snapshot: None,
            pending_error: None,
            completed: false,
            waker: None,
            subscribed: true,
            finished: false,
        }
    }

    /// A buffered error, and the end of the sequence, only ever come once
    /// the upload has ended.
    pub open spec fn wf(self) -> bool {
        &&& self.pending_error is Some ==> self.completed
        &&& self.finished ==> self.completed
    }

    /// A progress callback: the newest snapshot replaces any unconsumed one.
    pub open spec fn on_progress(self, s: S) -> Self {
        AdapterModel { pending_snapshot: Some(s), ..self }
    }

    /// The error callback: buffers the error and ends the upload.
    pub open spec fn on_error(self, e: E) -> Self {
        AdapterModel { pending_error: Some(e), completed: true, ..self }
    }

    /// The completion callback: ends the upload.
    pub open spec fn on_complete(self) -> Self {
        AdapterModel { completed: true, ..self }
    }

    /// Whether a callback must wake the consumer: it has polled before.
    pub open spec fn wakes(self) -> bool {
        self.waker is Some
    }

    /// What a poll in this state returns: the end of the sequence once a
    /// terminal result was returned; else the error that ended the upload,
    /// ahead of anything else; else the buffered snapshot; else the end of
    /// the sequence once the upload has ended, or nothing yet.
    pub open spec fn poll_result(self) -> UploadPoll<S, E> {
        if self.finished {
            UploadPoll::Exhausted
        } else if self.completed && self.pending_error is Some {
            UploadPoll::Failed(self.pending_error->0)
        } else if self.pending_snapshot is Some {
            UploadPoll::Progress(self.pending_snapshot->0)
        } else if self.completed {
            UploadPoll::Exhausted
        } else {
            UploadPoll::NotReady
        }
    }

    /// The state after a poll with resumption handle `w`: the handle is
    /// recorded, what was returned is taken out of its slot, and a terminal
    /// result marks the sequence as finished.
    pub open spec fn after_poll(self, w: W) -> Self {
        if self.finished {
            AdapterModel { waker: Some(w), ..self }
        } else if self.completed && self.pending_error is Some {
            AdapterModel { pending_error: None, finished: true, waker: Some(w), ..self }
        } else if self.pending_snapshot is Some {
            AdapterModel { pending_snapshot: None, waker: Some(w), ..self }
        } else if self.completed {
            AdapterModel { finished: true, waker: Some(w), ..self }
        } else {
            AdapterModel { waker: Some(w), ..self }
        }
    }

    /// The state after the consumer let go: the callbacks are released.
    pub open spec fn detached(self) -> Self {
        AdapterModel { subscribed: false, ..self }
    }

    /// The state after one event.
    pub open spec fn step(self, ev: AdapterEvent<S, E, W>) -> Self {
        match ev {
            AdapterEvent::Progress(s) => self.on_progress(s),
            AdapterEvent::Error(e) => self.on_error(e),
            AdapterEvent::Complete => self.on_complete(),
            AdapterEvent::Poll(w) => self.after_poll(w),
            AdapterEvent::Detach => self.detached(),
        }
    }

    /// The state after a sequence of events, in order.
    pub open spec fn run(self, events: Seq<AdapterEvent<S, E, W>>) -> Self
        decreases events.len(),
    {
        if events.len() == 0 {
            self
        } else {
            self.step(events[0]).run(events.drop_first())
        }
    }

    /// What the polls among `events` return, in order.
    pub open spec fn poll_outputs(self, events: Seq<AdapterEvent<S, E, W>>) -> Seq<UploadPoll<S, E>>
        decreases events.len(),
    {
        if events.len() == 0 {
            Seq::empty()
        } else {
            let rest = self.step(events[0]).poll_outputs(events.drop_first());
            match events[0] {
                AdapterEvent::Poll(_) => seq![self.poll_result()] + rest,
                _ => rest,
            }
        }
    }

    /// How many times the upload task's unsubscribe operation is invoked
    /// while `events` are handled: once for each detach that finds the
    /// callbacks registered.
    pub open spec fn unsubscribe_count(self, events: Seq<AdapterEvent<S, E, W>>) -> nat
        decreases events.len(),
    {
        if events.len() == 0 {
            0
        } else {
            let here: nat = if events[0] is Detach && self.subscribed {
                1
            } else {
                0
            };
            here + self.step(events[0]).unsubscribe_count(events.drop_first())
        }
    }
}

/// The progress callbacks for a sequence of snapshots, in order.
pub open spec fn progress_events<S, E, W>(ss: Seq<S>) -> Seq<AdapterEvent<S, E, W>> {
    ss.map_values(|s: S| AdapterEvent::Progress(s))
}

/// Turns an upload task's three callbacks (progress, error, completion) into
/// a pull-based sequence of progress snapshots that ends either silently or
/// with one error.
///
/// Snapshots are held in a single slot: one that arrives before the consumer
/// took the previous one replaces it. An error is checked before the slot, so
/// it is never lost behind a stale snapshot; after a clean completion the
/// last buffered snapshot is still delivered, then the sequence ends. Once a
/// poll has returned the end or the error, every later poll returns the end,
/// whatever callbacks still arrive.
pub struct UploadProgressAdapter<S, E, W> {
    pending_snapshot: Option<S>,
    pending_error: Option<E>,
    completed: bool,
    waker: Option<W>,
    subscribed: bool,
    finished: bool,
}

impl<S, E, W> View for UploadProgressAdapter<S, E, W> {
    type V = AdapterModel<S, E, W>;

    closed spec fn view(&self) -> AdapterModel<S, E, W> {
        AdapterModel {
            pending_snapshot: self.pending_snapshot,
            pending_error: self.pending_error,
            completed: self.completed,
            waker: self.waker,
            subscribed: self.subscribed,
            finished: self.finished,
        }
    }
}

impl<S, E, W> UploadProgressAdapter<S, E, W> {
    /// An adapter whose callbacks have just been registered.
    pub fn new() -> (r: Self)
        ensures
            r@ == AdapterModel::<S, E, W>::initial(),
            r@.wf(),
    {
        UploadProgressAdapter {
            pending_snapshot: None,
            pending_error: None,
            completed: false,
            waker: None,
            subscribed: true,
            finished: false,
        }
    }

    /// The progress callback. Returns whether the consumer must be woken.
    pub fn on_progress(&mut self, snapshot: S) -> (wake: bool)
        ensures
            final(self)@ == old(self)@.on_progress(snapshot),
            old(self)@.wf() ==> final(self)@.wf(),
            wake == old(self)@.wakes(),
    {
        self.pending_snapshot = Some(snapshot);
        self.waker.is_some()
    }

    /// The error callback. Returns whether the consumer must be woken.
    pub fn on_error(&mut self, err: E) -> (wake: bool)
        ensures
            final(self)@ == old(self)@.on_error(err),
            old(self)@.wf() ==> final(self)@.wf(),
            wake == old(self)@.wakes(),
    {
        self.pending_error = Some(err);
        self.completed = true;
        self.waker.is_some()
    }

    /// The completion callback. Returns whether the consumer must be woken.
    pub fn on_complete(&mut self) -> (wake: bool)
        ensures
            final(self)@ == old(self)@.on_complete(),
            old(self)@.wf() ==> final(self)@.wf(),
            wake == old(self)@.wakes(),
    {
        self.completed = true;
        self.waker.is_some()
    }

    /// One poll by the consumer, whose resumption handle is `waker`.
    pub fn poll(&mut self, waker: W) -> (r: UploadPoll<S, E>)
        ensures
            r == old(self)@.poll_result(),
            final(self)@ == old(self)@.after_poll(waker),
            old(self)@.wf() ==> final(self)@.wf(),
    {
        self.waker = Some(waker);
        if self.finished {
            UploadPoll::Exhausted
        } else if self.completed && self.pending_error.is_some() {
            self.finished = true;
            UploadPoll::Failed(self.pending_error.take().unwrap())
        } else {
            match self.pending_snapshot.take() {
                Some(s) => UploadPoll::Progress(s),
                None => {
                    if self.completed {
                        self.finished = true;
                        UploadPoll::Exhausted
                    } else {
                        UploadPoll::NotReady
                    }
                },
            }
        }
    }

    /// The resumption handle that a callback wakes, if the consumer has
    /// polled.
    pub fn waker(&self) -> (r: Option<&W>)
        ensures
            match r {
                Some(w) => self@.waker == Some(*w),
                None => self@.waker is None,
            },
    {
        self.waker.as_ref()
    }

    /// The consumer lets go. Returns whether the upload task's unsubscribe
    /// operation must be invoked now: true the first time only.
    pub fn release(&mut self) -> (unsubscribe: bool)
        ensures
            unsubscribe == old(self)@.subscribed,
            final(self)@ == old(self)@.detached(),
            old(self)@.wf() ==> final(self)@.wf(),
    {
        let unsubscribe = self.subscribed;
        self.subscribed = false;
        unsubscribe
    }
}

proof fn lemma_progress_run<S, E, W>(m: AdapterModel<S, E, W>, ss: Seq<S>)
    ensures
        m.run(progress_events::<S, E, W>(ss)) == (if ss.len() == 0 {
            m
        } else {
            m.on_progress(ss.last())
        }),
    decreases ss.len(),
{
    let evs = progress_events::<S, E, W>(ss);
    if ss.len() > 0 {
        assert(evs[0] == AdapterEvent::<S, E, W>::Progress(ss[0]));
        assert(evs.drop_first() =~= progress_events::<S, E, W>(ss.drop_first()));
        lemma_progress_run(m.on_progress(ss[0]), ss.drop_first());
    }
}

proof fn lemma_count_concat<S, E, W>(
    m: AdapterModel<S, E, W>,
    a: Seq<AdapterEvent<S, E, W>>,
    b: Seq<AdapterEvent<S, E, W>>,
)
    ensures
        m.unsubscribe_count(a + b) == m.unsubscribe_count(a) + m.run(a).unsubscribe_count(b),
    decreases a.len(),
{
    if a.len() > 0 {
        assert((a + b)[0] == a[0]);
        assert((a + b).drop_first() =~= a.drop_first() + b);
        lemma_count_concat(m.step(a[0]), a.drop_first(), b);
    } else {
        assert(a + b =~= b);
    }
}

proof fn lemma_no_detach<S, E, W>(m: AdapterModel<S, E, W>, a: Seq<AdapterEvent<S, E, W>>)
    requires
        forall|i: int| 0 <= i < a.len() ==> !(a[i] is Detach),
    ensures
        m.unsubscribe_count(a) == 0,
        m.run(a).subscribed == m.subscribed,
    decreases a.len(),
{
    if a.len() > 0 {
        assert(!(a[0] is Detach));
        lemma_no_detach(m.step(a[0]), a.drop_first());
    }
}

proof fn lemma_unsubscribed_stays<S, E, W>(m: AdapterModel<S, E, W>, a: Seq<AdapterEvent<S, E, W>>)
    requires
        !m.subscribed,
    ensures
        m.unsubscribe_count(a) == 0,
    decreases a.len(),
{
    if a.len() > 0 {
        lemma_unsubscribed_stays(m.step(a[0]), a.drop_first());
    }
}

proof fn lemma_exhausted_stays<S, E, W>(m: AdapterModel<S, E, W>, a: Seq<AdapterEvent<S, E, W>>)
    requires
        m.finished,
    ensures
        forall|i: int|
            0 <= i < m.poll_outputs(a).len() ==> #[trigger] m.poll_outputs(a)[i]
                == UploadPoll::<S, E>::Exhausted,
    decreases a.len(),
{
    if a.len() > 0 {
        lemma_exhausted_stays(m.step(a[0]), a.drop_first());
    }
}

/// When several snapshots arrive before the consumer polls, the adapter holds
/// the newest one only, and the next poll returns exactly that one.
pub proof fn lemma_newest_snapshot_wins<S, E, W>(ss: Seq<S>, w: W)
    requires
        ss.len() > 0,
    ensures
        ({
            let m = AdapterModel::<S, E, W>::initial().run(progress_events(ss));
            &&& m.pending_snapshot == Some(ss.last())
            &&& m.poll_result() == UploadPoll::<S, E>::Progress(ss.last())
            &&& m.after_poll(w).pending_snapshot is None
        }),
{
    lemma_progress_run(AdapterModel::<S, E, W>::initial(), ss);
}

/// When the error callback ends the upload, the next poll returns that error,
/// never a snapshot, whether one was buffered before the error or arrived
/// after it.
pub proof fn lemma_error_takes_precedence<S, E, W>(m: AdapterModel<S, E, W>, e: E, later: Seq<S>)
    requires
        m.wf(),
        !m.completed,
    ensures
        m.on_error(e).run(progress_events(later)).poll_result() == UploadPoll::<S, E>::Failed(e),
{
    lemma_progress_run(m.on_error(e), later);
}

/// From construction, through any callbacks and polls, up to the consumer
/// letting go, the upload task's unsubscribe operation is invoked exactly
/// once, whether or not the upload ended; letting go again adds nothing.
pub proof fn lemma_unsubscribe_exactly_once<S, E, W>(
    before: Seq<AdapterEvent<S, E, W>>,
    after: Seq<AdapterEvent<S, E, W>>,
)
    requires
        forall|i: int| 0 <= i < before.len() ==> !(before[i] is Detach),
    ensures
        AdapterModel::<S, E, W>::initial().unsubscribe_count(
            before.push(AdapterEvent::Detach) + after,
        ) == 1,
{
    let m = AdapterModel::<S, E, W>::initial();
    let d = seq![AdapterEvent::<S, E, W>::Detach];
    assert(before.push(AdapterEvent::Detach) + after =~= before + (d + after));
    lemma_count_concat(m, before, d + after);
    lemma_no_detach(m, before);
    let m1 = m.run(before);
    assert((d + after)[0] == AdapterEvent::<S, E, W>::Detach);
    assert((d + after).drop_first() =~= after);
    lemma_unsubscribed_stays(m1.detached(), after);
}

/// Once a poll has returned a terminal result (the end of the sequence or
/// its error), every later poll returns the end of the sequence, whatever
/// callbacks, polls or letting go come after it.
pub proof fn lemma_exhaustion_is_final<S, E, W>(
    m: AdapterModel<S, E, W>,
    w: W,
    later: Seq<AdapterEvent<S, E, W>>,
)
    requires
        m.poll_result().is_terminal(),
    ensures
        forall|i: int|
            0 <= i < m.after_poll(w).poll_outputs(later).len() ==> #[trigger] m.after_poll(
                w,
            ).poll_outputs(later)[i] == UploadPoll::<S, E>::Exhausted,
{
    lemma_exhausted_stays(m.after_poll(w), later);
}

/// A poll that finds no snapshot, no error and the upload still running
/// returns "not ready" and changes nothing but the recorded resumption handle.
pub proof fn lemma_idle_poll<S, E, W>(m: AdapterModel<S, E, W>, w: W)
    requires
        m.wf(),
        m.pending_snapshot is None,
        m.pending_error is None,
        !m.completed,
    ensures
        m.poll_result() == UploadPoll::<S, E>::NotReady,
        m.after_poll(w) == (AdapterModel { waker: Some(w), ..m }),
{
}

} // verus!
