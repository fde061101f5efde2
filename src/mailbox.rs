//! The event mailbox through which other tasks reach the render loop.
//!
//! Producers post events; the render loop takes the whole content at once and
//! runs the deferred actions in the order they were posted. A `Quit` ends the
//! loop: the actions posted before it run, the rest is dropped, and the
//! mailbox refuses every later post.

use vstd::prelude::*;

verus! {

/// An event for the render loop: an action to run once on the loop, or a
/// request to end it.
pub enum LoopEvent<A> {
    Quit,
    Invoke(A),
}

/// The error of a post made after the render loop has ended.
#[derive(Clone, Copy, Debug, PartialEq, Eq, Structural)]
pub struct LoopClosed;

/// The mailbox's abstract state: the pending events, oldest first, and
/// whether the loop has ended.
pub type MailboxView<A> = (Seq<LoopEvent<A>>, bool);

/// The mailbox after a post of `e`: appended while the loop runs, unchanged
/// once it has ended.
pub open spec fn post_model<A>(m: MailboxView<A>, e: LoopEvent<A>) -> MailboxView<A> {
    if m.1 {
        m
    } else {
        (m.0.push(e), false)
    }
}

/// The mailbox after the posts of `es`, in order.
pub open spec fn post_all<A>(m: MailboxView<A>, es: Seq<LoopEvent<A>>) -> MailboxView<A>
    decreases es.len(),
{
    if es.len() == 0 {
        m
    } else {
        post_all(post_model(m, es[0]), es.drop_first())
    }
}

/// What one pass over a batch does: the actions before the first `Quit`, in
/// order, and whether a `Quit` was met.
pub open spec fn drain_model<A>(batch: Seq<LoopEvent<A>>) -> (Seq<A>, bool)
    decreases batch.len(),
{
    if batch.len() == 0 {
        (Seq::empty(), false)
    } else {
        match batch[0] {
            LoopEvent::Quit => (Seq::empty(), true),
            LoopEvent::Invoke(a) => {
                let rest = drain_model(batch.drop_first());
                (seq![a] + rest.0, rest.1)
            },
        }
    }
}

/// The mutex-guarded queue of events for the render loop.
pub struct Mailbox<A> {
    events: Vec<LoopEvent<A>>,
    closed: bool,
}

impl<A> View for Mailbox<A> {
    type V = MailboxView<A>;

    closed spec fn view(&self) -> MailboxView<A> {
        (self.events@, self.closed)
    }
}

/// Splits a batch into the actions to run and whether the loop must end.
pub fn plan_batch<A>(batch: Vec<LoopEvent<A>>) -> (r: (Vec<A>, bool))
    ensures
        (r.0@, r.1) == drain_model(batch@),
{
    let mut batch = batch;
    let mut actions: Vec<A> = Vec::new();
    let mut quit = false;
    let ghost whole = batch@;
    while !quit && batch.len() > 0
        invariant
            !quit ==> actions@ + drain_model(batch@).0 == drain_model(whole).0,
            !quit ==> drain_model(batch@).1 == drain_model(whole).1,
            quit ==> (actions@, true) == drain_model(whole),
        decreases batch.len(),
    {
        let ghost before = batch@;
        let e = batch.remove(0);
        assert(batch@ =~= before.drop_first());
        match e {
            LoopEvent::Quit => {
                quit = true;
            },
            LoopEvent::Invoke(a) => {
                let ghost old_actions = actions@;
                actions.push(a);
                assert(actions@ + drain_model(batch@).0 =~= old_actions + drain_model(before).0);
            },
        }
    }
    if !quit {
        assert(drain_model(batch@).0 =~= Seq::<A>::empty());
        assert(actions@ =~= actions@ + drain_model(batch@).0);
    }
    (actions, quit)
}

impl<A> Mailbox<A> {
    /// An empty mailbox of a running loop.
    pub fn new() -> (r: Mailbox<A>)
        ensures
            r@ == (Seq::<LoopEvent<A>>::empty(), false),
    {
        Mailbox { events: Vec::new(), closed: false }
    }

    /// Appends `e`, or fails with `LoopClosed` if the loop has ended.
    pub fn post(&mut self, e: LoopEvent<A>) -> (r: Result<(), LoopClosed>)
        ensures
            r is Ok <==> !old(self)@.1,
            final(self)@ == post_model(old(self)@, e),
    {
        if self.closed {
            Err(LoopClosed)
        } else {
            self.events.push(e);
            Ok(())
        }
    }

    /// Asks the loop to end.
    pub fn quit_event_loop(&mut self) -> (r: Result<(), LoopClosed>)
        ensures
            r is Ok <==> !old(self)@.1,
            final(self)@ == post_model(old(self)@, LoopEvent::Quit),
    {
        self.post(LoopEvent::Quit)
    }

    /// Asks the loop to run `action` once.
    pub fn invoke_from_event_loop(&mut self, action: A) -> (r: Result<(), LoopClosed>)
        ensures
            r is Ok <==> !old(self)@.1,
            final(self)@ == post_model(old(self)@, LoopEvent::Invoke(action)),
    {
        self.post(LoopEvent::Invoke(action))
    }

    /// True once the loop has ended.
    pub fn is_closed(&self) -> (r: bool)
        ensures
            r == self@.1,
    {
        self.closed
    }

    /// Number of events waiting.
    pub fn len(&self) -> (r: usize)
        ensures
            r == self@.0.len(),
    {
        self.events.len()
    }

    /// Takes every pending event at once, leaving the mailbox empty, so that
    /// events posted meanwhile wait for the next pass.
    pub fn take_all(&mut self) -> (r: Vec<LoopEvent<A>>)
        ensures
            r@ == old(self)@.0,
            final(self)@ == (Seq::<LoopEvent<A>>::empty(), old(self)@.1),
    {
        let mut taken: Vec<LoopEvent<A>> = Vec::new();
        std::mem::swap(&mut taken, &mut self.events);
        taken
    }

    /// One pass of the render loop over the mailbox: takes every pending
    /// event and returns the actions to run, in posting order, and whether
    /// the loop ends. When it ends the mailbox is closed.
    pub fn drain(&mut self) -> (r: (Vec<A>, bool))
        ensures
            (r.0@, r.1) == drain_model(old(self)@.0),
            final(self)@ == (Seq::<LoopEvent<A>>::empty(), old(self)@.1 || r.1),
    {
        let batch = self.take_all();
        let (actions, quit) = plan_batch(batch);
        if quit {
            self.closed = true;
        }
        (actions, quit)
    }
}

/// Posting to a running loop appends in order.
pub proof fn lemma_post_all_open<A>(q: Seq<LoopEvent<A>>, es: Seq<LoopEvent<A>>)
    ensures
        post_all((q, false), es) == (q + es, false),
    decreases es.len(),
{
    if es.len() > 0 {
        lemma_post_all_open(q.push(es[0]), es.drop_first());
        assert(q.push(es[0]) + es.drop_first() =~= q + es);
    } else {
        assert(q + es =~= q);
    }
}

/// A batch without `Quit` is run whole, in order.
pub proof fn lemma_drain_without_quit<A>(batch: Seq<LoopEvent<A>>)
    requires
        forall|i: int| 0 <= i < batch.len() ==> batch[i] is Invoke,
    ensures
        drain_model(batch).0.len() == batch.len(),
        !drain_model(batch).1,
        forall|i: int|
            0 <= i < batch.len() ==> (LoopEvent::Invoke(#[trigger] drain_model(batch).0[i])) == batch[i],
    decreases batch.len(),
{
    if batch.len() > 0 {
        let rest = batch.drop_first();
        assert forall|i: int| 0 <= i < rest.len() implies rest[i] is Invoke by {
            assert(rest[i] == batch[i + 1]);
        }
        lemma_drain_without_quit(rest);
        let d = drain_model(batch).0;
        assert forall|i: int| 0 <= i < batch.len() implies (LoopEvent::Invoke(
            #[trigger] d[i],
        )) == batch[i] by {
            if i > 0 {
                assert(d[i] == drain_model(rest).0[i - 1]);
                assert(rest[i - 1] == batch[i]);
            }
        }
    }
}

/// Events posted to an empty, running mailbox and then taken in one pass
/// come out exactly as posted, in order; events posted after that pass are
/// all that the next pass takes.
pub proof fn lemma_drain_fifo<A>(es: Seq<LoopEvent<A>>, later: Seq<LoopEvent<A>>)
    ensures
        ({
            let first = post_all((Seq::<LoopEvent<A>>::empty(), false), es);
            let after_take = (Seq::<LoopEvent<A>>::empty(), first.1);
            &&& first.0 == es
            &&& post_all(after_take, later).0 == later
        }),
{
    lemma_post_all_open(Seq::<LoopEvent<A>>::empty(), es);
    lemma_post_all_open(Seq::<LoopEvent<A>>::empty(), later);
    assert(Seq::<LoopEvent<A>>::empty() + es =~= es);
    assert(Seq::<LoopEvent<A>>::empty() + later =~= later);
}

} // verus!
