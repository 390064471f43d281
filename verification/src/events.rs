//! When the event loop ends.
//!
//! The caller polls the windowing system and hands each event to an
//! [`EventLoop`], which says whether to go on. A close request or a press of
//! Escape ends the loop; once it has ended, no further event is looked at.

use vstd::prelude::*;

verus! {

/// A key, as far as the loop tells keys apart.
#[derive(Clone, Copy, Debug, PartialEq, Eq, Structural)]
pub enum Key {
    Escape,
    Other,
}

/// An input event, as far as the loop tells events apart.
#[derive(Clone, Copy, Debug, PartialEq, Eq, Structural)]
pub enum InputEvent {
    /// The user asked to close the window.
    Quit,
    /// A key went down; `key` is `None` where the system named no key.
    KeyDown { key: Option<Key> },
    /// Anything else.
    Other,
}

impl InputEvent {
    /// This event asks the loop to end.
    pub open spec fn spec_ends_loop(self) -> bool {
        self is Quit || self == (InputEvent::KeyDown { key: Some(Key::Escape) })
    }

    /// Whether this event asks the loop to end.
    pub fn ends_loop(&self) -> (b: bool)
        ensures
            b == self.spec_ends_loop(),
    {
        match self {
            InputEvent::Quit => true,
            InputEvent::KeyDown { key: Some(Key::Escape) } => true,
            _ => false,
        }
    }
}

/// What the loop does with an event.
#[derive(Clone, Copy, Debug, PartialEq, Eq, Structural)]
pub enum Action {
    /// The event changes nothing; keep polling.
    Continue,
    /// The event ends the loop.
    Exit,
    /// The loop had ended before; the event was not looked at.
    Ignored,
}

/// One step of the loop: whether it runs afterwards, and what it does with
/// `event`.
pub open spec fn step(running: bool, event: InputEvent) -> (bool, Action) {
    if !running {
        (false, Action::Ignored)
    } else if event.spec_ends_loop() {
        (false, Action::Exit)
    } else {
        (true, Action::Continue)
    }
}

/// Whether a loop that was `running` still runs after `events`.
pub open spec fn running_after(running: bool, events: Seq<InputEvent>) -> bool
    decreases events.len(),
{
    if events.len() == 0 {
        running
    } else {
        step(running_after(running, events.drop_last()), events.last()).0
    }
}

/// What a fresh loop does with event `i` of `events`.
pub open spec fn action_at(events: Seq<InputEvent>, i: int) -> Action
    recommends
        0 <= i < events.len(),
{
    step(running_after(true, events.take(i)), events[i]).1
}

/// No event of `events` asks the loop to end.
pub open spec fn none_ends_loop(events: Seq<InputEvent>) -> bool {
    forall|i: int| 0 <= i < events.len() ==> !(#[trigger] events[i]).spec_ends_loop()
}

/// Event `i` is the first of `events` that asks the loop to end.
pub open spec fn is_first_exit(events: Seq<InputEvent>, i: int) -> bool {
    &&& 0 <= i < events.len()
    &&& events[i].spec_ends_loop()
    &&& none_ends_loop(events.take(i))
}

/// The state of the event loop: running until an event ends it.
pub struct EventLoop {
    running: bool,
}

impl EventLoop {
    /// No event has ended the loop yet.
    pub closed spec fn running(&self) -> bool {
        self.running
    }

    /// A loop that runs.
    pub fn new() -> (event_loop: EventLoop)
        ensures
            event_loop.running(),
    {
        EventLoop { running: true }
    }

    /// Whether no event has ended the loop yet.
    pub fn is_running(&self) -> (b: bool)
        ensures
            b == self.running(),
    {
        self.running
    }

    /// Takes one event and says what to do.
    pub fn handle(&mut self, event: InputEvent) -> (action: Action)
        ensures
            (final(self).running(), action) == step(old(self).running(), event),
    {
        if !self.running {
            Action::Ignored
        } else if event.ends_loop() {
            self.running = false;
            Action::Exit
        } else {
            Action::Continue
        }
    }

    /// Takes the events of one poll in order and stops at the first that ends
    /// the loop. Returns how many events were looked at.
    pub fn drain(&mut self, events: &[InputEvent]) -> (count: usize)
        ensures
            final(self).running() == running_after(old(self).running(), events@),
            !old(self).running() ==> count == 0,
            old(self).running() && none_ends_loop(events@) ==> count == events@.len(),
            old(self).running() && !none_ends_loop(events@) ==> is_first_exit(
                events@,
                count - 1,
            ),
    {
        if !self.running {
            proof {
                lemma_stopped_stays_stopped(events@);
            }
            return 0;
        }
        let mut i: usize = 0;
        while i < events.len()
            invariant
                i <= events.len(),
                self.running(),
                old(self).running(),
                none_ends_loop(events@.take(i as int)),
            decreases events.len() - i,
        {
            let action = self.handle(events[i]);
            i += 1;
            if action == Action::Exit {
                proof {
                    assert(is_first_exit(events@, i - 1));
                    lemma_running_after(events@);
                }
                return i;
            }
            proof {
                let seen = events@.take(i as int);
                assert forall|j: int| 0 <= j < seen.len() implies !(#[trigger] seen[j]).spec_ends_loop() by {
                    if j < i - 1 {
                        assert(seen[j] == events@.take(i - 1)[j]);
                    }
                }
            }
        }
        proof {
            assert(events@.take(i as int) == events@);
            lemma_running_after(events@);
        }
        i
    }
}

/// A loop that has ended stays ended.
pub proof fn lemma_stopped_stays_stopped(events: Seq<InputEvent>)
    ensures
        !running_after(false, events),
    decreases events.len(),
{
    if events.len() > 0 {
        lemma_stopped_stays_stopped(events.drop_last());
    }
}

/// A fresh loop still runs after `events` exactly if none of them asks it to
/// end.
pub proof fn lemma_running_after(events: Seq<InputEvent>)
    ensures
        running_after(true, events) == none_ends_loop(events),
    decreases events.len(),
{
    if events.len() > 0 {
        let front = events.drop_last();
        lemma_running_after(front);
        if none_ends_loop(events) {
            assert forall|i: int| 0 <= i < front.len() implies !(#[trigger] front[i]).spec_ends_loop() by {
                assert(front[i] == events[i]);
            }
            assert(!events[events.len() - 1].spec_ends_loop());
        } else if none_ends_loop(front) {
            assert(events.last().spec_ends_loop()) by {
                if !events.last().spec_ends_loop() {
                    assert forall|i: int| 0 <= i < events.len() implies !(#[trigger] events[i]).spec_ends_loop() by {
                        if i < front.len() {
                            assert(events[i] == front[i]);
                        }
                    }
                }
            }
        }
    }
}

/// Only one event can be the first that asks the loop to end.
pub proof fn lemma_first_exit_unique(events: Seq<InputEvent>, i: int, j: int)
    requires
        is_first_exit(events, i),
        is_first_exit(events, j),
    ensures
        i == j,
{
    if i < j {
        assert(events.take(j)[i] == events[i]);
    } else if j < i {
        assert(events.take(i)[j] == events[j]);
    }
}

/// The loop ends exactly once: a fresh loop answers `Exit` to the first event
/// that asks it to end and to no other, `Continue` to every event before it,
/// and `Ignored` to every event after it.
pub proof fn lemma_exit_exactly_once(events: Seq<InputEvent>, i: int)
    requires
        0 <= i < events.len(),
    ensures
        action_at(events, i) == Action::Exit <==> is_first_exit(events, i),
        action_at(events, i) == Action::Continue <==> none_ends_loop(events.take(i + 1)),
        action_at(events, i) == Action::Ignored <==> !none_ends_loop(events.take(i)),
{
    lemma_running_after(events.take(i));
    let upto = events.take(i + 1);
    assert(upto.drop_last() == events.take(i));
    assert(upto.last() == events[i]);
    lemma_running_after(upto);
}

} // verus!
