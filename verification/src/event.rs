//! Events the engine reports to whoever shows its state.
use vstd::prelude::*;

verus! {

/// Something that happened in the engine.
#[derive(Debug, Clone, Copy, PartialEq, Eq, Structural)]
pub enum EngineEvent {
    /// A cue of a running sequence is fading in or out.
    CueFadeInProgress,
    /// The selection of fixtures changed.
    SelectionChanged,
    /// The patch changed.
    PatchChanged,
}

/// Collects the events that have not been handled yet, in the order they
/// happened.
#[derive(Debug)]
pub struct EventHandler {
    pending_events: Vec<EngineEvent>,
}

impl EventHandler {
    /// The pending events, oldest first.
    pub closed spec fn events(self) -> Seq<EngineEvent> {
        self.pending_events@
    }

    /// A handler with no pending events.
    pub fn new() -> (r: EventHandler)
        ensures
            r.events() == Seq::<EngineEvent>::empty(),
    {
        EventHandler { pending_events: Vec::new() }
    }

    /// Records an event.
    pub fn emit_event(&mut self, event: EngineEvent)
        ensures
            final(self).events() == old(self).events().push(event),
    {
        self.pending_events.push(event);
    }

    /// A copy of the pending events, oldest first.
    pub fn pending_events(&self) -> (r: Vec<EngineEvent>)
        ensures
            r@ == self.events(),
    {
        let mut r: Vec<EngineEvent> = Vec::new();
        let n = self.pending_events.len();
        for i in 0..n
            invariant
                n == self.pending_events@.len(),
                r@ == self.pending_events@.subrange(0, i as int),
        {
            r.push(self.pending_events[i]);
            assert(r@ =~= self.pending_events@.subrange(0, i + 1));
        }
        assert(r@ =~= self.pending_events@);
        r
    }

    /// Takes out the pending events, oldest first, leaving none.
    pub fn drain_pending_events(&mut self) -> (r: Vec<EngineEvent>)
        ensures
            r@ == old(self).events(),
            final(self).events() == Seq::<EngineEvent>::empty(),
    {
        let mut taken: Vec<EngineEvent> = Vec::new();
        std::mem::swap(&mut taken, &mut self.pending_events);
        taken
    }
}

} // verus!
