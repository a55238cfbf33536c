//! The copy role: advertises the buffered content under every type of its
//! list, serves it on request, and decides when to stop.
use vstd::prelude::*;
use crate::mime::{get_mimes, normalized};
use crate::paste::{
    all_offers_for, fetches, lemma_round_trip_fetches, next_state, offered_types, state_after,
    action_for, DeviceEvent, PasteAction, PastePhase, PasteState,
};

verus! {

/// Where the copy role stands.
#[derive(Clone, Copy, Debug, PartialEq, Eq, Structural)]
pub enum CopyPhase {
    /// Owns the selection; no request has been filled in full yet.
    Owning,
    /// Owns the selection and has filled one request in full.
    Served,
    /// Another client took the selection.
    Superseded,
}

/// What the session and the driver report to the selection source.
#[derive(Debug)]
pub enum SourceEvent {
    /// A peer asks for the content as `mime_type`, through a descriptor that
    /// the driver holds.
    Send { mime_type: String },
    /// The driver filled the descriptor of a request: `ok` where the whole
    /// content was written, false after an error.
    Filled { ok: bool },
    /// Another client took the selection.
    Cancelled,
}

/// What the copy role asks its driver to do.
#[derive(Clone, Copy, Debug, PartialEq, Eq, Structural)]
pub enum CopyAction {
    /// Write the whole buffered content, from its start, into the descriptor of
    /// the request, close it, and report the outcome as `Filled`.
    ServeAll,
    /// Close the descriptor of the request without writing to it.
    Decline,
    /// Nothing to do.
    Wait,
}

/// The state of the copy role, as specification values.
pub struct CopyState {
    /// The advertised types, in the order given.
    pub mimes: Seq<Seq<char>>,
    pub phase: CopyPhase,
}

/// The state after `e`: a request served in full ends the role, and so does
/// losing the selection; a request, or a fill that failed, changes nothing.
pub open spec fn copy_next(s: CopyState, e: SourceEvent) -> CopyState {
    match e {
        SourceEvent::Send { .. } => s,
        SourceEvent::Filled { ok } => if ok && s.phase == CopyPhase::Owning {
            CopyState { mimes: s.mimes, phase: CopyPhase::Served }
        } else {
            s
        },
        SourceEvent::Cancelled => CopyState { mimes: s.mimes, phase: CopyPhase::Superseded },
    }
}

/// The action owed for `e`: until the selection is lost, every request is
/// answered with the whole content, whatever type it names.
pub open spec fn copy_action(s: CopyState, e: SourceEvent) -> CopyAction {
    match e {
        SourceEvent::Send { .. } => if s.phase == CopyPhase::Superseded {
            CopyAction::Decline
        } else {
            CopyAction::ServeAll
        },
        _ => CopyAction::Wait,
    }
}

/// The state after each of `events` in turn.
pub open spec fn copy_after(s: CopyState, events: Seq<SourceEvent>) -> CopyState
    decreases events.len(),
{
    if events.len() == 0 {
        s
    } else {
        copy_next(copy_after(s, events.drop_last()), events.last())
    }
}

/// The selection source of one copy.
pub struct CopySession {
    mimes: Vec<String>,
    phase: CopyPhase,
}

impl View for CopySession {
    type V = CopyState;

    closed spec fn view(&self) -> CopyState {
        CopyState { mimes: self.mimes.deep_view(), phase: self.phase }
    }
}

impl CopySession {
    /// A source for the given types; an empty list stands for the default
    /// content type.
    pub fn new(mimes: Vec<String>) -> (r: Self)
        ensures
            r@.mimes == normalized(mimes.deep_view()),
            r@.phase == CopyPhase::Owning,
    {
        CopySession { mimes: get_mimes(mimes), phase: CopyPhase::Owning }
    }

    /// The types to advertise, in order.
    pub fn advertised(&self) -> (r: &Vec<String>)
        ensures
            r.deep_view() == self@.mimes,
    {
        &self.mimes
    }

    /// Takes in one event and returns what to do.
    pub fn step(&mut self, event: SourceEvent) -> (a: CopyAction)
        ensures
            final(self)@ == copy_next(old(self)@, event),
            a == copy_action(old(self)@, event),
    {
        match event {
            SourceEvent::Send { .. } => {
                if self.phase == CopyPhase::Superseded {
                    CopyAction::Decline
                } else {
                    CopyAction::ServeAll
                }
            },
            SourceEvent::Filled { ok } => {
                if ok && self.phase == CopyPhase::Owning {
                    self.phase = CopyPhase::Served;
                }
                CopyAction::Wait
            },
            SourceEvent::Cancelled => {
                self.phase = CopyPhase::Superseded;
                CopyAction::Wait
            },
        }
    }

    /// Whether the role is over: a request was served in full, or the
    /// selection was lost.
    pub fn is_finished(&self) -> (r: bool)
        ensures
            r == (self@.phase != CopyPhase::Owning),
    {
        self.phase != CopyPhase::Owning
    }
}

/// As long as the selection is not lost, every request is answered with the
/// whole content: however many came before it, whatever types they named, and
/// whether their fills succeeded or failed.
pub proof fn lemma_every_request_served(s: CopyState, events: Seq<SourceEvent>)
    requires
        s.phase != CopyPhase::Superseded,
        forall|k: int| 0 <= k < events.len() ==> !(#[trigger] events[k] is Cancelled),
    ensures
        forall|k: int|
            0 <= k < events.len() && events[k] is Send ==> copy_action(
                #[trigger] copy_after(s, events.take(k)),
                events[k],
            ) == CopyAction::ServeAll,
{
    assert forall|k: int| 0 <= k < events.len() && events[k] is Send implies copy_action(
        #[trigger] copy_after(s, events.take(k)),
        events[k],
    ) == CopyAction::ServeAll by {
        lemma_never_superseded(s, events.take(k));
    }
}

proof fn lemma_never_superseded(s: CopyState, events: Seq<SourceEvent>)
    requires
        s.phase != CopyPhase::Superseded,
        forall|k: int| 0 <= k < events.len() ==> !(#[trigger] events[k] is Cancelled),
    ensures
        copy_after(s, events).phase != CopyPhase::Superseded,
    decreases events.len(),
{
    if events.len() > 0 {
        let p = events.drop_last();
        assert forall|k: int| 0 <= k < p.len() implies !(#[trigger] p[k] is Cancelled) by {
            assert(p[k] == events[k]);
        }
        assert(events[events.len() - 1] == events.last());
        lemma_never_superseded(s, p);
    }
}

/// A fill that failed leaves the role owning the selection, so that a retry
/// is served.
pub proof fn lemma_failed_fill_keeps_serving(s: CopyState, fill: SourceEvent, retry: SourceEvent)
    requires
        s.phase == CopyPhase::Owning,
        fill matches SourceEvent::Filled { ok } && !ok,
        retry is Send,
    ensures
        copy_next(s, fill) == s,
        copy_action(copy_next(s, fill), retry) == CopyAction::ServeAll,
{
}

/// Copy with a list that holds `t`, then paste with `t` alone: the paste side
/// fetches `t` from the copy's offer, and the copy side answers that request
/// with the whole of its content.
pub proof fn lemma_copy_then_paste(
    c: CopyState,
    p: PasteState,
    id: u32,
    events: Seq<DeviceEvent>,
    t: Seq<char>,
    request: SourceEvent,
)
    requires
        c.phase == CopyPhase::Owning,
        c.mimes.contains(t),
        p.wf(),
        p.negotiating(),
        p.wanted == seq![t],
        all_offers_for(id, events),
        offered_types(events) == c.mimes,
        request matches SourceEvent::Send { mime_type } && mime_type@ == t,
    ensures
        ({
            let s2 = state_after(next_state(p, DeviceEvent::DataOffer { id }), events);
            let sel = DeviceEvent::Selection { id: Some(id) };
            &&& next_state(s2, sel).phase == PastePhase::Transferring
            &&& forall|a: PasteAction| #[trigger] action_for(s2, sel, a) ==> fetches(a, id, t)
        }),
        copy_action(c, request) == CopyAction::ServeAll,
{
    lemma_round_trip_fetches(p, id, events, t);
}

} // verus!
