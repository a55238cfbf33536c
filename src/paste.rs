//! The paste role: follows the selection announcements of the session,
//! matches the advertised types against the preference list, and decides
//! when to fetch and when to stop.
use vstd::prelude::*;
use crate::mime::{
    best_after, get_mimes, lemma_best_after_is_best, lemma_no_common_type, lemma_preference_order,
    next_best, next_best_index, normalized, opt_nat,
};

verus! {

/// Where a paste negotiation stands.
#[derive(Clone, Copy, Debug, PartialEq, Eq, Structural)]
pub enum PastePhase {
    /// No selection announced yet.
    Idle,
    /// A selection was announced; its types are being advertised.
    Enumerating,
    /// A transfer of the matched type is under way.
    Transferring,
    /// Nothing more to do.
    Completed,
}

/// What the session and the transfer worker report to the paste role.
/// Offers are named by the session's identifier for them.
#[derive(Debug)]
#[allow(inconsistent_fields)]
pub enum DeviceEvent {
    /// A new offer was announced; its types follow.
    DataOffer { id: u32 },
    /// The offer `id` can provide `mime_type`.
    Offer { id: u32, mime_type: String },
    /// The selection is now the offer `id`, or there is none.
    Selection { id: Option<u32> },
    /// The transfer that was asked for has ended.
    TransferDone,
}

/// What the paste role asks its driver to do next.
#[derive(Debug)]
pub enum PasteAction {
    /// Keep dispatching events.
    Wait,
    /// Fetch the content of offer `id` as `mime_type` and copy it to the output.
    Fetch { id: u32, mime_type: String },
    /// Stop: the negotiation is over.
    Finish,
}

/// The state of a paste negotiation, as specification values.
pub struct PasteState {
    /// The preference list, most preferred first.
    pub wanted: Seq<Seq<char>>,
    /// The offer being enumerated, if any.
    pub offer: Option<u32>,
    /// The types that offer advertised so far, in order of arrival.
    pub offers: Seq<Seq<char>>,
    /// The position in `wanted` of the best advertised type, if any.
    pub best: Option<nat>,
    pub phase: PastePhase,
}

impl PasteState {
    pub open spec fn wf(self) -> bool {
        &&& self.wanted.len() > 0
        &&& self.best == best_after(self.wanted, self.offers)
        &&& self.phase == PastePhase::Idle ==> self.offer is None && self.offers.len() == 0
    }

    /// Still waiting for a selection to negotiate.
    pub open spec fn negotiating(self) -> bool {
        self.phase == PastePhase::Idle || self.phase == PastePhase::Enumerating
    }
}

/// The state after `e`.
pub open spec fn next_state(s: PasteState, e: DeviceEvent) -> PasteState {
    match e {
        DeviceEvent::DataOffer { id } => if s.negotiating() {
            PasteState {
                wanted: s.wanted,
                offer: Some(id),
                offers: Seq::empty(),
                best: None,
                phase: PastePhase::Enumerating,
            }
        } else {
            s
        },
        DeviceEvent::Offer { id, mime_type } => if s.phase == PastePhase::Enumerating && s.offer
            == Some(id) {
            PasteState {
                wanted: s.wanted,
                offer: s.offer,
                offers: s.offers.push(mime_type@),
                best: next_best(s.wanted, s.best, mime_type@),
                phase: s.phase,
            }
        } else {
            s
        },
        DeviceEvent::Selection { id } => if s.negotiating() {
            PasteState {
                wanted: s.wanted,
                offer: s.offer,
                offers: s.offers,
                best: s.best,
                phase: if id is Some && id == s.offer && s.best is Some {
                    PastePhase::Transferring
                } else {
                    PastePhase::Completed
                },
            }
        } else {
            s
        },
        DeviceEvent::TransferDone => if s.phase == PastePhase::Transferring {
            PasteState {
                wanted: s.wanted,
                offer: s.offer,
                offers: s.offers,
                best: s.best,
                phase: PastePhase::Completed,
            }
        } else {
            s
        },
    }
}

/// `a` is the action owed for `e` in state `s`: a fetch of the best match of
/// the current offer where a transfer starts, a finish where the negotiation
/// ends, and a wait otherwise.
pub open spec fn action_for(s: PasteState, e: DeviceEvent, a: PasteAction) -> bool {
    let t = next_state(s, e);
    if s.phase != PastePhase::Transferring && t.phase == PastePhase::Transferring {
        match a {
            PasteAction::Fetch { id, mime_type } => {
                &&& s.offer == Some(id)
                &&& s.best is Some
                &&& mime_type@ == s.wanted[s.best->Some_0 as int]
            },
            _ => false,
        }
    } else if s.phase != PastePhase::Completed && t.phase == PastePhase::Completed {
        a is Finish
    } else {
        a is Wait
    }
}

/// The state after each of `events` in turn.
pub open spec fn state_after(s: PasteState, events: Seq<DeviceEvent>) -> PasteState
    decreases events.len(),
{
    if events.len() == 0 {
        s
    } else {
        next_state(state_after(s, events.drop_last()), events.last())
    }
}

/// Every event of `events` advertises a type of the offer `id`.
pub open spec fn all_offers_for(id: u32, events: Seq<DeviceEvent>) -> bool {
    forall|k: int|
        0 <= k < events.len() ==> (#[trigger] events[k] matches DeviceEvent::Offer { id: o, .. } && o
            == id)
}

/// The type that an advertisement event carries.
pub open spec fn offered_type(e: DeviceEvent) -> Seq<char> {
    match e {
        DeviceEvent::Offer { mime_type, .. } => mime_type@,
        _ => Seq::empty(),
    }
}

/// The types that `events` advertise, in order.
pub open spec fn offered_types(events: Seq<DeviceEvent>) -> Seq<Seq<char>> {
    events.map_values(|e: DeviceEvent| offered_type(e))
}

/// `a` fetches the content of offer `id` as `t`.
pub open spec fn fetches(a: PasteAction, id: u32, t: Seq<char>) -> bool {
    match a {
        PasteAction::Fetch { id: o, mime_type } => o == id && mime_type@ == t,
        _ => false,
    }
}

/// While an offer is enumerated, its advertisements only add to its types.
pub proof fn lemma_enumeration(s: PasteState, id: u32, events: Seq<DeviceEvent>)
    requires
        s.wf(),
        s.phase == PastePhase::Enumerating,
        s.offer == Some(id),
        all_offers_for(id, events),
    ensures
        state_after(s, events) == (PasteState {
            wanted: s.wanted,
            offer: s.offer,
            offers: s.offers + offered_types(events),
            best: best_after(s.wanted, s.offers + offered_types(events)),
            phase: PastePhase::Enumerating,
        }),
    decreases events.len(),
{
    if events.len() == 0 {
        assert(s.offers + offered_types(events) =~= s.offers);
    } else {
        let p = events.drop_last();
        let e = events.last();
        assert forall|k: int| 0 <= k < p.len() implies (#[trigger] p[k] matches DeviceEvent::Offer {
            id: o,
            ..
        } && o == id) by {
            assert(p[k] == events[k]);
        }
        assert(events[events.len() - 1] == e);
        lemma_enumeration(s, id, p);
        let all = s.offers + offered_types(events);
        assert(all.drop_last() =~= s.offers + offered_types(p));
        assert(all =~= (s.offers + offered_types(p)).push(offered_type(e)));
    }
}

/// Where no advertised type is in the preference list, no transfer is ever
/// started and the negotiation ends, with nothing fetched, when the offer
/// becomes the selection.
pub proof fn lemma_no_match_finishes_empty(s: PasteState, id: u32, events: Seq<DeviceEvent>)
    requires
        s.wf(),
        s.negotiating(),
        all_offers_for(id, events),
        forall|j: int|
            0 <= j < s.wanted.len() ==> !offered_types(events).contains(#[trigger] s.wanted[j]),
    ensures
        ({
            let s1 = next_state(s, DeviceEvent::DataOffer { id });
            let s2 = state_after(s1, events);
            let sel = DeviceEvent::Selection { id: Some(id) };
            &&& forall|k: int|
                0 <= k <= events.len() ==> (#[trigger] state_after(s1, events.take(k))).phase
                    == PastePhase::Enumerating
            &&& s2.best is None
            &&& next_state(s2, sel).phase == PastePhase::Completed
            &&& forall|a: PasteAction| #[trigger] action_for(s2, sel, a) ==> a is Finish
        }),
{
    let s1 = next_state(s, DeviceEvent::DataOffer { id });
    assert(s1.wf());
    assert forall|k: int| 0 <= k <= events.len() implies (#[trigger] state_after(
        s1,
        events.take(k),
    )).phase == PastePhase::Enumerating by {
        let pre = events.take(k);
        assert forall|m: int| 0 <= m < pre.len() implies (#[trigger] pre[m] matches DeviceEvent::Offer {
            id: o,
            ..
        } && o == id) by {
            assert(pre[m] == events[m]);
        }
        lemma_enumeration(s1, id, pre);
    }
    assert(events.take(events.len() as int) =~= events);
    lemma_enumeration(s1, id, events);
    assert(s1.offers + offered_types(events) =~= offered_types(events));
    lemma_no_common_type(s.wanted, offered_types(events));
}

/// After an offer is enumerated and becomes the selection, the type fetched is
/// the best match of the preference list against all that the offer
/// advertised; where there is none, the negotiation ends.
pub proof fn lemma_selection_fetches_best(s: PasteState, id: u32, events: Seq<DeviceEvent>)
    requires
        s.wf(),
        s.negotiating(),
        all_offers_for(id, events),
    ensures
        ({
            let s2 = state_after(next_state(s, DeviceEvent::DataOffer { id }), events);
            let sel = DeviceEvent::Selection { id: Some(id) };
            let b = best_after(s.wanted, offered_types(events));
            &&& b is Some ==> next_state(s2, sel).phase == PastePhase::Transferring
            &&& b is None ==> next_state(s2, sel).phase == PastePhase::Completed
            &&& forall|a: PasteAction| #[trigger]
                action_for(s2, sel, a) ==> match a {
                    PasteAction::Fetch { id: o, mime_type } => {
                        &&& o == id
                        &&& b is Some
                        &&& mime_type@ == s.wanted[b->Some_0 as int]
                    },
                    PasteAction::Finish => b is None,
                    PasteAction::Wait => false,
                }
        }),
{
    let s1 = next_state(s, DeviceEvent::DataOffer { id });
    lemma_enumeration(s1, id, events);
    assert(s1.offers + offered_types(events) =~= offered_types(events));
}

/// Copying with a list that holds `t` and pasting with `t` alone fetches `t`
/// from the copy's offer.
pub proof fn lemma_round_trip_fetches(
    s: PasteState,
    id: u32,
    events: Seq<DeviceEvent>,
    t: Seq<char>,
)
    requires
        s.wf(),
        s.negotiating(),
        s.wanted == seq![t],
        all_offers_for(id, events),
        offered_types(events).contains(t),
    ensures
        ({
            let s2 = state_after(next_state(s, DeviceEvent::DataOffer { id }), events);
            let sel = DeviceEvent::Selection { id: Some(id) };
            &&& next_state(s2, sel).phase == PastePhase::Transferring
            &&& forall|a: PasteAction| #[trigger]
                action_for(s2, sel, a) ==> fetches(a, id, t)
        }),
{
    lemma_selection_fetches_best(s, id, events);
    lemma_best_after_is_best(s.wanted, offered_types(events));
    assert(s.wanted[0] == t);
}

/// Pasting with two types that the offer both advertises fetches the first,
/// whatever the order of the advertisements.
pub proof fn lemma_preferred_type_fetched(
    s: PasteState,
    id: u32,
    events: Seq<DeviceEvent>,
    t1: Seq<char>,
    t2: Seq<char>,
)
    requires
        s.wf(),
        s.negotiating(),
        s.wanted == seq![t1, t2],
        all_offers_for(id, events),
        offered_types(events).contains(t1),
        offered_types(events).contains(t2),
    ensures
        ({
            let s2 = state_after(next_state(s, DeviceEvent::DataOffer { id }), events);
            let sel = DeviceEvent::Selection { id: Some(id) };
            forall|a: PasteAction| #[trigger]
                action_for(s2, sel, a) ==> fetches(a, id, t1)
        }),
{
    lemma_selection_fetches_best(s, id, events);
    lemma_preference_order(t1, t2, offered_types(events));
    assert(s.wanted[0] == t1);
}

/// A paste negotiation against one preference list.
pub struct PasteSession {
    wanted: Vec<String>,
    offer: Option<u32>,
    best: Option<usize>,
    phase: PastePhase,
    offers: Ghost<Seq<Seq<char>>>,
}

impl View for PasteSession {
    type V = PasteState;

    closed spec fn view(&self) -> PasteState {
        PasteState {
            wanted: self.wanted.deep_view(),
            offer: self.offer,
            offers: self.offers@,
            best: opt_nat(self.best),
            phase: self.phase,
        }
    }
}

impl PasteSession {
    /// A negotiation that waits for a selection; an empty preference list
    /// stands for the default content type.
    pub fn new(mimes: Vec<String>) -> (r: Self)
        ensures
            r@.wf(),
            r@.wanted == normalized(mimes.deep_view()),
            r@.offer is None,
            r@.offers.len() == 0,
            r@.best is None,
            r@.phase == PastePhase::Idle,
    {
        let wanted = get_mimes(mimes);
        PasteSession {
            wanted,
            offer: None,
            best: None,
            phase: PastePhase::Idle,
            offers: Ghost(Seq::empty()),
        }
    }

    /// Takes in one event and returns what to do next.
    pub fn step(&mut self, event: DeviceEvent) -> (a: PasteAction)
        requires
            old(self)@.wf(),
        ensures
            final(self)@ == next_state(old(self)@, event),
            final(self)@.wf(),
            action_for(old(self)@, event, a),
    {
        let ghost e = event;
        let ghost s = self@;
        proof {
            assert(self.best matches Some(k) ==> k < self.wanted.len()) by {
                lemma_best_after_is_best(s.wanted, s.offers);
            }
        }
        match event {
            DeviceEvent::DataOffer { id } => {
                if self.phase == PastePhase::Idle || self.phase == PastePhase::Enumerating {
                    self.offer = Some(id);
                    self.best = None;
                    self.phase = PastePhase::Enumerating;
                    self.offers = Ghost(Seq::empty());
                }
                PasteAction::Wait
            },
            DeviceEvent::Offer { id, mime_type } => {
                if self.phase == PastePhase::Enumerating && self.offer == Some(id) {
                    self.best = next_best_index(&self.wanted, self.best, &mime_type);
                    self.offers = Ghost(self.offers@.push(mime_type@));
                    assert(self.offers@.drop_last() =~= s.offers);
                }
                PasteAction::Wait
            },
            DeviceEvent::Selection { id } => {
                if self.phase == PastePhase::Idle || self.phase == PastePhase::Enumerating {
                    if id.is_some() && id == self.offer && self.best.is_some() {
                        let i = self.best.unwrap();
                        let offer = id.unwrap();
                        self.phase = PastePhase::Transferring;
                        PasteAction::Fetch { id: offer, mime_type: self.wanted[i].clone() }
                    } else {
                        self.phase = PastePhase::Completed;
                        PasteAction::Finish
                    }
                } else {
                    PasteAction::Wait
                }
            },
            DeviceEvent::TransferDone => {
                if self.phase == PastePhase::Transferring {
                    self.phase = PastePhase::Completed;
                    PasteAction::Finish
                } else {
                    PasteAction::Wait
                }
            },
        }
    }

    /// Whether the negotiation is over.
    pub fn is_finished(&self) -> (r: bool)
        ensures
            r == (self@.phase == PastePhase::Completed),
    {
        self.phase == PastePhase::Completed
    }

    /// Where the negotiation stands.
    pub fn phase(&self) -> (r: PastePhase)
        ensures
            r == self@.phase,
    {
        self.phase
    }

    /// The position of the best advertised type in the preference list.
    pub fn best_match(&self) -> (r: Option<usize>)
        ensures
            opt_nat(r) == self@.best,
    {
        self.best
    }

    /// The preference list in use.
    pub fn wanted(&self) -> (r: &Vec<String>)
        ensures
            r.deep_view() == self@.wanted,
    {
        &self.wanted
    }
}

} // verus!
