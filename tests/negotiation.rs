use wrclip::copy::{CopyAction, CopySession, SourceEvent};
use wrclip::mime::{get_mimes, next_best_index, position, DEFAULT_MIME};
use wrclip::paste::{DeviceEvent, PasteAction, PastePhase, PasteSession};

fn strings(items: &[&str]) -> Vec<String> {
    items.iter().map(|s| s.to_string()).collect()
}

fn offer(id: u32, mime: &str) -> DeviceEvent {
    DeviceEvent::Offer { id, mime_type: mime.to_string() }
}

/// Runs a paste negotiation over one offer advertising `offered`, then made
/// the selection; returns the action for the selection event.
fn negotiate(wanted: &[&str], offered: &[&str]) -> (PasteAction, PasteSession) {
    let mut p = PasteSession::new(strings(wanted));
    assert!(matches!(p.step(DeviceEvent::DataOffer { id: 7 }), PasteAction::Wait));
    for m in offered {
        assert!(matches!(p.step(offer(7, m)), PasteAction::Wait));
    }
    let a = p.step(DeviceEvent::Selection { id: Some(7) });
    (a, p)
}

fn fetched(a: &PasteAction) -> Option<(u32, String)> {
    match a {
        PasteAction::Fetch { id, mime_type } => Some((*id, mime_type.clone())),
        _ => None,
    }
}

#[test]
fn empty_list_becomes_default() {
    assert_eq!(get_mimes(Vec::new()), vec![String::from("text/plain;charset=utf-8")]);
    assert_eq!(DEFAULT_MIME, "text/plain;charset=utf-8");
}

#[test]
fn given_list_is_kept() {
    let l = strings(&["text/html", "text/plain"]);
    assert_eq!(get_mimes(l.clone()), l);
}

#[test]
fn empty_list_negotiates_like_default() {
    let (a, p) = negotiate(&[], &["text/html", "text/plain;charset=utf-8"]);
    let (b, q) = negotiate(&["text/plain;charset=utf-8"], &["text/html", "text/plain;charset=utf-8"]);
    assert_eq!(fetched(&a), fetched(&b));
    assert_eq!(fetched(&a), Some((7, String::from("text/plain;charset=utf-8"))));
    assert_eq!(p.wanted(), q.wanted());
    let c = CopySession::new(Vec::new());
    assert_eq!(c.advertised(), &strings(&["text/plain;charset=utf-8"]));
}

#[test]
fn position_finds_first() {
    let l = strings(&["a", "b", "a"]);
    assert_eq!(position(&l, &String::from("a")), Some(0));
    assert_eq!(position(&l, &String::from("b")), Some(1));
    assert_eq!(position(&l, &String::from("c")), None);
}

#[test]
fn best_match_never_regresses() {
    let l = strings(&["a", "b", "c"]);
    let mut best = None;
    let mut seen = Vec::new();
    for m in ["c", "x", "b", "c", "a", "b"] {
        best = next_best_index(&l, best, &String::from(m));
        seen.push(best);
    }
    assert_eq!(seen, vec![Some(2), Some(2), Some(1), Some(1), Some(0), Some(0)]);
}

#[test]
fn best_match_ignores_order() {
    let l = strings(&["a", "b", "c"]);
    let orders = [["b", "c", "a"], ["a", "b", "c"], ["c", "a", "b"], ["c", "b", "a"]];
    for order in orders {
        let mut best = None;
        for m in order {
            best = next_best_index(&l, best, &String::from(m));
        }
        assert_eq!(best, Some(0));
    }
}

#[test]
fn no_common_type_finishes_without_fetch() {
    let (a, p) = negotiate(&["text/plain"], &["application/x-foo", "image/png"]);
    assert!(matches!(a, PasteAction::Finish));
    assert_eq!(p.best_match(), None);
    assert!(p.is_finished());
}

#[test]
fn disjoint_copy_and_paste_lists() {
    let c = CopySession::new(strings(&["application/x-foo"]));
    let advertised: Vec<&str> = c.advertised().iter().map(|s| s.as_str()).collect();
    let (a, p) = negotiate(&["text/plain"], &advertised);
    assert!(matches!(a, PasteAction::Finish));
    assert_eq!(p.phase(), PastePhase::Completed);
}

#[test]
fn round_trip_fetches_copied_type() {
    let mut c = CopySession::new(strings(&["text/html", "text/x-foo", "text/plain"]));
    let advertised: Vec<&str> = c.advertised().iter().map(|s| s.as_str()).collect();
    let (a, p) = negotiate(&["text/x-foo"], &advertised);
    assert_eq!(fetched(&a), Some((7, String::from("text/x-foo"))));
    assert_eq!(p.phase(), PastePhase::Transferring);
    let r = c.step(SourceEvent::Send { mime_type: String::from("text/x-foo") });
    assert_eq!(r, CopyAction::ServeAll);
}

#[test]
fn preference_order_wins_in_either_order() {
    let (a, _) = negotiate(&["text/html", "text/plain"], &["text/html", "text/plain"]);
    let (b, _) = negotiate(&["text/html", "text/plain"], &["text/plain", "text/html"]);
    assert_eq!(fetched(&a), Some((7, String::from("text/html"))));
    assert_eq!(fetched(&b), Some((7, String::from("text/html"))));
}

#[test]
fn default_copy_then_default_paste() {
    let c = CopySession::new(Vec::new());
    let advertised: Vec<&str> = c.advertised().iter().map(|s| s.as_str()).collect();
    let (a, mut p) = negotiate(&[], &advertised);
    assert_eq!(fetched(&a), Some((7, String::from("text/plain;charset=utf-8"))));
    assert!(!p.is_finished());
    assert!(matches!(p.step(DeviceEvent::TransferDone), PasteAction::Finish));
    assert!(p.is_finished());
}

#[test]
fn no_selection_finishes_at_once() {
    let mut p = PasteSession::new(Vec::new());
    assert_eq!(p.phase(), PastePhase::Idle);
    assert!(matches!(p.step(DeviceEvent::Selection { id: None }), PasteAction::Finish));
    assert!(p.is_finished());
    assert!(matches!(p.step(DeviceEvent::TransferDone), PasteAction::Wait));
}

#[test]
fn newer_offer_supersedes_older() {
    let mut p = PasteSession::new(strings(&["a", "b"]));
    p.step(DeviceEvent::DataOffer { id: 1 });
    p.step(offer(1, "a"));
    assert_eq!(p.best_match(), Some(0));
    p.step(DeviceEvent::DataOffer { id: 2 });
    assert_eq!(p.best_match(), None);
    p.step(offer(1, "a"));
    assert_eq!(p.best_match(), None);
    p.step(offer(2, "b"));
    assert_eq!(p.best_match(), Some(1));
    let a = p.step(DeviceEvent::Selection { id: Some(2) });
    assert_eq!(fetched(&a), Some((2, String::from("b"))));
}

#[test]
fn selection_of_unknown_offer_finishes() {
    let mut p = PasteSession::new(strings(&["a"]));
    p.step(DeviceEvent::DataOffer { id: 1 });
    p.step(offer(1, "a"));
    assert!(matches!(p.step(DeviceEvent::Selection { id: Some(9) }), PasteAction::Finish));
}

#[test]
fn events_during_transfer_are_ignored() {
    let (a, mut p) = negotiate(&["a"], &["a"]);
    assert!(fetched(&a).is_some());
    assert!(matches!(p.step(DeviceEvent::DataOffer { id: 8 }), PasteAction::Wait));
    assert!(matches!(p.step(DeviceEvent::Selection { id: None }), PasteAction::Wait));
    assert_eq!(p.phase(), PastePhase::Transferring);
    assert_eq!(p.best_match(), Some(0));
}

#[test]
fn copy_serves_every_request() {
    let mut c = CopySession::new(strings(&["text/plain"]));
    assert!(!c.is_finished());
    assert_eq!(c.step(SourceEvent::Send { mime_type: String::from("image/png") }), CopyAction::ServeAll);
    assert_eq!(c.step(SourceEvent::Send { mime_type: String::from("text/plain") }), CopyAction::ServeAll);
    assert!(!c.is_finished());
    assert_eq!(c.step(SourceEvent::Filled { ok: true }), CopyAction::Wait);
    assert!(c.is_finished());
    assert_eq!(c.step(SourceEvent::Filled { ok: true }), CopyAction::Wait);
    assert_eq!(c.step(SourceEvent::Send { mime_type: String::from("text/plain") }), CopyAction::ServeAll);
}

#[test]
fn copy_failed_fill_keeps_owning() {
    let mut c = CopySession::new(strings(&["text/plain"]));
    assert_eq!(c.step(SourceEvent::Send { mime_type: String::from("text/plain") }), CopyAction::ServeAll);
    assert_eq!(c.step(SourceEvent::Filled { ok: false }), CopyAction::Wait);
    assert!(!c.is_finished());
    assert_eq!(c.step(SourceEvent::Send { mime_type: String::from("text/plain") }), CopyAction::ServeAll);
    c.step(SourceEvent::Filled { ok: true });
    assert!(c.is_finished());
}

#[test]
fn copy_stops_when_superseded() {
    let mut c = CopySession::new(strings(&["text/plain"]));
    assert_eq!(c.step(SourceEvent::Cancelled), CopyAction::Wait);
    assert!(c.is_finished());
    assert_eq!(c.step(SourceEvent::Send { mime_type: String::from("text/plain") }), CopyAction::Decline);
}
