use closeevent::closeevent::{CloseEvent, CloseEventInit, EventInit};
use closeevent::event::{Error, Event, EventBubbles, EventCancelable};
use closeevent::realm::Realm;

fn init_of(bubbles: bool, cancelable: bool, was_clean: bool, code: u16, reason: &str) -> CloseEventInit {
    CloseEventInit {
        parent: EventInit { bubbles, cancelable },
        was_clean,
        code,
        reason: reason.to_string(),
    }
}

#[test]
fn script_constructor_with_clean_close() {
    let mut realm = Realm::new();
    let init = CloseEventInit {
        was_clean: true,
        code: 1000,
        reason: "normal".to_string(),
        ..CloseEventInit::default()
    };
    let root = CloseEvent::Constructor(&mut realm, "close".to_string(), &init).unwrap();
    let ev = realm.get(root);
    assert!(ev.WasClean());
    assert_eq!(ev.Code(), 1000);
    assert_eq!(ev.Reason(), "normal");
    assert!(!ev.IsTrusted());
    assert_eq!(ev.upcast().Type(), "close");
}

#[test]
fn script_constructor_with_defaults() {
    let mut realm = Realm::new();
    let root = CloseEvent::Constructor(&mut realm, "close".to_string(), &CloseEventInit::default()).unwrap();
    let ev = realm.get(root);
    assert!(!ev.WasClean());
    assert_eq!(ev.Code(), 0);
    assert_eq!(ev.Reason(), "");
    assert!(!ev.IsTrusted());
    assert!(!ev.upcast().Bubbles());
    assert!(!ev.upcast().Cancelable());
    assert!(ev.upcast().is_initialized());
}

#[test]
fn init_defaults() {
    let init = CloseEventInit::default();
    assert!(!init.parent.bubbles);
    assert!(!init.parent.cancelable);
    assert!(!init.was_clean);
    assert_eq!(init.code, 0);
    assert!(init.reason.is_empty());
    let base = EventInit::default();
    assert!(!base.bubbles && !base.cancelable);
}

#[test]
fn native_factory_bubbles_and_stays_frozen() {
    let mut realm = Realm::new();
    let root = CloseEvent::new(
        &mut realm,
        "close".to_string(),
        EventBubbles::Bubbles,
        EventCancelable::NotCancelable,
        false,
        1006,
        "gone".to_string(),
    );
    assert!(realm.get(root).upcast().Bubbles());
    assert!(!realm.get(root).upcast().Cancelable());
    assert_eq!(
        realm.init_event(root, "other".to_string(), false, true),
        Err(Error::InvalidState)
    );
    let ev = realm.get(root);
    assert!(ev.upcast().Bubbles());
    assert!(!ev.upcast().Cancelable());
    assert_eq!(ev.upcast().Type(), "close");
    assert_eq!(ev.Code(), 1006);
    assert_eq!(ev.Reason(), "gone");
}

#[test]
fn round_trip_over_many_inputs() {
    let mut realm = Realm::new();
    let reasons = ["", "normal", "going away", "π ≠ 3"];
    let codes: [u16; 5] = [0, 1, 1000, 4999, u16::MAX];
    let mut roots = Vec::new();
    for &bubbles in &[false, true] {
        for &cancelable in &[false, true] {
            for &was_clean in &[false, true] {
                for &code in &codes {
                    for reason in &reasons {
                        let init = init_of(bubbles, cancelable, was_clean, code, reason);
                        let root = CloseEvent::Constructor(&mut realm, "close".to_string(), &init).unwrap();
                        roots.push((root, bubbles, cancelable, was_clean, code, *reason));
                    }
                }
            }
        }
    }
    assert_eq!(realm.len(), roots.len());
    for (root, bubbles, cancelable, was_clean, code, reason) in roots {
        let ev = realm.get(root);
        assert_eq!(ev.WasClean(), was_clean);
        assert_eq!(ev.Code(), code);
        assert_eq!(ev.Reason(), reason);
        assert!(!ev.IsTrusted());
        assert_eq!(ev.upcast().Bubbles(), bubbles);
        assert_eq!(ev.upcast().Cancelable(), cancelable);
    }
}

#[test]
fn reason_is_a_copy() {
    let mut realm = Realm::new();
    let mut source = "done".to_string();
    let init = init_of(false, false, true, 1000, &source);
    let root = CloseEvent::Constructor(&mut realm, "close".to_string(), &init).unwrap();
    source.push_str(" and more");
    let mut first = realm.get(root).Reason();
    let second = realm.get(root).Reason();
    assert_eq!(first, second);
    first.push('!');
    assert_eq!(realm.get(root).Reason(), "done");
    assert_eq!(second, "done");
}

#[test]
fn second_init_event_fails_every_time() {
    let mut event = Event::new_inherited();
    assert!(!event.is_initialized());
    assert_eq!(event.init_event("message".to_string(), true, false), Ok(()));
    for _ in 0..3 {
        assert_eq!(event.init_event("close".to_string(), false, true), Err(Error::InvalidState));
        assert_eq!(event.Type(), "message");
        assert!(event.Bubbles());
        assert!(!event.Cancelable());
    }
}

#[test]
fn init_event_on_close_event_record() {
    let mut record = CloseEvent::new_inherited(true, 1001, "away".to_string());
    assert!(!record.upcast().is_initialized());
    assert_eq!(record.init_event("close".to_string(), false, true), Ok(()));
    assert!(record.upcast().Cancelable());
    assert_eq!(record.init_event("x".to_string(), true, false), Err(Error::InvalidState));
    assert!(!record.upcast().Bubbles());
    assert_eq!(record.upcast().Type(), "close");
    assert!(record.WasClean());
    assert_eq!(record.Code(), 1001);
}

#[test]
fn trust_is_set_only_by_native_code() {
    let mut event = Event::new_inherited();
    assert!(!event.IsTrusted());
    event.set_trusted(true);
    assert!(event.IsTrusted());
    event.set_trusted(false);
    assert!(!event.IsTrusted());

    let mut realm = Realm::new();
    let init = init_of(true, true, true, 1000, "x");
    let root = CloseEvent::Constructor(&mut realm, "close".to_string(), &init).unwrap();
    assert!(!realm.get(root).IsTrusted());
}

#[test]
fn handles_are_stable_and_distinct() {
    let mut realm = Realm::new();
    assert_eq!(realm.len(), 0);
    let a = CloseEvent::Constructor(&mut realm, "close".to_string(), &init_of(false, false, false, 1, "a")).unwrap();
    let b = CloseEvent::Constructor(&mut realm, "close".to_string(), &init_of(false, false, false, 2, "b")).unwrap();
    assert_ne!(a, b);
    assert_eq!(a.index(), 0);
    assert_eq!(b.index(), 1);
    assert!(realm.contains(a) && realm.contains(b));
    let copy = a;
    assert_eq!(realm.get(copy).Code(), 1);
    assert_eq!(realm.get(a).Code(), 1);
    assert_eq!(realm.get(b).Code(), 2);

    let mut other = Realm::new();
    assert!(!other.contains(b));
    let c = other.reflect(CloseEvent::new_inherited(false, 7, String::new()));
    assert_eq!(c.index(), 0);
    assert!(!other.get(c).upcast().is_initialized());
}

#[test]
fn event_type_is_kept_as_given() {
    let mut realm = Realm::new();
    let long = "a-close-event-type-name-longer-than-an-inline-atom".to_string();
    let r1 = CloseEvent::Constructor(&mut realm, long.clone(), &CloseEventInit::default()).unwrap();
    let r2 = CloseEvent::Constructor(&mut realm, String::new(), &CloseEventInit::default()).unwrap();
    assert_eq!(realm.get(r1).upcast().Type(), long);
    assert_eq!(realm.get(r2).upcast().Type(), "");
}
