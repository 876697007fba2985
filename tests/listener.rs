use hotkey::listener::notification_id;
use hotkey::{keys, modifiers, Listener, ListenerID};
use std::cell::RefCell;
use std::rc::Rc;

type Callback = Box<dyn Fn()>;

fn accept(_id: ListenerID, _modifiers: u32, _key: u32) -> bool {
    true
}

fn refuse(_id: ListenerID, _modifiers: u32, _key: u32) -> bool {
    false
}

fn noop() -> Callback {
    Box::new(|| {})
}

fn logging(log: &Rc<RefCell<Vec<char>>>, tag: char) -> Callback {
    let log = Rc::clone(log);
    Box::new(move || log.borrow_mut().push(tag))
}

#[test]
fn new_listener_is_empty() {
    let l: Listener<Callback> = Listener::new();
    assert_eq!(l.registered_count(), 0);
    assert!(!l.is_registered(1));
}

#[test]
fn successful_registrations_get_increasing_ids() {
    let mut l: Listener<Callback> = Listener::new();
    let mut ids = Vec::new();
    for key in [keys::ENTER, keys::TAB, keys::ESCAPE, keys::HOME] {
        ids.push(l.register_hotkey(modifiers::CONTROL, key, noop(), accept).unwrap());
    }
    assert_eq!(ids, vec![1, 2, 3, 4]);
    assert_eq!(l.registered_count(), 4);
}

#[test]
fn refused_attempt_consumes_its_id() {
    let mut l: Listener<Callback> = Listener::new();
    let first = l.register_hotkey(modifiers::ALT, keys::HOME, noop(), accept);
    let second = l.register_hotkey(modifiers::ALT, keys::END, noop(), refuse);
    let third = l.register_hotkey(modifiers::ALT, keys::INSERT, noop(), accept);
    assert_eq!(first, Ok(1));
    assert!(second.is_err());
    assert_eq!(third, Ok(3));
    assert!(l.is_registered(1));
    assert!(!l.is_registered(2));
    assert!(l.is_registered(3));
}

#[test]
fn refused_claim_reports_error_and_leaves_registry() {
    let mut l: Listener<Callback> = Listener::new();
    l.register_hotkey(modifiers::SHIFT, keys::TAB, noop(), accept).unwrap();
    let before = l.registered_count();
    let r = l.register_hotkey(modifiers::SHIFT, keys::SPACEBAR, noop(), refuse);
    assert_eq!(r, Err("Failed to register hotkey".to_string()));
    assert_eq!(l.registered_count(), before);
    assert!(!l.is_registered(2));
}

#[test]
fn claim_gets_exact_id_modifiers_and_key_once() {
    let calls: Rc<RefCell<Vec<(ListenerID, u32, u32)>>> = Rc::new(RefCell::new(Vec::new()));
    let mut l: Listener<Callback> = Listener::new();
    let rec = Rc::clone(&calls);
    let r = l.register_hotkey(
        modifiers::CONTROL | modifiers::ALT,
        keys::DELETE,
        noop(),
        move |id, m, k| {
            rec.borrow_mut().push((id, m, k));
            true
        },
    );
    assert_eq!(r, Ok(1));
    assert_eq!(*calls.borrow(), vec![(1, modifiers::CONTROL | modifiers::ALT, keys::DELETE)]);
    let rec = Rc::clone(&calls);
    let r = l.register_hotkey(modifiers::SUPER, keys::ARROW_LEFT, noop(), move |id, m, k| {
        rec.borrow_mut().push((id, m, k));
        false
    });
    assert!(r.is_err());
    assert_eq!(calls.borrow().len(), 2);
    assert_eq!(calls.borrow()[1], (2, modifiers::SUPER, keys::ARROW_LEFT));
}

#[test]
fn dispatch_fires_matching_callbacks_in_order() {
    let log = Rc::new(RefCell::new(Vec::new()));
    let mut l: Listener<Callback> = Listener::new();
    assert_eq!(l.register_hotkey(modifiers::ALT, keys::ARROW_UP, logging(&log, 'A'), accept), Ok(1));
    assert_eq!(l.register_hotkey(modifiers::ALT, keys::ARROW_DOWN, logging(&log, 'B'), accept), Ok(2));
    let fired = l.listen(&[1, 2, 1, 99]);
    assert_eq!(fired, vec![1, 2, 1]);
    assert_eq!(*log.borrow(), vec!['A', 'B', 'A']);
}

#[test]
fn dispatch_ignores_foreign_stale_and_malformed_notifications() {
    let log = Rc::new(RefCell::new(Vec::new()));
    let mut l: Listener<Callback> = Listener::new();
    l.register_hotkey(0, keys::PRINT_SCREEN, logging(&log, 'P'), accept).unwrap();
    l.register_hotkey(0, keys::CAPS_LOCK, logging(&log, 'C'), refuse).unwrap_err();
    assert_eq!(l.dispatch(0), None);
    assert_eq!(l.dispatch(2), None);
    assert_eq!(l.dispatch(7), None);
    assert_eq!(l.dispatch(1usize << 40 | 1), None);
    assert!(log.borrow().is_empty());
    assert_eq!(l.dispatch(1), Some(1));
    assert_eq!(*log.borrow(), vec!['P']);
}

#[test]
fn listen_handles_each_notification_once() {
    let log = Rc::new(RefCell::new(Vec::new()));
    let mut l: Listener<Callback> = Listener::new();
    l.register_hotkey(0, keys::PAGE_UP, logging(&log, 'U'), accept).unwrap();
    l.register_hotkey(0, keys::PAGE_DOWN, logging(&log, 'D'), accept).unwrap();
    let fired = l.listen(&[2, 0, 2, 3, 1, 2]);
    assert_eq!(fired, vec![2, 2, 1, 2]);
    assert_eq!(*log.borrow(), vec!['D', 'D', 'U', 'D']);
}

#[test]
fn listen_on_empty_stream_fires_nothing() {
    let log = Rc::new(RefCell::new(Vec::new()));
    let mut l: Listener<Callback> = Listener::new();
    l.register_hotkey(0, keys::BACKSPACE, logging(&log, 'X'), accept).unwrap();
    assert!(l.listen(&[]).is_empty());
    assert!(log.borrow().is_empty());
}

#[test]
fn listen_on_empty_registry_fires_nothing() {
    let l: Listener<Callback> = Listener::new();
    assert!(l.listen(&[1, 2, 3]).is_empty());
}

#[test]
fn notification_payload_decoding() {
    assert_eq!(notification_id(0), None);
    assert_eq!(notification_id(1), Some(1));
    assert_eq!(notification_id(99), Some(99));
    assert_eq!(notification_id(i32::MAX as usize), Some(i32::MAX));
    assert_eq!(notification_id(i32::MAX as usize + 1), None);
    assert_eq!(notification_id(usize::MAX), None);
}

#[test]
fn vocabulary_values() {
    assert_eq!(
        [modifiers::ALT, modifiers::CONTROL, modifiers::SHIFT, modifiers::SUPER],
        [1, 2, 4, 8]
    );
    assert_eq!(keys::BACKSPACE, 8);
    assert_eq!(keys::ENTER, 13);
    assert_eq!(keys::SPACEBAR, 32);
    assert_eq!(keys::ARROW_LEFT, 37);
    assert_eq!(keys::DELETE, 46);
}
