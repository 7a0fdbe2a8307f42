use std::cell::RefCell;
use std::rc::Rc;

use workflow_nw::callback::{AsCallback, Callback, CallbackMap, CallbackNoResult};
use workflow_nw::error::Error;
use workflow_nw::payload::{FromPayload, MouseEvent, Payload};

#[test]
fn callback_invoked_zero_one_and_many_times() {
    let count = Rc::new(RefCell::new(0u32));
    let counter = count.clone();
    let mut map = CallbackMap::new();
    let id = map.insert(Box::new(Callback::new(move |_p: Payload| -> Result<(), Error> {
        *counter.borrow_mut() += 1;
        Ok(())
    })));

    // Zero invocations: registering alone runs nothing.
    assert_eq!(*count.borrow(), 0);

    // One invocation runs the handler exactly once.
    assert_eq!(map.get(id).unwrap().call_with(Payload::Null), Ok(()));
    assert_eq!(*count.borrow(), 1);

    // Many invocations: no one-shot consumption, each call behaves like the
    // first, until the callback is explicitly removed.
    for _ in 0..10 {
        assert_eq!(map.get(id).unwrap().call_with(Payload::Null), Ok(()));
    }
    assert_eq!(*count.borrow(), 11);

    map.remove(id);
    assert!(map.get(id).is_none());
    assert_eq!(*count.borrow(), 11);
}

#[test]
fn handler_sees_each_payload() {
    let seen = Rc::new(RefCell::new(Vec::new()));
    let sink = seen.clone();
    let handler = Callback::new(move |p: MouseEvent| -> Result<(), Error> {
        sink.borrow_mut().push((p.x, p.y));
        Ok(())
    });
    assert_eq!(handler.call(MouseEvent { x: 1, y: 2 }), Ok(()));
    assert_eq!(handler.call(MouseEvent { x: 3, y: 4 }), Ok(()));
    assert_eq!(*seen.borrow(), vec![(1, 2), (3, 4)]);
}

#[test]
fn decode_failure_is_surfaced_for_result_bearing_handlers() {
    let handler = Callback::new(|_p: MouseEvent| -> Result<(), Error> { Ok(()) });
    let boxed: Box<dyn AsCallback> = Box::new(handler);
    assert_eq!(boxed.call_with(Payload::Mouse { x: 5, y: 6 }), Ok(()));
    assert_eq!(boxed.call_with(Payload::Null), Err(Error::DecodeFailure));
    assert_eq!(boxed.call_with(Payload::Bool(true)), Err(Error::DecodeFailure));
}

#[test]
fn decode_failure_is_swallowed_for_fire_and_forget_handlers() {
    let count = Rc::new(RefCell::new(0u32));
    let counter = count.clone();
    let handler = CallbackNoResult::new(move |_p: MouseEvent| {
        *counter.borrow_mut() += 1;
    });
    let boxed: Box<dyn AsCallback> = Box::new(handler);
    // A payload that does not decode is a no-op, not an error, and the
    // wrapped handler does not run.
    assert_eq!(boxed.call_with(Payload::Null), Ok(()));
    assert_eq!(*count.borrow(), 0);
    assert_eq!(boxed.call_with(Payload::Mouse { x: 0, y: 0 }), Ok(()));
    assert_eq!(*count.borrow(), 1);
}

#[test]
fn handler_errors_pass_through() {
    let handler = Callback::new(|_p: Payload| -> Result<(), Error> { Err(Error::HostRejected) });
    assert_eq!(handler.call(Payload::Null), Err(Error::HostRejected));
    let boxed: Box<dyn AsCallback> = Box::new(handler);
    assert_eq!(boxed.call_with(Payload::Null), Err(Error::HostRejected));
}

#[test]
fn payload_decoding_shapes() {
    assert_eq!(
        MouseEvent::from_payload(Payload::Mouse { x: 7, y: 8 }),
        Ok(MouseEvent { x: 7, y: 8 })
    );
    assert_eq!(MouseEvent::from_payload(Payload::Text("x".to_string())), Err(Error::DecodeFailure));
    // The raw payload decodes to itself.
    assert_eq!(Payload::from_payload(Payload::Bool(true)), Ok(Payload::Bool(true)));
}

#[test]
fn error_messages() {
    assert_eq!(Error::NotInitialized.message(), "app is not initialized");
    assert_eq!(Error::LockPoisoned.message(), "lock is poisoned");
    assert_eq!(Error::HostRejected.message(), "host rejected the request");
    assert_eq!(Error::DecodeFailure.message(), "callback payload could not be decoded");
}
