use vstd::prelude::*;

use crate::application::{registered_one, registered_two, Runtime};
use crate::callback::{AsCallback, Callback, CallbackId};
use crate::error::Error;
use crate::options::{pushed_text, Options, Value};
use crate::payload::Payload;

verus! {

/// A global keyboard shortcut: the configuration the host object is built
/// from, and the identities of its registered callbacks, as far as they were
/// attached.
pub struct Shortcut {
    pub options: Options,
    pub active: Option<CallbackId>,
    pub failed: Option<CallbackId>,
}

/// Builder for a global keyboard shortcut: the key, and two independent
/// pending handlers, one run when the shortcut fires and one when the host
/// fails to register the key.
pub struct ShortcutBuilder {
    pub options: Options,
    pub active_listener: Option<Box<dyn AsCallback>>,
    pub failed_listener: Option<Box<dyn AsCallback>>,
}

impl ShortcutBuilder {
    /// A builder with nothing configured.
    pub fn new() -> (r: Self)
        ensures
            r.options@ == Seq::<(Seq<char>, Value)>::empty(),
            r.active_listener is None,
            r.failed_listener is None,
    {
        ShortcutBuilder { options: Options::new(), active_listener: None, failed_listener: None }
    }

    fn set(self, key: &str, value: Value) -> (r: Self)
        ensures
            r.options@ == self.options@.push((key@, value)),
            r.active_listener == self.active_listener,
            r.failed_listener == self.failed_listener,
    {
        let ShortcutBuilder { options, active_listener, failed_listener } = self;
        ShortcutBuilder { options: options.set(key, value), active_listener, failed_listener }
    }

    /// Sets the key of the shortcut: zero or more modifiers and one key code,
    /// as the host understands them.
    pub fn key(self, key: &str) -> (r: Self)
        ensures
            pushed_text(self.options@, r.options@, "key"@, key@),
            r.active_listener == self.active_listener,
            r.failed_listener == self.failed_listener,
    {
        self.set("key", Value::Text(key.to_owned()))
    }

    /// Records the handler to run when the shortcut fires; building registers
    /// it.
    pub fn active<F>(self, callback: F) -> (r: Self) where
        F: Fn(Payload) -> Result<(), Error> + 'static,

        requires
            forall|v: Payload| call_requires(callback, (v,)),
        ensures
            r.options == self.options,
            r.active_listener is Some,
            r.failed_listener == self.failed_listener,
            (forall|payload: Payload, res: Result<(), Error>|
                #[trigger] r.active_listener.unwrap().admits(payload, res) <==> call_ensures(
                    callback,
                    (payload,),
                    res,
                )),
    {
        let ShortcutBuilder { options, active_listener: _, failed_listener } = self;
        ShortcutBuilder {
            options,
            active_listener: Some(Callback::<Payload, F>::boxed(callback)),
            failed_listener,
        }
    }

    /// Records the handler to run when the host rejects or fails to register
    /// the key; building registers it.
    pub fn failed<F>(self, callback: F) -> (r: Self) where
        F: Fn(Payload) -> Result<(), Error> + 'static,

        requires
            forall|v: Payload| call_requires(callback, (v,)),
        ensures
            r.options == self.options,
            r.active_listener == self.active_listener,
            r.failed_listener is Some,
            (forall|payload: Payload, res: Result<(), Error>|
                #[trigger] r.failed_listener.unwrap().admits(payload, res) <==> call_ensures(
                    callback,
                    (payload,),
                    res,
                )),
    {
        let ShortcutBuilder { options, active_listener, failed_listener: _ } = self;
        ShortcutBuilder {
            options,
            active_listener,
            failed_listener: Some(Callback::<Payload, F>::boxed(callback)),
        }
    }

    /// Builds the shortcut. Both pending handlers, independently optional,
    /// are registered with the application first, the active one before the
    /// failed one; before initialization that registration is refused and no
    /// shortcut is produced.
    pub fn build(self, rt: &mut Runtime) -> (r: Result<Shortcut, Error>)
        requires
            old(rt).wf(),
            old(rt).can_register(2),
        ensures
            final(rt).wf(),
            match r {
                Ok(sc) => {
                    &&& sc.options == self.options
                    &&& match (self.active_listener, self.failed_listener) {
                        (None, None) => *final(rt) == *old(rt) && sc.active is None && sc.failed
                            is None,
                        (Some(ha), None) => sc.failed is None && (sc.active matches Some(id)
                            && registered_one(*old(rt), *final(rt), ha, id)),
                        (None, Some(hf)) => sc.active is None && (sc.failed matches Some(id)
                            && registered_one(*old(rt), *final(rt), hf, id)),
                        (Some(ha), Some(hf)) => (sc.active matches Some(id1)) && (
                        sc.failed matches Some(id2)) && registered_two(
                            *old(rt),
                            *final(rt),
                            ha,
                            hf,
                            sc.active.unwrap(),
                            sc.failed.unwrap(),
                        ),
                    }
                },
                Err(e) => {
                    &&& e == Error::NotInitialized
                    &&& (self.active_listener is Some || self.failed_listener is Some)
                    &&& old(rt).app is None
                    &&& *final(rt) == *old(rt)
                },
            },
    {
        let ShortcutBuilder { options, active_listener, failed_listener } = self;
        if active_listener.is_some() || failed_listener.is_some() {
            match &mut rt.app {
                Some(a) => {
                    let active = match active_listener {
                        Some(h) => Some(a.callbacks.insert(h)),
                        None => None,
                    };
                    let failed = match failed_listener {
                        Some(h) => Some(a.callbacks.insert(h)),
                        None => None,
                    };
                    Ok(Shortcut { options, active, failed })
                },
                None => Err(Error::NotInitialized),
            }
        } else {
            Ok(Shortcut { options, active: None, failed: None })
        }
    }

    /// Builds the shortcut without registering the pending handlers, handing
    /// them back instead: the caller decides registration. The shortcut's
    /// callback identities are only assigned by that registration.
    pub fn finalize(self) -> (r: Result<
        (Shortcut, Option<Box<dyn AsCallback>>, Option<Box<dyn AsCallback>>),
        Error,
    >)
        ensures
            match r {
                Ok((sc, ha, hf)) => {
                    &&& sc.options == self.options
                    &&& sc.active is None
                    &&& sc.failed is None
                    &&& ha == self.active_listener
                    &&& hf == self.failed_listener
                },
                Err(_) => false,
            },
    {
        let ShortcutBuilder { options, active_listener, failed_listener } = self;
        Ok((Shortcut { options, active: None, failed: None }, active_listener, failed_listener))
    }
}

} // verus!
