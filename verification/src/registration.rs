//! The registration paths that bind a host object to its callback in one
//! step: each operation wraps the given closure, registers the wrapper, and
//! describes what the host must wire up, so that no native object is ever
//! produced without its own callback being retained.

use vstd::prelude::*;

use crate::application::{
    app_registered_one, Application, ContextMenuHandler, ContextMenuRequest, EventSubscription,
    Window, WindowOpenRequest,
};
use crate::callback::{AsCallback, Callback, CallbackId};
use crate::error::Error;
use crate::menu::{Menu, MenuItem};
use crate::options::Options;
use crate::payload::{FromPayload, MouseEvent, Payload};

verus! {

/// The application registered, under the freshly minted `id`, exactly one
/// entry, and that entry owns a handler that wraps `f` and reports failures:
/// invoking it on a payload that decodes to the expected type answers within
/// `f`'s own contract, and on any other payload answers exactly the decode
/// failure. Nothing else about the application changed.
pub open spec fn registered_result_wrapper<P: FromPayload, F: Fn(P) -> Result<(), Error>>(
    a0: Application,
    a1: Application,
    id: CallbackId,
    f: F,
) -> bool {
    &&& id.id == a0.callbacks.spec_next_id()
    &&& !a0.callbacks@.contains_key(id.id)
    &&& a1.callbacks.spec_next_id() == a0.callbacks.spec_next_id() + 1
    &&& a1.media_stream == a0.media_stream
    &&& exists|h: Box<dyn AsCallback>|
        {
            &&& a1.callbacks@ == #[trigger] a0.callbacks@.insert(id.id, h)
            &&& (forall|p: Payload, res: Result<(), Error>| #[trigger] h.admits(p, res) <==> (
            match P::spec_from_payload(p) {
                Ok(v) => call_ensures(f, (v,), res),
                Err(e) => res == Err::<(), Error>(e),
            }))
        }
}

/// The application registered, under the freshly minted `id`, exactly one
/// entry, and that entry owns a fire-and-forget handler that wraps `f`:
/// invoking it always answers success, and on a payload that decodes to the
/// expected type it also ran `f` once. Nothing else about the application
/// changed.
pub open spec fn registered_fire_and_forget<P: FromPayload, F: Fn(P)>(
    a0: Application,
    a1: Application,
    id: CallbackId,
    f: F,
) -> bool {
    &&& id.id == a0.callbacks.spec_next_id()
    &&& !a0.callbacks@.contains_key(id.id)
    &&& a1.callbacks.spec_next_id() == a0.callbacks.spec_next_id() + 1
    &&& a1.media_stream == a0.media_stream
    &&& exists|h: Box<dyn AsCallback>|
        {
            &&& a1.callbacks@ == #[trigger] a0.callbacks@.insert(id.id, h)
            &&& (forall|p: Payload, res: Result<(), Error>| #[trigger] h.admits(p, res) <==> (res
                == Ok::<(), Error>(()) && (match P::spec_from_payload(p) {
                Ok(v) => call_ensures(f, (v,), ()),
                Err(_) => true,
            })))
        }
}

/// The application registered, under the freshly minted `id`, exactly one
/// entry, and that entry owns the context-menu popup handler: invoking it on
/// a mouse-event payload answers success, and on any other payload answers
/// exactly the decode failure. Nothing else about the application changed.
pub open spec fn registered_popup_handler(
    a0: Application,
    a1: Application,
    id: CallbackId,
) -> bool {
    &&& id.id == a0.callbacks.spec_next_id()
    &&& !a0.callbacks@.contains_key(id.id)
    &&& a1.callbacks.spec_next_id() == a0.callbacks.spec_next_id() + 1
    &&& a1.media_stream == a0.media_stream
    &&& exists|h: Box<dyn AsCallback>|
        {
            &&& a1.callbacks@ == #[trigger] a0.callbacks@.insert(id.id, h)
            &&& (forall|p: Payload, res: Result<(), Error>| #[trigger] h.admits(p, res) <==> (
            match MouseEvent::spec_from_payload(p) {
                Ok(_) => res == Ok::<(), Error>(()),
                Err(e) => res == Err::<(), Error>(e),
            }))
        }
}

impl Application {
    /// Registers `callback` to receive the created window, and describes the
    /// window the host must open: `url` with this configuration, the callback
    /// attached. The callback is registered before the request is handed out,
    /// so the window can never exist without its callback being retained.
    #[verifier::spinoff_prover]
    pub fn create_window_with_callback<F>(
        &mut self,
        url: &str,
        options: Options,
        callback: F,
    ) -> (r: Result<WindowOpenRequest, Error>) where F: Fn(Window) -> Result<(), Error> + 'static
        requires
            forall|v: Window| call_requires(callback, (v,)),
            old(self).callbacks.wf(),
            old(self).callbacks.can_mint(),
        ensures
            final(self).callbacks.wf(),
            match r {
                Ok(req) => {
                    &&& req.url@ == url@
                    &&& req.options == options
                    &&& req.callback matches Some(id) && app_registered_one(
                        *old(self),
                        *final(self),
                        id,
                    ) && registered_result_wrapper::<Window, F>(
                        *old(self),
                        *final(self),
                        id,
                        callback,
                    )
                },
                Err(_) => false,
            },
    {
        let id = self.callbacks.insert(Callback::<Window, F>::boxed(callback));
        Ok(WindowOpenRequest { url: url.to_owned(), options, callback: Some(id) })
    }

    /// Describes the window the host must open: `url` with this
    /// configuration and no callback. Nothing is registered.
    pub fn create_window(url: &str, options: Options) -> (r: Result<WindowOpenRequest, Error>)
        ensures
            match r {
                Ok(req) => req.url@ == url@ && req.options == options && req.callback is None,
                Err(_) => false,
            },
    {
        Ok(WindowOpenRequest { url: url.to_owned(), options, callback: None })
    }

    /// Registers `callback` for the context-menu event of the window body and
    /// describes the subscription the host must wire up.
    #[verifier::spinoff_prover]
    pub fn on_context_menu<F>(&mut self, callback: F) -> (r: Result<EventSubscription, Error>) where
        F: Fn(MouseEvent) -> Result<(), Error> + 'static,

        requires
            forall|v: MouseEvent| call_requires(callback, (v,)),
            old(self).callbacks.wf(),
            old(self).callbacks.can_mint(),
        ensures
            final(self).callbacks.wf(),
            match r {
                Ok(sub) => sub.event@ == "contextmenu"@ && app_registered_one(
                    *old(self),
                    *final(self),
                    sub.callback,
                ) && registered_result_wrapper::<MouseEvent, F>(
                    *old(self),
                    *final(self),
                    sub.callback,
                    callback,
                ),
                Err(_) => false,
            },
    {
        let id = self.callbacks.insert(Callback::<MouseEvent, F>::boxed(callback));
        Ok(EventSubscription { event: "contextmenu".to_owned(), callback: id })
    }

    /// Builds a context menu from `menus`, in exactly that order, and
    /// registers the handler that pops it up on every context-menu event.
    #[verifier::spinoff_prover]
    pub fn create_context_menu(&mut self, menus: Vec<MenuItem>) -> (r: Result<
        ContextMenuRequest,
        Error,
    >)
        requires
            old(self).callbacks.wf(),
            old(self).callbacks.can_mint(),
        ensures
            final(self).callbacks.wf(),
            match r {
                Ok(req) => {
                    &&& req.menu.items@ == menus@
                    &&& req.subscription.event@ == "contextmenu"@
                    &&& app_registered_one(*old(self), *final(self), req.subscription.callback)
                    &&& registered_popup_handler(*old(self), *final(self), req.subscription.callback)
                },
                Err(_) => false,
            },
    {
        let menu = Menu { items: menus };
        let id = self.callbacks.insert(ContextMenuHandler::boxed());
        Ok(
            ContextMenuRequest {
                menu,
                subscription: EventSubscription { event: "contextmenu".to_owned(), callback: id },
            },
        )
    }
}

} // verus!
