//! Messages to foreign objects, and the guard that every one of them passes.
//!
//! An object of the foreign runtime may or may not declare support for a
//! message, and sending it one that it does not support is undefined. A
//! dispatch therefore starts with a probe and sends only on a positive answer:
//! [`NSObject::dispatch_sync`] and [`NSObject::dispatch_async_notify`] hand
//! back the probe together with a [`Dispatch`], and the request that sends
//! the message can only be had from [`Dispatch::probed`] by giving it the
//! runtime's answer.
use crate::core_foundation::cf_type::CFType;
use crate::runtime::{Call, ForeignCall, Request};
use vstd::prelude::*;

verus! {

/// An unsigned machine word, as the foreign runtime counts and indexes.
pub type NSUInteger = usize;

/// A message identifier: the name under which the foreign runtime resolves a
/// method of an object.
#[derive(Debug, PartialEq, Eq)]
pub struct Selector {
    name: String,
}

impl View for Selector {
    type V = Seq<char>;

    closed spec fn view(&self) -> Seq<char> {
        self.name@
    }
}

impl Clone for Selector {
    fn clone(&self) -> (copy: Self)
        ensures
            copy@ == self@,
    {
        Selector { name: self.name.clone() }
    }
}

impl Selector {
    /// The selector with the given name.
    pub fn new(name: &str) -> (selector: Selector)
        ensures
            selector@ == name@,
    {
        Selector { name: name.to_owned() }
    }

    /// The name, as the runtime is to be given it.
    pub fn name(&self) -> (name: &str)
        ensures
            name@ == self@,
    {
        self.name.as_str()
    }
}

/// One payload value of a message, in the order of the method's parameters.
#[derive(Clone, Copy, Debug, PartialEq, Eq)]
pub enum Argument {
    /// The address of a foreign object.
    Object(usize),
    /// An unsigned machine word.
    UnsignedInteger(usize),
}

/// Whom the runtime is to tell, and how, once a message's work has finished
/// out of band: it sends `completion` to `delegate` and hands `context` back.
#[derive(Debug, PartialEq, Eq)]
pub struct Notification {
    delegate: usize,
    completion: Selector,
    context: usize,
}

/// The mathematical view of a [`Notification`].
pub struct NotificationView {
    pub delegate: usize,
    pub completion: Seq<char>,
    pub context: usize,
}

impl View for Notification {
    type V = NotificationView;

    closed spec fn view(&self) -> NotificationView {
        NotificationView {
            delegate: self.delegate,
            completion: self.completion@,
            context: self.context,
        }
    }
}

/// The view of a notification that may be absent.
pub open spec fn optional_view(notification: Option<Notification>) -> Option<NotificationView> {
    match notification {
        Some(notification) => Some(notification@),
        None => None,
    }
}

impl Notification {
    /// The notification that has the runtime send `completion` to `delegate`
    /// and hand `context` back with it. The context is opaque to the bridge:
    /// it is stored and passed on as it came.
    pub fn new(
        delegate: &NSObject,
        completion: Selector,
        context: usize,
    ) -> (notification: Notification)
        ensures
            notification@ == (NotificationView {
                delegate: delegate.address(),
                completion: completion@,
                context,
            }),
    {
        Notification { delegate: delegate.object.address(), completion, context }
    }

    /// The address of the object that receives the completion message.
    pub fn delegate(&self) -> (delegate: usize)
        ensures
            delegate == self@.delegate,
    {
        self.delegate
    }

    /// The message sent to the delegate on completion.
    pub fn completion(&self) -> (completion: &Selector)
        ensures
            completion@ == self@.completion,
    {
        &self.completion
    }

    /// The context handed back with the completion message.
    pub fn context(&self) -> (context: usize)
        ensures
            context == self@.context,
    {
        self.context
    }
}

/// A foreign object that takes messages, borrowed from a wrapper that keeps
/// it alive.
#[derive(Debug)]
pub struct NSObject<'a> {
    object: &'a CFType,
}

impl<'a> NSObject<'a> {
    /// The object's address.
    pub closed spec fn address(&self) -> usize {
        self.object.address()
    }

    /// Looks at a borrowed object as one that takes messages.
    pub fn from_handle(object: &'a CFType) -> (this: NSObject<'a>)
        ensures
            this.address() == object.address(),
    {
        NSObject { object }
    }

    /// The object, as the runtime's base layer sees it.
    pub fn as_handle(&self) -> (object: &'a CFType)
        ensures
            object.address() == self.address(),
    {
        self.object
    }

    /// The payload value that passes this object to a method.
    pub fn as_argument(&self) -> (argument: Argument)
        ensures
            argument == Argument::Object(self.address()),
    {
        Argument::Object(self.object.address())
    }

    /// Asks whether the object declares support for `message`. The question
    /// changes nothing, and the runtime answers it for every message, with
    /// `false` for one that the object lacks.
    pub fn probe(&self, message: &Selector) -> (request: Request<bool>)
        ensures
            request@ == (Call::RespondsTo { handle: self.address(), message: message@ }),
    {
        Request::new(
            ForeignCall::RespondsTo { handle: self.object.address(), message: message.clone() },
        )
    }

    /// Begins a guarded invocation of `message` on this object, whose result
    /// is `unsupported` if the object lacks the message. The call returned is
    /// the probe; the runtime's answer to it goes to [`Dispatch::probed`].
    pub fn dispatch_sync<R>(
        &self,
        message: Selector,
        payload: Vec<Argument>,
        unsupported: R,
    ) -> (begun: (Dispatch<R>, Request<bool>))
        ensures
            begun.1@ == (Call::RespondsTo { handle: self.address(), message: message@ }),
            begun.0.send() == (Call::SendMessage {
                handle: self.address(),
                message: message@,
                payload: payload@,
            }),
            begun.0.unsupported() == unsupported,
    {
        let probe = self.probe(&message);
        let send = ForeignCall::SendMessage { handle: self.object.address(), message, payload };
        (Dispatch { send, unsupported }, probe)
    }

    /// Begins a guarded invocation of `message` on this object that returns
    /// nothing and, where `notification` is given, registers it for delivery
    /// once the work has finished out of band. If the object lacks the
    /// message, nothing is sent and nothing is registered. The call returned
    /// is the probe; the runtime's answer to it goes to [`Dispatch::probed`].
    pub fn dispatch_async_notify(
        &self,
        message: Selector,
        payload: Vec<Argument>,
        notification: Option<Notification>,
    ) -> (begun: (Dispatch<()>, Request<bool>))
        ensures
            begun.1@ == (Call::RespondsTo { handle: self.address(), message: message@ }),
            begun.0.send() == (Call::SendMessageWithNotification {
                handle: self.address(),
                message: message@,
                payload: payload@,
                notification: optional_view(notification),
            }),
    {
        let probe = self.probe(&message);
        let send = ForeignCall::SendMessageWithNotification {
            handle: self.object.address(),
            message,
            payload,
            notification,
        };
        (Dispatch { send, unsupported: () }, probe)
    }
}

/// A guarded invocation whose probe is out and not yet answered.
#[must_use]
#[derive(Debug)]
pub struct Dispatch<R> {
    send: ForeignCall,
    unsupported: R,
}

/// What a dispatch comes to once its probe is answered.
#[must_use]
#[derive(Debug)]
pub enum Outcome<R> {
    /// The object lacks the message. Nothing is sent; the dispatch is over and
    /// this is its result.
    Unsupported(R),
    /// The object supports the message. The request is to be performed, and
    /// the runtime's answer to it is the result of the dispatch.
    Forward(Request<R>),
}

impl<R> Dispatch<R> {
    /// The call that sends the message.
    pub closed spec fn send(&self) -> Call {
        self.send@
    }

    /// The result of the dispatch where the object lacks the message.
    pub closed spec fn unsupported(&self) -> R {
        self.unsupported
    }

    /// Decides the dispatch on the runtime's answer to the probe: with
    /// `supported` the message is sent, and without it no call is made and
    /// the result is the one named for that case.
    pub fn probed(self, supported: bool) -> (outcome: Outcome<R>)
        ensures
            supported ==> (outcome matches Outcome::Forward(request) && request@ == self.send()),
            !supported ==> outcome == Outcome::Unsupported(self.unsupported()),
    {
        if supported {
            Outcome::Forward(Request::new(self.send))
        } else {
            Outcome::Unsupported(self.unsupported)
        }
    }
}

} // verus!
