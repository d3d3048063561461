//! The foreign runtime, seen from the bridge.
//!
//! The bridge never touches foreign memory itself. Every operation that needs
//! the runtime hands back a [`ForeignCall`]: a plain description of one
//! primitive and its arguments, which the embedding program performs. Where
//! the runtime answers, the call comes inside a [`Request`], which names the
//! type of the answer and takes it in. What the bridge relies on of the
//! runtime's own bookkeeping is written down here as specification functions
//! over [`Call`], the mathematical view of a call.
use crate::objc::{optional_view, Argument, Notification, NotificationView, Selector};
use std::marker::PhantomData;
use vstd::prelude::*;

verus! {

/// One primitive of the foreign runtime together with its arguments, to be
/// performed by the embedding program. Objects are named by their addresses.
#[must_use]
#[derive(Debug, PartialEq, Eq)]
pub enum ForeignCall {
    /// Add one to the object's retain count.
    Retain { handle: usize },
    /// Take one from the object's retain count; at zero the runtime destroys
    /// the object.
    Release { handle: usize },
    /// Ask whether the runtime considers the two objects equal.
    Equal { left: usize, right: usize },
    /// Ask for the object's hash code.
    Hash { handle: usize },
    /// Ask for the identifier of the object's type.
    GetTypeId { handle: usize },
    /// Ask for the object's retain count.
    GetRetainCount { handle: usize },
    /// Ask whether the object declares support for the message.
    RespondsTo { handle: usize, message: Selector },
    /// Send the message with its payload and wait for the result.
    SendMessage { handle: usize, message: Selector, payload: Vec<Argument> },
    /// Send the message with its payload, and with it the notification that
    /// the runtime is to deliver on completion, if there is one.
    SendMessageWithNotification {
        handle: usize,
        message: Selector,
        payload: Vec<Argument>,
        notification: Option<Notification>,
    },
}

/// The mathematical view of a [`ForeignCall`].
pub enum Call {
    Retain { handle: usize },
    Release { handle: usize },
    Equal { left: usize, right: usize },
    Hash { handle: usize },
    GetTypeId { handle: usize },
    GetRetainCount { handle: usize },
    RespondsTo { handle: usize, message: Seq<char> },
    SendMessage { handle: usize, message: Seq<char>, payload: Seq<Argument> },
    SendMessageWithNotification {
        handle: usize,
        message: Seq<char>,
        payload: Seq<Argument>,
        notification: Option<NotificationView>,
    },
}

impl View for ForeignCall {
    type V = Call;

    open spec fn view(&self) -> Call {
        match *self {
            ForeignCall::Retain { handle } => Call::Retain { handle },
            ForeignCall::Release { handle } => Call::Release { handle },
            ForeignCall::Equal { left, right } => Call::Equal { left, right },
            ForeignCall::Hash { handle } => Call::Hash { handle },
            ForeignCall::GetTypeId { handle } => Call::GetTypeId { handle },
            ForeignCall::GetRetainCount { handle } => Call::GetRetainCount { handle },
            ForeignCall::RespondsTo { handle, message } => Call::RespondsTo {
                handle,
                message: message@,
            },
            ForeignCall::SendMessage { handle, message, payload } => Call::SendMessage {
                handle,
                message: message@,
                payload: payload@,
            },
            ForeignCall::SendMessageWithNotification {
                handle,
                message,
                payload,
                notification,
            } => Call::SendMessageWithNotification {
                handle,
                message: message@,
                payload: payload@,
                notification: optional_view(notification),
            },
        }
    }
}

/// A call that the runtime answers: the call to perform, and in `T` the type
/// of what it gives back.
#[must_use]
#[derive(Debug)]
pub struct Request<T> {
    call: ForeignCall,
    answer: PhantomData<T>,
}

impl<T> View for Request<T> {
    type V = Call;

    closed spec fn view(&self) -> Call {
        self.call@
    }
}

impl<T> Request<T> {
    pub(crate) fn new(call: ForeignCall) -> (request: Request<T>)
        ensures
            request@ == call@,
    {
        Request { call, answer: PhantomData }
    }

    /// The call to perform.
    pub fn call(&self) -> (call: &ForeignCall)
        ensures
            call@ == self@,
    {
        &self.call
    }

    /// Ends the request with the runtime's answer. The bridge adds nothing
    /// to an answer and takes nothing from it, a failure that the runtime
    /// reports included: what was asked for is what the runtime said.
    pub fn replied(self, answer: T) -> (result: T)
        ensures
            result == answer,
    {
        answer
    }
}

/// The retain count that the runtime reports for the object at `handle` once
/// it has performed `call`, where it reported `count` before. A retain of
/// that object adds one and a release of it takes one away; a query, and a
/// call on another object, change nothing. An object whose count is zero has
/// been destroyed, and nothing brings it back.
///
/// What a message does to the counts lies with the method that receives it.
/// For a message this is the count as the bridge leaves it: unchanged.
pub open spec fn count_after(count: nat, handle: usize, call: Call) -> nat {
    if count == 0 {
        0
    } else if call == (Call::Retain { handle }) {
        count + 1
    } else if call == (Call::Release { handle }) {
        (count - 1) as nat
    } else {
        count
    }
}

/// Whether `call` adds one to the retain count of the object at `handle`,
/// whatever the count of that live object was.
pub open spec fn increments(call: Call, handle: usize) -> bool {
    forall|count: nat| count > 0 ==> #[trigger] count_after(count, handle, call) == count + 1
}

/// Whether `call` takes one from the retain count of the object at `handle`,
/// whatever the count of that live object was.
pub open spec fn decrements(call: Call, handle: usize) -> bool {
    forall|count: nat| count > 0 ==> #[trigger] count_after(count, handle, call) == count - 1
}

/// What the bridge relies on of a runtime's answers to the identity queries:
/// which pairs of objects it considers equal, and the hash code it gives for
/// each object.
pub struct IdentityAnswers {
    pub equal: spec_fn(usize, usize) -> bool,
    pub hash: spec_fn(usize) -> usize,
}

impl IdentityAnswers {
    /// The runtime's own promise: every object equals itself, and objects
    /// that it considers equal have one hash code.
    pub open spec fn consistent(self) -> bool {
        &&& forall|a: usize| #[trigger] (self.equal)(a, a)
        &&& forall|a: usize, b: usize| #[trigger]
            (self.equal)(a, b) ==> (self.hash)(a) == (self.hash)(b)
    }

    /// The runtime's answer to an equality query.
    pub open spec fn says_equal(self, call: Call) -> bool
        recommends
            call is Equal,
    {
        (self.equal)(call->left, call->right)
    }

    /// The runtime's answer to a hash query.
    pub open spec fn says_hash(self, call: Call) -> usize
        recommends
            call is Hash,
    {
        (self.hash)(call->Hash_handle)
    }
}

} // verus!
