use super::NSError;
use crate::objc::{
    optional_view, Argument, Dispatch, NSObject, NSUInteger, Notification, Selector,
};
use crate::runtime::{Call, Request};
use vstd::prelude::*;

verus! {

/// The name of the message that attempts a recovery in an application-modal
/// dialog.
pub const ATTEMPT_RECOVERY: &'static str = "attemptRecoveryFromError:optionIndex:";

/// The name of the message that attempts a recovery in a document-modal
/// sheet.
pub const ATTEMPT_RECOVERY_WITH: &'static str =
    "attemptRecoveryFromError:optionIndex:delegate:didRecoverSelector:contextInfo:";

/// A set of methods that provide options to recover from an error.
///
/// This informal protocol provides methods that allow an application to
/// attempt to recover from an error. They are invoked when an [`NSError`]
/// names the implementing object as its recovery attempter and the user has
/// selected one of the error's localized recovery options.
///
/// The method invoked depends on how the error is presented to the user:
///
/// - If the error is presented in a document-modal sheet,
///   [`attempt_recovery_with`](Self::attempt_recovery_with) is invoked.
///
/// - If the error is presented in an application-modal dialog,
///   [`attempt_recovery`](Self::attempt_recovery) is invoked.
///
/// The protocol is informal: an object may implement either method, both or
/// neither, so each invocation is guarded by a probe.
#[derive(Debug)]
pub struct NSErrorRecoveryAttempting<'a>(NSObject<'a>);

impl<'a> AsRef<NSObject<'a>> for NSErrorRecoveryAttempting<'a> {
    fn as_ref(&self) -> (object: &NSObject<'a>)
        ensures
            object.address() == self.address(),
    {
        &self.0
    }
}

impl<'a> std::ops::Deref for NSErrorRecoveryAttempting<'a> {
    type Target = NSObject<'a>;

    fn deref(&self) -> (object: &NSObject<'a>)
        ensures
            object.address() == self.address(),
    {
        &self.0
    }
}

impl<'a> NSErrorRecoveryAttempting<'a> {
    /// The object's address.
    pub closed spec fn address(&self) -> usize {
        self.0.address()
    }

    /// Looks at an object as a recovery attempter.
    pub fn from_object(object: NSObject<'a>) -> (attempter: NSErrorRecoveryAttempting<'a>)
        ensures
            attempter.address() == object.address(),
    {
        NSErrorRecoveryAttempting(object)
    }

    /// Attempts a recovery from an error noted in an application-modal dialog.
    ///
    /// The message carries the error and the index of the recovery option
    /// that the user chose. Its result says whether the recovery succeeded;
    /// an attempter that lacks the method has not recovered, so the result is
    /// then `false`.
    pub fn attempt_recovery(
        &self,
        error: &NSError,
        recovery_option_index: NSUInteger,
    ) -> (begun: (Dispatch<bool>, Request<bool>))
        ensures
            begun.1@ == (Call::RespondsTo {
                handle: self.address(),
                message: ATTEMPT_RECOVERY@,
            }),
            begun.0.send() == (Call::SendMessage {
                handle: self.address(),
                message: ATTEMPT_RECOVERY@,
                payload: recovery_payload(error.address(), recovery_option_index),
            }),
            begun.0.unsupported() == false,
    {
        let sel = Selector::new(ATTEMPT_RECOVERY);
        let payload = marshal(error, recovery_option_index);
        self.0.dispatch_sync(sel, payload, false)
    }

    /// Attempts a recovery from an error noted in a document-modal sheet.
    ///
    /// The message carries the error and the index of the recovery option
    /// that the user chose, and returns nothing. Where a notification is
    /// given, the runtime reports the outcome of the recovery later by
    /// sending the completion message to the delegate, with the context
    /// handed back as it was given. An attempter that lacks the method is
    /// sent nothing, and no notification follows.
    pub fn attempt_recovery_with(
        &self,
        error: &NSError,
        recovery_option_index: NSUInteger,
        notification: Option<Notification>,
    ) -> (begun: (Dispatch<()>, Request<bool>))
        ensures
            begun.1@ == (Call::RespondsTo {
                handle: self.address(),
                message: ATTEMPT_RECOVERY_WITH@,
            }),
            begun.0.send() == (Call::SendMessageWithNotification {
                handle: self.address(),
                message: ATTEMPT_RECOVERY_WITH@,
                payload: recovery_payload(error.address(), recovery_option_index),
                notification: optional_view(notification),
            }),
    {
        let sel = Selector::new(ATTEMPT_RECOVERY_WITH);
        let payload = marshal(error, recovery_option_index);
        self.0.dispatch_async_notify(sel, payload, notification)
    }
}

/// The payload of both recovery messages: the error, then the index of the
/// recovery option.
pub open spec fn recovery_payload(
    error: usize,
    recovery_option_index: NSUInteger,
) -> Seq<Argument> {
    seq![Argument::Object(error), Argument::UnsignedInteger(recovery_option_index)]
}

fn marshal(error: &NSError, recovery_option_index: NSUInteger) -> (payload: Vec<Argument>)
    ensures
        payload@ == recovery_payload(error.address(), recovery_option_index),
{
    let mut payload: Vec<Argument> = Vec::new();
    payload.push(error.as_ref().as_argument());
    payload.push(Argument::UnsignedInteger(recovery_option_index));
    payload
}

} // verus!
