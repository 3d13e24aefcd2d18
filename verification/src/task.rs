//! What the verified code needs of `std::task` and of the message types that
//! are only carried through.

use lapin_async::types::ShortString;
use std::task::Context;
use std::task::Waker;
use vstd::prelude::*;

verus! {

/// `lapin_async::message::Delivery`, a decoded message. The subscription
/// hands it on and never looks inside.
#[verifier::external_type_specification]
#[verifier::external_body]
pub struct ExDelivery(lapin_async::message::Delivery);

/// `lapin_async::types::ShortString`, the protocol's bounded string, used for
/// the names that a consumer carries.
#[verifier::external_type_specification]
#[verifier::external_body]
pub struct ExShortString(lapin_async::types::ShortString);

/// `ShortString::clone`, which the crate derives for a struct around one
/// `String`: the copy holds the same string.
pub assume_specification[ <ShortString as Clone>::clone ](name: &ShortString) -> (copy: ShortString)
    ensures
        copy == *name,
;

/// `std::task::Waker`, the token that reschedules a suspended task.
#[verifier::external_type_specification]
#[verifier::external_body]
pub struct ExWaker(std::task::Waker);

/// `std::task::Context`, what a poll is called with.
#[verifier::external_type_specification]
#[verifier::external_body]
pub struct ExContext<'a>(std::task::Context<'a>);

/// `std::task::Poll`, with its two variants `Ready` and `Pending`.
#[verifier::external_type_specification]
pub struct ExPoll<T>(std::task::Poll<T>);

/// `Waker::wake_by_ref` signals the task behind the token. What the
/// executor then does is outside this library: nothing is claimed of it.
pub assume_specification[ Waker::wake_by_ref ](waker: &Waker);

/// `Context::waker` hands out the token of the task that is polling.
/// Nothing is claimed of the token.
pub assume_specification<'a>[ Context::<'a>::waker ](cx: &Context<'a>) -> (waker: &'a Waker);

/// `Waker::clone` makes a second token. That it wakes the same task is the
/// executor's promise, not std's: nothing is claimed of the copy, and callers
/// know it only as a clone of the first.
pub assume_specification[ <Waker as Clone>::clone ](waker: &Waker) -> (copy: Waker);

} // verus!
