use vstd::prelude::*;

use crossbeam_channel::{Receiver, RecvError, Sender};
use termion::event::Event as TermEvent;

verus! {

/// A key of the terminal, as termion reports it; its variants are read as they stand.
#[verifier::external_type_specification]
pub struct ExKey(termion::event::Key);

/// An input event of the terminal, carried through unread.
#[verifier::external_type_specification]
#[verifier::external_body]
pub struct ExTermEvent(TermEvent);

/// What `Duration::from_millis` returns for a count of milliseconds.
pub uninterp spec fn millis_duration(ms: u64) -> core::time::Duration;

/// Relies on `Duration::from_millis`: the span depends on the count alone.
pub assume_specification[ core::time::Duration::from_millis ](millis: u64) -> (r: core::time::Duration)
    ensures
        r == millis_duration(millis),
;

/// The sending half of a crossbeam channel, carried through unread.
#[verifier::external_type_specification]
#[verifier::external_body]
#[verifier::reject_recursive_types(T)]
pub struct ExSender<T>(Sender<T>);

/// The receiving half of a crossbeam channel, carried through unread.
#[verifier::external_type_specification]
#[verifier::external_body]
#[verifier::reject_recursive_types(T)]
pub struct ExReceiver<T>(Receiver<T>);

/// The error of a receive on a channel that is empty and has no senders left.
#[verifier::external_type_specification]
#[verifier::external_body]
pub struct ExRecvError(RecvError);

/// Relies on `Receiver::recv`: it blocks until a message comes or every sender is gone.
/// What comes back depends on the other threads, so nothing is stated of it.
pub assume_specification<T>[ Receiver::<T>::recv ](r: &Receiver<T>) -> Result<T, RecvError>;

} // verus!
