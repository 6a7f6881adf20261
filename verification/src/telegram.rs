//! Outbound notification sending: enqueueing a message for the sender
//! worker, recognizing a successful delivery in the remote service's
//! response, and reporting the outcome through the outcome guard.

use vstd::prelude::*;
use crate::led::LedState;
use crate::led::StatusSignal;
use crate::led_op::Status;
use crate::mailbox::MAILBOX_CAPACITY;
use crate::mailbox::MAX_MESSAGE_LEN;
use crate::mailbox::Mailbox;
use crate::mailbox::Message;

verus! {

/// Why one delivery attempt failed. The caller learns only this much; detail
/// stays at the transport.
#[derive(Clone, Copy, PartialEq, Eq, Structural, Debug)]
pub enum TelegramSendMessageError {
    /// The payload could not be encoded into a request body.
    InvalidArguments,
    /// The transport failed before a response arrived.
    RequestError,
    /// A response arrived but did not acknowledge the message.
    ResponseError,
}

/// Why a message was not enqueued.
#[derive(Clone, Copy, PartialEq, Eq, Structural, Debug)]
pub enum EnqueueError {
    /// The mailbox already holds its capacity of messages; the new one is
    /// dropped, the caller is never blocked.
    QueueFull,
}

/// Queue a message for delivery: copy it and place it in the mailbox without
/// blocking. A message offered to a full mailbox is dropped and reported,
/// never queued behind its capacity.
pub fn send_telegram_message(queue: &mut Mailbox, msg: &str) -> (r: Result<(), EnqueueError>)
    requires
        msg@.len() <= MAX_MESSAGE_LEN,
    ensures
        old(queue).messages().len() < MAILBOX_CAPACITY ==> (r is Ok && final(queue).messages()
            == old(queue).messages().push(msg@)),
        old(queue).messages().len() >= MAILBOX_CAPACITY ==> (r == Err::<(), EnqueueError>(
            EnqueueError::QueueFull,
        ) && final(queue).messages() == old(queue).messages()),
{
    let owned = Message::from_str(msg);
    match queue.try_send(owned) {
        Ok(()) => Ok(()),
        Err(_) => Err(EnqueueError::QueueFull),
    }
}

/// Whether `pat` occurs in `hay` starting at position `i`.
pub open spec fn matches_at(hay: Seq<u8>, pat: Seq<u8>, i: int) -> bool {
    &&& 0 <= i
    &&& i + pat.len() <= hay.len()
    &&& hay.subrange(i, i + pat.len() as int) == pat
}

/// Whether `pat` occurs anywhere in `hay`.
pub open spec fn contains_seq(hay: Seq<u8>, pat: Seq<u8>) -> bool {
    exists|i: int| matches_at(hay, pat, i)
}

/// Whether `pat` occurs in `hay` starting exactly at `i`.
fn match_at(hay: &[u8], pat: &[u8], i: usize) -> (r: bool)
    requires
        i + pat@.len() <= hay@.len(),
    ensures
        r == matches_at(hay@, pat@, i as int),
{
    let n = hay.len();
    let mut j: usize = 0;
    while j < pat.len()
        invariant
            n == hay@.len(),
            i + pat@.len() <= hay@.len(),
            j <= pat@.len(),
            forall|t: int| 0 <= t < j ==> hay@[i + t] == pat@[t],
        decreases pat@.len() - j,
    {
        assert(i + j < n);
        if hay[i + j] != pat[j] {
            assert(!matches_at(hay@, pat@, i as int)) by {
                if matches_at(hay@, pat@, i as int) {
                    assert(hay@.subrange(i as int, i + pat@.len() as int)[j as int] == pat@[
                        j as int
                    ]);
                }
            }
            return false;
        }
        j += 1;
    }
    assert(hay@.subrange(i as int, i + pat@.len() as int) =~= pat@);
    true
}

/// Whether `pat` occurs anywhere in `hay` (executable form of
/// `contains_seq`).
pub fn contains_subslice(hay: &[u8], pat: &[u8]) -> (r: bool)
    ensures
        r == contains_seq(hay@, pat@),
{
    if pat.len() > hay.len() {
        assert(!contains_seq(hay@, pat@)) by {
            if contains_seq(hay@, pat@) {
                let i = choose|i: int| matches_at(hay@, pat@, i);
            }
        }
        return false;
    }
    if pat.len() == 0 {
        assert(matches_at(hay@, pat@, 0)) by {
            assert(hay@.subrange(0, 0) =~= pat@);
        }
        return true;
    }
    let last = hay.len() - pat.len();
    let mut i: usize = 0;
    while i <= last
        invariant
            1 <= pat@.len() <= hay@.len(),
            hay@.len() <= usize::MAX,
            last == hay@.len() - pat@.len(),
            i <= last + 1,
            forall|k: int| 0 <= k < i ==> !matches_at(hay@, pat@, k),
        decreases last + 1 - i,
    {
        if match_at(hay, pat, i) {
            return true;
        }
        i += 1;
    }
    assert(!contains_seq(hay@, pat@)) by {
        if contains_seq(hay@, pat@) {
            let k = choose|k: int| matches_at(hay@, pat@, k);
            assert(0 <= k < i);
        }
    }
    false
}

/// The positive-acknowledgement marker a successful response body carries:
/// the bytes of the text `"ok":true`.
pub open spec fn success_marker() -> Seq<u8> {
    seq![34u8, 111u8, 107u8, 34u8, 58u8, 116u8, 114u8, 117u8, 101u8]
}

/// The marker bytes, for scanning a response (executable form of
/// `success_marker`).
pub fn success_marker_bytes() -> (v: Vec<u8>)
    ensures
        v@ == success_marker(),
{
    let v: Vec<u8> = vec![34u8, 111u8, 107u8, 34u8, 58u8, 116u8, 114u8, 117u8, 101u8];
    assert(v@ =~= success_marker());
    v
}

/// Decide one delivery attempt's outcome from the raw response body: a
/// delivery succeeded exactly when the body carries the
/// positive-acknowledgement marker; anything else is a response error.
pub fn classify_send_response(body: &[u8]) -> (r: Result<(), TelegramSendMessageError>)
    ensures
        r is Ok <==> contains_seq(body@, success_marker()),
        r is Err ==> r == Err::<(), TelegramSendMessageError>(
            TelegramSendMessageError::ResponseError,
        ),
{
    let marker = success_marker_bytes();
    if contains_subslice(body, marker.as_slice()) {
        Ok(())
    } else {
        Err(TelegramSendMessageError::ResponseError)
    }
}

/// Resolve one delivery attempt through its guard: success is declared
/// exactly when the attempt succeeded, failure on any error.
pub fn report_send_outcome(
    guard: Status,
    signal: &mut StatusSignal,
    outcome: Result<(), TelegramSendMessageError>,
)
    ensures
        outcome is Ok ==> final(signal).pending() == Some(LedState::Success),
        outcome is Err ==> final(signal).pending() == Some(LedState::Failure),
{
    match outcome {
        Ok(()) => guard.success(signal),
        Err(_) => guard.failure(signal),
    }
}

/// The sender's step after the network exchange returned a response body:
/// classify it and resolve the guard — the delivery is reported a success
/// exactly when the body carries the positive-acknowledgement marker, a
/// failure otherwise, and either way exactly one terminal status is reported.
pub fn resolve_delivery(guard: Status, signal: &mut StatusSignal, body: &[u8]) -> (r: Result<
    (),
    TelegramSendMessageError,
>)
    ensures
        r is Ok <==> contains_seq(body@, success_marker()),
        contains_seq(body@, success_marker()) ==> final(signal).pending() == Some(
            LedState::Success,
        ),
        !contains_seq(body@, success_marker()) ==> (final(signal).pending() == Some(
            LedState::Failure,
        ) && r == Err::<(), TelegramSendMessageError>(TelegramSendMessageError::ResponseError)),
{
    let outcome = classify_send_response(body);
    report_send_outcome(guard, signal, outcome);
    outcome
}

} // verus!
