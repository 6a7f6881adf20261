//! Outbound message mailbox: a bounded FIFO (capacity 8, multiple producers,
//! single consumer) backed by an embassy-sync channel. Enqueueing is
//! non-blocking: when the mailbox is full the message is dropped, never
//! queued or blocked on.

use vstd::prelude::*;
use embassy_sync::blocking_mutex::raw::NoopRawMutex;
use embassy_sync::channel::Channel;
use embassy_sync::channel::TryReceiveError;
use embassy_sync::channel::TrySendError;

verus! {

/// The longest notification payload the mailbox accepts, in characters.
pub const MAX_MESSAGE_LEN: usize = 32;

/// A short outbound notification payload. Enqueued by value: the text is
/// copied on construction, so the caller's buffer lifetime does not matter.
/// Always at most `MAX_MESSAGE_LEN` characters.
pub struct Message {
    text: String,
}

impl View for Message {
    type V = Seq<char>;

    closed spec fn view(&self) -> Seq<char> {
        self.text@
    }
}

impl Message {
    /// A message always fits the fixed-capacity buffer it stands for.
    pub closed spec fn wf(self) -> bool {
        self.text@.len() <= MAX_MESSAGE_LEN
    }

    /// Copy a short text into an owned message.
    pub fn from_str(text: &str) -> (m: Message)
        requires
            text@.len() <= MAX_MESSAGE_LEN,
        ensures
            m@ == text@,
            m.wf(),
    {
        Message { text: text.to_owned() }
    }

    /// Copy a text into an owned message, rejecting one that does not fit.
    pub fn try_from_str(text: &str) -> (r: Option<Message>)
        ensures
            text@.len() <= MAX_MESSAGE_LEN ==> (r matches Some(m) && m@ == text@ && m.wf()),
            text@.len() > MAX_MESSAGE_LEN ==> r is None,
    {
        if text.unicode_len() <= MAX_MESSAGE_LEN {
            Some(Message { text: text.to_owned() })
        } else {
            None
        }
    }

    /// The message text.
    pub fn as_str(&self) -> (s: &str)
        ensures
            s@ == self@,
    {
        self.text.as_str()
    }
}

/// How many messages the outbound mailbox can hold at once.
pub const MAILBOX_CAPACITY: usize = 8;

/// The bounded outbound mailbox. Producers enqueue without blocking; a single
/// consumer drains it in FIFO order. The backing embassy-sync channel is
/// opaque here: `mailbox_messages` names what it holds.
#[verifier::external_body]
pub struct Mailbox {
    ch: Channel<NoopRawMutex, Message, 8>,
}

/// What the mailbox's backing channel holds, oldest first, each message as
/// its text.
pub uninterp spec fn mailbox_messages(m: Mailbox) -> Seq<Seq<char>>;

impl Mailbox {
    /// The queued message texts, oldest first.
    pub open spec fn messages(self) -> Seq<Seq<char>> {
        mailbox_messages(self)
    }

    /// An empty mailbox.
    ///
    /// Relies on embassy_sync::channel::Channel::new: a fresh channel holds
    /// no messages.
    #[verifier::external_body]
    pub fn new() -> (m: Mailbox)
        ensures
            mailbox_messages(m) == Seq::<Seq<char>>::empty(),
    {
        Mailbox { ch: Channel::new() }
    }

    /// Non-blocking enqueue: appends in FIFO order while fewer than
    /// `MAILBOX_CAPACITY` messages are queued; otherwise hands the message
    /// back, leaving the queue unchanged.
    ///
    /// Relies on embassy_sync::channel::Channel::try_send: pushes the message
    /// to the back of the queue when there is room, and returns it inside
    /// `TrySendError::Full`, leaving the queue unchanged, when the channel
    /// already holds its capacity of messages.
    #[verifier::external_body]
    pub fn try_send(&mut self, msg: Message) -> (r: Result<(), Message>)
        ensures
            mailbox_messages(*old(self)).len() < MAILBOX_CAPACITY ==> (r is Ok
                && mailbox_messages(*final(self)) == mailbox_messages(*old(self)).push(msg@)),
            mailbox_messages(*old(self)).len() >= MAILBOX_CAPACITY ==> (r matches Err(back)
                && back == msg && mailbox_messages(*final(self)) == mailbox_messages(*old(self))),
    {
        match self.ch.try_send(msg) {
            Ok(()) => Ok(()),
            Err(TrySendError::Full(back)) => Err(back),
        }
    }

    /// Non-blocking dequeue: pops the oldest message, or reports an empty
    /// mailbox.
    ///
    /// Relies on embassy_sync::channel::Channel::try_receive: pops the front
    /// of the queue, or returns `TryReceiveError::Empty` when there is
    /// nothing to pop.
    #[verifier::external_body]
    pub fn try_receive(&mut self) -> (r: Option<Message>)
        ensures
            mailbox_messages(*old(self)).len() == 0 ==> (r is None && mailbox_messages(
                *final(self),
            ) == mailbox_messages(*old(self))),
            mailbox_messages(*old(self)).len() > 0 ==> (r matches Some(m) && m@
                == mailbox_messages(*old(self))[0] && mailbox_messages(*final(self))
                == mailbox_messages(*old(self)).drop_first()),
    {
        match self.ch.try_receive() {
            Ok(m) => Some(m),
            Err(TryReceiveError::Empty) => None,
        }
    }
}

/// The mailbox contents after offering a sequence of messages, oldest first,
/// with no consumer draining: each is appended while there is room and
/// dropped once the mailbox is full.
pub open spec fn apply_sends(contents: Seq<Seq<char>>, msgs: Seq<Seq<char>>) -> Seq<Seq<char>>
    decreases msgs.len(),
{
    if msgs.len() == 0 {
        contents
    } else {
        apply_sends(
            if contents.len() < MAILBOX_CAPACITY {
                contents.push(msgs[0])
            } else {
                contents
            },
            msgs.drop_first(),
        )
    }
}

/// Law: offering messages with no consumer draining fills the mailbox in FIFO
/// order up to its capacity and drops the rest — from contents with room for
/// `room` more, exactly the first `room` offered messages are appended, in
/// the order offered, and every later one is dropped.
pub proof fn lemma_mailbox_fifo_overflow(contents: Seq<Seq<char>>, msgs: Seq<Seq<char>>)
    requires
        contents.len() <= MAILBOX_CAPACITY,
    ensures
        ({
            let room = MAILBOX_CAPACITY - contents.len();
            apply_sends(contents, msgs) == contents + (if msgs.len() <= room {
                msgs
            } else {
                msgs.take(room)
            })
        }),
    decreases msgs.len(),
{
    let room = MAILBOX_CAPACITY - contents.len();
    if msgs.len() == 0 {
        assert(contents + msgs =~= contents);
    } else if contents.len() < MAILBOX_CAPACITY {
        let rest = msgs.drop_first();
        lemma_mailbox_fifo_overflow(contents.push(msgs[0]), rest);
        if msgs.len() <= room {
            assert(contents.push(msgs[0]) + rest =~= contents + msgs);
        } else {
            assert(contents.push(msgs[0]) + rest.take(room - 1) =~= contents + msgs.take(room));
        }
    } else {
        lemma_mailbox_fifo_overflow(contents, msgs.drop_first());
        assert(contents + msgs.drop_first().take(0) =~= contents);
        assert(contents + msgs.drop_first() =~= contents || msgs.drop_first().len() > 0);
        assert(contents + msgs.take(0) =~= contents);
    }
}

} // verus!
