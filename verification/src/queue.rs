use vstd::prelude::*;
use crate::press::PressType;
use crate::press::decode_press_spec;
use crate::press::decode_press;
use crate::press::encode_press;

verus! {

/// How many press events the queue holds before a producer must wait.
pub const QUEUE_CAPACITY: usize = 4;

/// The bounded FIFO between the reader and the renderer loop. It wraps an
/// embassy_sync channel of capacity `QUEUE_CAPACITY`; events travel as
/// bytes and are decoded on the way out.
///
/// The channel suspends async callers; this owner exposes the non-blocking
/// operations, and a caller that must block retries when woken.
#[verifier::external_body]
pub struct EventQueue {
    channel: embassy_sync::channel::Channel<
        embassy_sync::blocking_mutex::raw::CriticalSectionRawMutex,
        u8,
        4,
    >,
}

/// The bytes the wrapped channel holds, front of the queue first.
pub uninterp spec fn queue_contents(q: EventQueue) -> Seq<u8>;

/// The press events the queue holds, front of the queue first.
pub open spec fn queue_view(q: EventQueue) -> Seq<PressType> {
    queue_contents(q).map_values(|v: u8| decode_press_spec(v))
}

impl EventQueue {
    /// Relies on embassy_sync::channel::Channel::new: the channel starts
    /// with an empty queue.
    #[verifier::external_body]
    fn new_raw() -> (r: EventQueue)
        ensures
            queue_contents(r) == Seq::<u8>::empty(),
    {
        EventQueue { channel: embassy_sync::channel::Channel::new() }
    }

    /// Relies on embassy_sync::channel::Channel::try_send: below capacity
    /// it appends the message at the back and succeeds; at capacity it
    /// fails and changes nothing.
    #[verifier::external_body]
    fn try_send_raw(&mut self, v: u8) -> (ok: bool)
        ensures
            queue_contents(*old(self)).len() < 4 ==> ok && queue_contents(*final(self))
                == queue_contents(*old(self)).push(v),
            queue_contents(*old(self)).len() >= 4 ==> !ok && queue_contents(*final(self))
                == queue_contents(*old(self)),
    {
        self.channel.try_send(v).is_ok()
    }

    /// Relies on embassy_sync::channel::Channel::try_receive: when the
    /// queue is non-empty it removes and returns the front message; when
    /// empty it fails and changes nothing.
    #[verifier::external_body]
    fn try_receive_raw(&mut self) -> (r: Option<u8>)
        ensures
            queue_contents(*old(self)).len() > 0 ==> r == Some(queue_contents(*old(self))[0])
                && queue_contents(*final(self)) == queue_contents(*old(self)).drop_first(),
            queue_contents(*old(self)).len() == 0 ==> r is None && queue_contents(*final(self))
                == queue_contents(*old(self)),
    {
        match self.channel.try_receive() {
            Ok(v) => Some(v),
            Err(_) => None,
        }
    }

    /// Relies on embassy_sync::channel::Channel::len: the number of
    /// messages the queue holds now.
    #[verifier::external_body]
    fn len_raw(&self) -> (r: usize)
        ensures
            r == queue_contents(*self).len(),
    {
        self.channel.len()
    }

    /// A fresh, empty queue.
    pub fn new() -> (r: EventQueue)
        ensures
            queue_view(r) == Seq::<PressType>::empty(),
    {
        let q = Self::new_raw();
        proof {
            assert(queue_view(q) =~= Seq::<PressType>::empty());
        }
        q
    }

    /// The number of events waiting to be consumed.
    pub fn len(&self) -> (r: usize)
        ensures
            r == queue_view(*self).len(),
    {
        self.len_raw()
    }

    /// Offer one event to the queue. Below capacity it is appended at the
    /// back and `true` comes back; at capacity nothing changes and `false`
    /// comes back — backpressure, and the producer tries again.
    pub fn try_push(&mut self, p: PressType) -> (ok: bool)
        ensures
            queue_view(*old(self)).len() < QUEUE_CAPACITY ==> ok && queue_view(*final(self))
                == queue_view(*old(self)).push(p),
            queue_view(*old(self)).len() >= QUEUE_CAPACITY ==> !ok && queue_view(*final(self))
                == queue_view(*old(self)),
    {
        let v = encode_press(p);
        let ok = self.try_send_raw(v);
        proof {
            if queue_contents(*old(self)).len() < 4 {
                assert(queue_view(*self) =~= queue_view(*old(self)).push(p));
            }
        }
        ok
    }

    /// Take the oldest event out of the queue, if there is one; an empty
    /// queue changes nothing and yields nothing.
    pub fn try_pop(&mut self) -> (r: Option<PressType>)
        ensures
            queue_view(*old(self)).len() > 0 ==> r == Some(queue_view(*old(self))[0])
                && queue_view(*final(self)) == queue_view(*old(self)).drop_first(),
            queue_view(*old(self)).len() == 0 ==> r is None && queue_view(*final(self))
                == queue_view(*old(self)),
    {
        match self.try_receive_raw() {
            Some(v) => {
                proof {
                    assert(queue_view(*self) =~= queue_view(*old(self)).drop_first());
                }
                Some(decode_press(v))
            },
            None => None,
        }
    }
}

} // verus!
