//! Assembling the bytes that the UART receives into frames for the BLE
//! UART service.
//!
//! Received bytes are collected; the collected bytes are sent on as one
//! frame when a carriage return arrives or when the buffer gets full.
use vstd::prelude::*;
use crate::frame::{
    frame_bytes, frame_clear, frame_clone, frame_is_full, frame_len, frame_new, frame_push,
    FRAME_CAPACITY,
};
use crate::message::AppEvent;

verus! {

/// The byte that ends a frame early: carriage return.
pub const CARRIAGE_RETURN: u8 = 0x0D;

/// One received byte: the bytes that stay pending afterwards, and the frame
/// that is sent on, if any.
pub open spec fn rx_step(pending: Seq<u8>, byte: u8) -> (Seq<u8>, Option<Seq<u8>>) {
    let collected = pending.push(byte);
    if byte == CARRIAGE_RETURN || collected.len() >= FRAME_CAPACITY {
        (Seq::empty(), Some(collected))
    } else {
        (collected, None)
    }
}

/// Bytes received in order from a fresh assembler: the bytes that stay
/// pending, and the frames sent on, in order.
pub open spec fn rx_run(bytes: Seq<u8>) -> (Seq<u8>, Seq<Seq<u8>>)
    decreases bytes.len(),
{
    if bytes.len() == 0 {
        (Seq::empty(), Seq::empty())
    } else {
        let (pending, frames) = rx_run(bytes.drop_last());
        let (next, out) = rx_step(pending, bytes.last());
        match out {
            Some(frame) => (next, frames.push(frame)),
            None => (next, frames),
        }
    }
}

/// The frames joined end to end.
pub open spec fn concat_frames(frames: Seq<Seq<u8>>) -> Seq<u8>
    decreases frames.len(),
{
    if frames.len() == 0 {
        Seq::empty()
    } else {
        concat_frames(frames.drop_last()) + frames.last()
    }
}

/// A frame as the assembler sends it: not empty, within capacity, a carriage
/// return at most at its end, and ended by one unless the frame is full.
pub open spec fn well_formed_frame(frame: Seq<u8>) -> bool {
    &&& 0 < frame.len() <= FRAME_CAPACITY
    &&& forall|i: int| 0 <= i < frame.len() - 1 ==> frame[i] != CARRIAGE_RETURN
    &&& (frame.last() == CARRIAGE_RETURN || frame.len() == FRAME_CAPACITY)
}

/// Bytes still waiting for a frame: fewer than a full frame, and no carriage
/// return among them.
pub open spec fn well_formed_pending(pending: Seq<u8>) -> bool {
    &&& pending.len() < FRAME_CAPACITY
    &&& forall|i: int| 0 <= i < pending.len() ==> pending[i] != CARRIAGE_RETURN
}

/// No received byte is lost, duplicated or reordered: the frames sent on,
/// joined end to end, followed by the bytes still pending, are exactly the
/// bytes received. Every frame sent on is well formed, and the pending bytes
/// always fit in the buffer without a carriage return among them.
pub proof fn lemma_rx_run_keeps_every_byte(bytes: Seq<u8>)
    ensures
        concat_frames(rx_run(bytes).1) + rx_run(bytes).0 == bytes,
        well_formed_pending(rx_run(bytes).0),
        forall|k: int| 0 <= k < rx_run(bytes).1.len() ==> well_formed_frame(#[trigger] rx_run(bytes).1[k]),
    decreases bytes.len(),
{
    if bytes.len() > 0 {
        let prefix = bytes.drop_last();
        let byte = bytes.last();
        lemma_rx_run_keeps_every_byte(prefix);
        let (pending, frames) = rx_run(prefix);
        let collected = pending.push(byte);
        assert(bytes == prefix.push(byte));
        assert(concat_frames(frames) + collected == bytes) by {
            assert(concat_frames(frames) + collected == (concat_frames(frames) + pending).push(byte));
        }
        if byte == CARRIAGE_RETURN || collected.len() >= FRAME_CAPACITY {
            let next_frames = frames.push(collected);
            assert(next_frames.drop_last() == frames);
            assert(concat_frames(next_frames) + Seq::<u8>::empty() == concat_frames(next_frames));
            assert forall|k: int| 0 <= k < next_frames.len() implies well_formed_frame(#[trigger] next_frames[k]) by {
                if k < frames.len() {
                    assert(next_frames[k] == frames[k]);
                } else {
                    assert(next_frames[k] == collected);
                }
            }
        }
    }
}

/// The pending bytes and the frames sent are those of `rx_run` on the bytes
/// received, so that the frames joined end to end, then the pending bytes,
/// are the bytes received; every frame sent is well formed, and the pending
/// bytes are too.
pub open spec fn accounts_for(pending: Seq<u8>, sent: Seq<Seq<u8>>, received: Seq<u8>) -> bool {
    &&& rx_run(received) == (pending, sent)
    &&& concat_frames(sent) + pending == received
    &&& well_formed_pending(pending)
    &&& forall|k: int| 0 <= k < sent.len() ==> well_formed_frame(#[trigger] sent[k])
}

/// Collects the bytes that the UART receives.
pub struct UartRxAssembler {
    tx_buf: heapless::Vec<u8, FRAME_CAPACITY>,
    received: Ghost<Seq<u8>>,
    sent: Ghost<Seq<Seq<u8>>>,
}

impl UartRxAssembler {
    #[verifier::type_invariant]
    spec fn inv(self) -> bool {
        rx_run(self.received@) == (frame_bytes(self.tx_buf), self.sent@)
    }

    /// The bytes received since the last frame was sent on.
    pub closed spec fn pending(self) -> Seq<u8> {
        frame_bytes(self.tx_buf)
    }

    /// Every byte received since the assembler was made, in order.
    pub closed spec fn received(self) -> Seq<u8> {
        self.received@
    }

    /// The bytes of every frame sent on since the assembler was made, in
    /// order.
    pub closed spec fn sent_frames(self) -> Seq<Seq<u8>> {
        self.sent@
    }

    /// How many received bytes wait for the next frame. Whatever the
    /// assembler went through, its pending bytes and the frames it sent
    /// account for every byte it received.
    pub fn pending_len(&self) -> (r: usize)
        ensures
            r == self.pending().len(),
            accounts_for(self.pending(), self.sent_frames(), self.received()),
    {
        proof {
            use_type_invariant(self);
            lemma_rx_run_keeps_every_byte(self.received@);
        }
        frame_len(&self.tx_buf)
    }

    /// An assembler that has received nothing, with no byte pending.
    pub fn new() -> (r: Self)
        ensures
            r.pending() == Seq::<u8>::empty(),
            r.received() == Seq::<u8>::empty(),
            r.sent_frames() == Seq::<Seq<u8>>::empty(),
    {
        UartRxAssembler {
            tx_buf: frame_new(),
            received: Ghost(Seq::empty()),
            sent: Ghost(Seq::empty()),
        }
    }

    /// Takes one received byte; returns the event that carries a frame to the
    /// BLE UART service when the byte completes one.
    pub fn on_byte(&mut self, val: u8) -> (out: Option<AppEvent>)
        ensures
            final(self).pending() == rx_step(old(self).pending(), val).0,
            final(self).received() == old(self).received().push(val),
            match rx_step(old(self).pending(), val).1 {
                None => out is None && final(self).sent_frames() == old(self).sent_frames(),
                Some(frame) => out matches Some(AppEvent::UartRxWritten(sent)) && frame_bytes(sent)
                    == frame && final(self).sent_frames() == old(self).sent_frames().push(frame),
            },
            accounts_for(final(self).pending(), final(self).sent_frames(), final(self).received()),
    {
        proof {
            use_type_invariant(&*self);
            lemma_rx_run_keeps_every_byte(self.received@);
        }
        let ghost old_pending = frame_bytes(self.tx_buf);
        let ghost old_received = self.received@;
        let ghost old_sent = self.sent@;
        let ghost new_received = old_received.push(val);
        assert(new_received.drop_last() == old_received);
        proof {
            lemma_rx_run_keeps_every_byte(new_received);
        }
        let mut this = UartRxAssembler::new();
        std::mem::swap(&mut this, self);
        let UartRxAssembler { tx_buf: mut tx_buf, received: _, sent: _ } = this;
        let pushed = frame_push(&mut tx_buf, val);
        assert(pushed is Ok);
        if val == CARRIAGE_RETURN || frame_is_full(&tx_buf) {
            let frame = frame_clone(&tx_buf);
            let ghost collected = frame_bytes(tx_buf);
            frame_clear(&mut tx_buf);
            *self = UartRxAssembler {
                tx_buf,
                received: Ghost(new_received),
                sent: Ghost(old_sent.push(collected)),
            };
            Some(AppEvent::UartRxWritten(frame))
        } else {
            *self = UartRxAssembler { tx_buf, received: Ghost(new_received), sent: Ghost(old_sent) };
            None
        }
    }
}

} // verus!
