//! The flash update store: a slot writer with a capacity check, and the
//! boot-time acceptance gate.
//!
//! A firmware image streams chunk by chunk into the slot that is not
//! running; a chunk that would not fit is refused before anything of it is
//! written. Accepting marks the booted pending slot valid and is
//! idempotent; whether to accept at all is decided elsewhere.

use vstd::prelude::*;
use crate::error::BBBotError;

verus! {

/// The recorded state of one flash slot.
#[derive(Clone, Copy, Debug, PartialEq, Eq, Structural)]
pub enum SlotState {
    /// The slot holds the image the device booted and runs.
    Running,
    /// The slot holds a freshly written image, not yet committed.
    Pending,
    /// The slot holds an image that booted and was committed.
    Valid,
}

/// What accepting the booted image does to its slot's recorded state:
/// a pending slot becomes valid, any other state is left alone.
pub open spec fn accept_spec(s: SlotState) -> SlotState {
    match s {
        SlotState::Pending => SlotState::Valid,
        _ => s,
    }
}

/// Accepting is idempotent: a second acceptance changes nothing further.
pub proof fn lemma_accept_idempotent(s: SlotState)
    ensures
        accept_spec(accept_spec(s)) == accept_spec(s),
{
}

/// The flash-resident record of the slot the device booted from.
pub struct FlashStore {
    pub booted: SlotState,
}

impl FlashStore {
    pub fn new(booted: SlotState) -> (r: FlashStore)
        ensures
            r.booted == booted,
    {
        FlashStore { booted }
    }

    /// Commit the booted image. Safe to call again: the second and every
    /// later call leaves the state as the first left it.
    pub fn accept(&mut self)
        ensures
            final(self).booted == accept_spec(old(self).booted),
    {
        match self.booted {
            SlotState::Pending => {
                self.booted = SlotState::Valid;
            },
            _ => {},
        }
    }
}

/// The non-running slot while an image streams into it.
///
/// `data` is what has been written so far; it never exceeds `capacity`.
pub struct SlotWriter {
    pub capacity: usize,
    pub data: Vec<u8>,
}

/// What one chunk does to the slot: appended whole when it fits, nothing
/// at all when it does not.
pub open spec fn slot_after(capacity: int, data: Seq<u8>, chunk: Seq<u8>) -> Seq<u8> {
    if data.len() + chunk.len() <= capacity {
        data + chunk
    } else {
        data
    }
}

/// The slot after a whole stream of chunks, folded in order.
pub open spec fn slot_run(capacity: int, data: Seq<u8>, chunks: Seq<Seq<u8>>) -> Seq<u8>
    decreases chunks.len(),
{
    if chunks.len() == 0 {
        data
    } else {
        slot_run(capacity, slot_after(capacity, data, chunks[0]), chunks.drop_first())
    }
}

/// However long the stream and however large its chunks, the slot's
/// content never passes its capacity: an overfull chunk is refused whole,
/// before any of it lands.
pub proof fn lemma_stream_never_exceeds_capacity(
    capacity: int,
    data: Seq<u8>,
    chunks: Seq<Seq<u8>>,
)
    requires
        data.len() <= capacity,
    ensures
        slot_run(capacity, data, chunks).len() <= capacity,
    decreases chunks.len(),
{
    if chunks.len() > 0 {
        lemma_stream_never_exceeds_capacity(
            capacity,
            slot_after(capacity, data, chunks[0]),
            chunks.drop_first(),
        );
    }
}

impl SlotWriter {
    /// Nothing written yet, never more than `capacity`.
    pub open spec fn wf(&self) -> bool {
        self.data@.len() <= self.capacity
    }

    pub fn new(capacity: usize) -> (r: SlotWriter)
        ensures
            r.capacity == capacity,
            r.data@ == Seq::<u8>::empty(),
            r.wf(),
    {
        let w = SlotWriter { capacity, data: Vec::new() };
        proof {
            assert(w.data@ =~= Seq::<u8>::empty());
        }
        w
    }

    /// How many bytes the slot still takes.
    pub fn remaining(&self) -> (r: usize)
        requires
            self.wf(),
        ensures
            r == self.capacity - self.data@.len(),
    {
        self.capacity - self.data.len()
    }

    /// Append one chunk, whole or not at all.
    ///
    /// A chunk that would push the slot past its capacity is refused as a
    /// `FlashError` before any byte of it is written; the slot is then
    /// exactly as it was.
    pub fn write(&mut self, chunk: &[u8]) -> (r: Result<(), BBBotError>)
        requires
            old(self).wf(),
        ensures
            final(self).wf(),
            final(self).capacity == old(self).capacity,
            final(self).data@ == slot_after(old(self).capacity as int, old(self).data@, chunk@),
            match r {
                Ok(()) => old(self).data@.len() + chunk@.len() <= old(self).capacity
                    && final(self).data@ == old(self).data@ + chunk@,
                Err(e) => e == BBBotError::FlashError && final(self).data@ == old(self).data@
                    && old(self).data@.len() + chunk@.len() > old(self).capacity,
            },
    {
        if chunk.len() > self.capacity - self.data.len() {
            return Err(BBBotError::FlashError);
        }
        self.data.extend_from_slice(chunk);
        Ok(())
    }
}

} // verus!
