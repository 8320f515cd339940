//! Properties of the write and read protocols, stated over the buffer model
//! and proved.

use vstd::prelude::*;

use crate::buffer::{
    has_sentinel, model_wf, read_amount, read_bytes, write_amount, write_offset_ok, written,
    BufferModel, BUFFERSIZE,
};

verus! {

/// One call on the device, as the buffer sees it: a call that changes nothing
/// (an open, a close, a read or a failed write), or a write that delivered
/// `payload` at `offset`.
pub ghost enum Call {
    Unchanged,
    Write { offset: nat, payload: Seq<u8> },
}

/// The buffer after one call. A write at an offset that is refused changes nothing.
pub open spec fn step(m: BufferModel, c: Call) -> BufferModel {
    match c {
        Call::Unchanged => m,
        Call::Write { offset, payload } => if write_offset_ok(m, offset) {
            written(m, offset, payload)
        } else {
            m
        },
    }
}

/// The buffer after the calls, taken one after another in the order given.
pub open spec fn run(m: BufferModel, calls: Seq<Call>) -> BufferModel
    decreases calls.len(),
{
    if calls.len() == 0 {
        m
    } else {
        run(step(m, calls[0]), calls.skip(1))
    }
}

/// An accepted write leaves a well-formed buffer whose message is followed by
/// its terminator.
pub proof fn lemma_write_keeps_invariant(m: BufferModel, offset: nat, payload: Seq<u8>)
    requires
        model_wf(m),
        write_offset_ok(m, offset),
    ensures
        model_wf(written(m, offset, payload)),
        has_sentinel(written(m, offset, payload)),
{
}

/// Writing a payload that fits at offset zero makes it the whole message: the
/// length is the payload's, the bytes before it are the payload, and the byte
/// after it is zero when there is room for one.
pub proof fn lemma_new_message(m: BufferModel, payload: Seq<u8>)
    requires
        model_wf(m),
        payload.len() <= BUFFERSIZE,
    ensures
        written(m, 0, payload).len == payload.len(),
        written(m, 0, payload).bytes.take(payload.len() as int) == payload,
        payload.len() < BUFFERSIZE ==> written(m, 0, payload).bytes[payload.len() as int] == 0,
{
    let w = written(m, 0, payload);
    assert(w.bytes.take(payload.len() as int) =~= payload);
}

/// Writing at the current length appends: the old message stays, the copied
/// bytes follow it, the length grows by the amount copied, and the terminator
/// follows the new message.
pub proof fn lemma_append(m: BufferModel, payload: Seq<u8>)
    requires
        model_wf(m),
    ensures
        ({
            let amt = write_amount(m.len, payload.len());
            let w = written(m, m.len, payload);
            &&& w.len == m.len + amt
            &&& w.bytes.take(m.len as int) == m.bytes.take(m.len as int)
            &&& w.bytes.subrange(m.len as int, w.len as int) == payload.take(amt as int)
            &&& has_sentinel(w)
            &&& model_wf(w)
        }),
{
    let amt = write_amount(m.len, payload.len());
    let w = written(m, m.len, payload);
    assert(w.bytes.take(m.len as int) =~= m.bytes.take(m.len as int));
    assert(w.bytes.subrange(m.len as int, w.len as int) =~= payload.take(amt as int));
}

/// A write never copies more than the room after its offset; a payload longer
/// than that room is cut to it, and the buffer is then full.
pub proof fn lemma_write_capped(m: BufferModel, offset: nat, payload: Seq<u8>)
    requires
        model_wf(m),
        write_offset_ok(m, offset),
    ensures
        write_amount(offset, payload.len()) <= BUFFERSIZE - offset,
        write_amount(offset, payload.len()) <= payload.len(),
        payload.len() > BUFFERSIZE - offset ==> write_amount(offset, payload.len())
            == BUFFERSIZE - offset && written(m, offset, payload).len == BUFFERSIZE,
{
}

/// A read at or past the end of the message and its terminator transfers
/// nothing, whatever room the caller has.
pub proof fn lemma_read_past_end(m: BufferModel, offset: nat, resid: nat)
    requires
        model_wf(m),
        offset >= m.len + 1,
    ensures
        read_amount(m, offset, resid) == 0,
        read_bytes(m, offset, resid).len() == 0,
{
}

/// Calls taken one at a time, in any order, keep the buffer well formed: the
/// length stays within the capacity and the terminator follows the message.
pub proof fn lemma_calls_keep_invariant(m: BufferModel, calls: Seq<Call>)
    requires
        model_wf(m),
        has_sentinel(m),
    ensures
        model_wf(run(m, calls)),
        has_sentinel(run(m, calls)),
    decreases calls.len(),
{
    if calls.len() > 0 {
        let next = step(m, calls[0]);
        match calls[0] {
            Call::Unchanged => {},
            Call::Write { offset, payload } => {
                if write_offset_ok(m, offset) {
                    lemma_write_keeps_invariant(m, offset, payload);
                }
            },
        }
        lemma_calls_keep_invariant(next, calls.skip(1));
    }
}

} // verus!
