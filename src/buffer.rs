//! The bounded message buffer with its length cursor, and the write and read
//! protocols that act on it.

use vstd::prelude::*;

use crate::error::EchoError;

verus! {

/// Capacity of the message buffer, in bytes.
pub const BUFFERSIZE: usize = 256;

/// What a message buffer holds: its logical length and all of its bytes.
pub ghost struct BufferModel {
    pub len: nat,
    pub bytes: Seq<u8>,
}

/// A fixed-capacity byte buffer with an explicit length cursor.
pub struct EchoMsg {
    len: usize,
    msg: Vec<u8>,
}

impl View for EchoMsg {
    type V = BufferModel;

    closed spec fn view(&self) -> BufferModel {
        BufferModel { len: self.len as nat, bytes: self.msg@ }
    }
}

/// The buffer holds exactly `BUFFERSIZE` bytes and its length is within them.
pub open spec fn model_wf(m: BufferModel) -> bool {
    &&& m.bytes.len() == BUFFERSIZE
    &&& m.len <= BUFFERSIZE
}

/// The byte just after the message is zero, wherever that position exists.
pub open spec fn has_sentinel(m: BufferModel) -> bool {
    m.len < BUFFERSIZE ==> m.bytes[m.len as int] == 0
}

pub open spec fn min_nat(a: nat, b: nat) -> nat {
    if a <= b { a } else { b }
}

/// A write is accepted only when it starts a new message or appends to the current one.
pub open spec fn write_offset_ok(m: BufferModel, offset: nat) -> bool {
    offset == 0 || offset == m.len
}

/// How many bytes a write of `requested` bytes at `offset` copies: no more than
/// the room left after `offset`.
pub open spec fn write_amount(offset: nat, requested: nat) -> nat {
    min_nat(requested, (BUFFERSIZE - offset) as nat)
}

/// The buffer after an accepted write of `payload` at `offset`: the copied bytes
/// stand from `offset` on, the length ends after them, and the byte after that
/// is cleared when it lies within the capacity.
pub open spec fn written(m: BufferModel, offset: nat, payload: Seq<u8>) -> BufferModel {
    let amt = write_amount(offset, payload.len());
    let end = offset + amt;
    let copied = m.bytes.take(offset as int) + payload.take(amt as int) + m.bytes.skip(
        end as int,
    );
    BufferModel {
        len: end,
        bytes: if end < BUFFERSIZE {
            copied.update(end as int, 0)
        } else {
            copied
        },
    }
}

/// Where the readable bytes end: just after the terminator, or at the capacity
/// when the message fills the whole buffer and there is no room for one.
pub open spec fn readable_end(m: BufferModel) -> nat {
    if m.len < BUFFERSIZE {
        m.len + 1
    } else {
        BUFFERSIZE as nat
    }
}

/// How many bytes are readable at `offset`: the message and its terminator,
/// less what lies before `offset`.
pub open spec fn remaining(m: BufferModel, offset: nat) -> nat {
    if offset >= readable_end(m) {
        0
    } else {
        (readable_end(m) - offset) as nat
    }
}

/// How many bytes a read at `offset` with room for `resid` bytes transfers.
pub open spec fn read_amount(m: BufferModel, offset: nat, resid: nat) -> nat {
    min_nat(resid, remaining(m, offset))
}

/// The bytes a read transfers: always taken from the start of the buffer.
pub open spec fn read_bytes(m: BufferModel, offset: nat, resid: nat) -> Seq<u8> {
    m.bytes.take(read_amount(m, offset, resid) as int)
}

impl EchoMsg {
    pub open spec fn wf(&self) -> bool {
        model_wf(self@)
    }

    /// An empty message: length zero and every byte zero.
    pub fn new() -> (r: EchoMsg)
        ensures
            r.wf(),
            r@.len == 0,
            r@.bytes == Seq::new(BUFFERSIZE as nat, |i: int| 0u8),
            has_sentinel(r@),
    {
        let msg = vec![0u8; BUFFERSIZE];
        let r = EchoMsg { len: 0, msg };
        assert(r@.bytes =~= Seq::new(BUFFERSIZE as nat, |i: int| 0u8));
        r
    }

    pub fn get_len(&self) -> (r: usize)
        ensures
            r == self@.len,
    {
        self.len
    }

    /// The byte at `pos`.
    pub fn byte_at(&self, pos: usize) -> (r: u8)
        requires
            self.wf(),
            pos < BUFFERSIZE,
        ensures
            r == self@.bytes[pos as int],
    {
        self.msg[pos]
    }

    /// Clears the byte at `pos`.
    pub fn reset_msg(&mut self, pos: usize)
        requires
            old(self).wf(),
            pos < BUFFERSIZE,
        ensures
            final(self)@ == (BufferModel { bytes: old(self)@.bytes.update(pos as int, 0), ..old(self)@ }),
            final(self).wf(),
    {
        self.msg.set(pos, 0);
    }

    /// Sets the length cursor, leaving the bytes as they are.
    pub fn set_len(&mut self, new_length: usize)
        requires
            old(self).wf(),
            new_length <= BUFFERSIZE,
        ensures
            final(self)@ == (BufferModel { len: new_length as nat, ..old(self)@ }),
            final(self).wf(),
    {
        self.len = new_length;
    }

    /// Writes `payload` at `offset`. An offset other than zero or the current
    /// length is refused and leaves the buffer as it was. Otherwise offset zero
    /// starts a new message, as many bytes are copied as fit, the length ends
    /// after them and the next byte is cleared; the number copied is returned.
    pub fn write_at(&mut self, offset: usize, payload: &[u8]) -> (r: Result<usize, EchoError>)
        requires
            old(self).wf(),
        ensures
            final(self).wf(),
            write_offset_ok(old(self)@, offset as nat) ==> r == Ok::<usize, EchoError>(
                write_amount(offset as nat, payload@.len()) as usize,
            ) && final(self)@ == written(old(self)@, offset as nat, payload@),
            !write_offset_ok(old(self)@, offset as nat) ==> r == Err::<usize, EchoError>(
                EchoError::InvalidArgument,
            ) && final(self)@ == old(self)@,
    {
        let length = self.get_len();
        if offset != 0 && offset != length {
            return Err(EchoError::InvalidArgument);
        }
        if offset == 0 {
            self.set_len(0);
        }
        let room = BUFFERSIZE - offset;
        let amt = if payload.len() < room {
            payload.len()
        } else {
            room
        };
        let ghost before = self.msg@;
        let mut i: usize = 0;
        while i < amt
            invariant
                i <= amt,
                offset + amt <= BUFFERSIZE,
                amt <= payload@.len(),
                self.msg@.len() == BUFFERSIZE,
                before.len() == BUFFERSIZE,
                forall|j: int| 0 <= j < offset ==> self.msg@[j] == before[j],
                forall|j: int| offset <= j < offset + i ==> self.msg@[j] == payload@[j - offset],
                forall|j: int| offset + i <= j < BUFFERSIZE ==> self.msg@[j] == before[j],
            decreases amt - i,
        {
            self.msg.set(offset + i, payload[i]);
            i = i + 1;
        }
        let end = offset + amt;
        self.len = end;
        if end < BUFFERSIZE {
            self.reset_msg(end);
        }
        let ghost w = written(old(self)@, offset as nat, payload@);
        assert(self@.bytes =~= w.bytes);
        Ok(amt)
    }

    /// The bytes a read at `offset` with room for `resid` bytes transfers:
    /// as many as are readable at `offset`, taken from the start of the buffer.
    pub fn read_at(&self, offset: usize, resid: usize) -> (r: Vec<u8>)
        requires
            self.wf(),
        ensures
            r@ == read_bytes(self@, offset as nat, resid as nat),
    {
        let length = self.get_len();
        let end: usize = if length < BUFFERSIZE {
            length + 1
        } else {
            BUFFERSIZE
        };
        let remain: usize = if offset >= end {
            0
        } else {
            end - offset
        };
        let amt = if resid < remain {
            resid
        } else {
            remain
        };
        let mut out: Vec<u8> = Vec::with_capacity(amt);
        let mut i: usize = 0;
        while i < amt
            invariant
                i <= amt,
                amt <= self.msg@.len(),
                out@ == self.msg@.take(i as int),
            decreases amt - i,
        {
            out.push(self.msg[i]);
            i = i + 1;
            assert(out@ =~= self.msg@.take(i as int));
        }
        out
    }
}

} // verus!
