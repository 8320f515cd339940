//! The driver state behind the device node, and the open, close, read and
//! write handlers that act on it.
//!
//! The handlers take `&mut self` or `&self`: a caller that shares the driver
//! between threads holds it behind one lock, so that each read or write sees
//! the buffer as a whole before or after every other call.

use vstd::prelude::*;

use crate::buffer::{
    has_sentinel, model_wf, read_bytes, write_amount, write_offset_ok, written, BufferModel,
    EchoMsg, BUFFERSIZE,
};
use crate::error::EchoError;

verus! {

/// The I/O descriptor of one read or write call: where the transfer starts,
/// how many bytes the caller asks to move, and the caller's bytes. A write
/// takes its payload from the front of `data`; a read appends to `data`.
pub struct Uio {
    pub offset: usize,
    pub resid: usize,
    pub data: Vec<u8>,
}

/// How the device node is to be registered.
pub struct NodeConfig {
    pub name: &'static str,
    pub uid: u32,
    pub gid: u32,
    pub mode: u32,
}

/// Owner of the node: the superuser.
pub const UID_ROOT: u32 = 0;

/// Group of the node: wheel.
pub const GID_WHEEL: u32 = 0;

/// Read and write for the owner only.
pub const NODE_MODE: u32 = 0o600;

/// The driver state: the message buffer, the handle of the registered node
/// and the number of open references to it.
pub struct CharacterDevice {
    echo_dev: u64,
    echo_buf: EchoMsg,
    refs: u64,
}

impl CharacterDevice {
    /// The state of the message buffer.
    pub closed spec fn buf(&self) -> BufferModel {
        self.echo_buf@
    }

    /// The handle of the registered node.
    pub closed spec fn node_spec(&self) -> u64 {
        self.echo_dev
    }

    /// The number of open references.
    pub closed spec fn refs_spec(&self) -> nat {
        self.refs as nat
    }

    pub open spec fn wf(&self) -> bool {
        model_wf(self.buf()) && has_sentinel(self.buf())
    }

    /// How the node is registered: named "echo", owned by root and wheel,
    /// readable and writable by its owner alone.
    pub fn node_config() -> (r: NodeConfig)
        ensures
            r.name@ == "echo"@,
            r.uid == UID_ROOT,
            r.gid == GID_WHEEL,
            r.mode == NODE_MODE,
    {
        NodeConfig { name: "echo", uid: UID_ROOT, gid: GID_WHEEL, mode: NODE_MODE }
    }

    /// Builds the driver state from the outcome of the node's registration:
    /// a failed registration's code is returned unchanged; a registered node
    /// gets an empty buffer and no open references.
    pub fn new(registration: Result<u64, i32>) -> (r: Result<CharacterDevice, i32>)
        ensures
            registration is Err ==> r == Err::<CharacterDevice, i32>(registration->Err_0),
            registration is Ok ==> r is Ok && ({
                let d = r->Ok_0;
                &&& d.wf()
                &&& d.node_spec() == registration->Ok_0
                &&& d.refs_spec() == 0
                &&& d.buf().len == 0
                &&& d.buf().bytes == Seq::new(BUFFERSIZE as nat, |i: int| 0u8)
            }),
    {
        match registration {
            Err(e) => Err(e),
            Ok(node) => {
                let echo_buf = EchoMsg::new();
                Ok(CharacterDevice { echo_dev: node, echo_buf, refs: 0 })
            },
        }
    }

    /// The handle of the registered node.
    pub fn node(&self) -> (r: u64)
        ensures
            r == self.node_spec(),
    {
        self.echo_dev
    }

    /// Ends the driver state, handing back the node for unregistration.
    pub fn destroy(self) -> (r: u64)
        ensures
            r == self.node_spec(),
    {
        self.echo_dev
    }

    /// The message buffer, for inspection.
    pub fn buffer(&self) -> (r: &EchoMsg)
        ensures
            r@ == self.buf(),
    {
        &self.echo_buf
    }

    /// The number of open references.
    pub fn open_count(&self) -> (r: u64)
        ensures
            r == self.refs_spec(),
    {
        self.refs
    }

    /// Opens the node: takes one more reference; always succeeds.
    pub fn echo_open(&mut self) -> (r: i32)
        requires
            old(self).refs_spec() < u64::MAX,
        ensures
            r == 0,
            final(self).refs_spec() == old(self).refs_spec() + 1,
            final(self).buf() == old(self).buf(),
            final(self).node_spec() == old(self).node_spec(),
    {
        self.refs = self.refs + 1;
        0
    }

    /// Closes the node: drops the reference an earlier open took; always succeeds.
    pub fn echo_close(&mut self) -> (r: i32)
        requires
            old(self).refs_spec() > 0,
        ensures
            r == 0,
            final(self).refs_spec() == old(self).refs_spec() - 1,
            final(self).buf() == old(self).buf(),
            final(self).node_spec() == old(self).node_spec(),
    {
        self.refs = self.refs - 1;
        0
    }
    /// Reads the message: with no descriptor, fails with a fault and moves
    /// nothing. Otherwise appends to the caller's bytes as many bytes as are
    /// readable at the descriptor's offset (at most its `resid`), taken from
    /// the start of the buffer, and advances the offset past them.
    /// The buffer is never changed.
    pub fn echo_read(&self, uio: &mut Option<Uio>) -> (r: Result<(), EchoError>)
        requires
            self.wf(),
        ensures
            old(uio).is_none() ==> r == Err::<(), EchoError>(EchoError::Fault)
                && final(uio).is_none(),
            old(uio).is_some() ==> r == Ok::<(), EchoError>(()) && final(uio).is_some() && ({
                let u = old(uio).unwrap();
                let v = final(uio).unwrap();
                let moved = read_bytes(self.buf(), u.offset as nat, u.resid as nat);
                &&& v.data@ == u.data@ + moved
                &&& v.offset == u.offset + moved.len()
                &&& v.resid == u.resid - moved.len()
            }),
    {
        match uio {
            None => Err(EchoError::Fault),
            Some(u) => {
                let mut moved = self.echo_buf.read_at(u.offset, u.resid);
                let n = moved.len();
                u.data.append(&mut moved);
                u.offset = u.offset + n;
                u.resid = u.resid - n;
                Ok(())
            },
        }
    }

    /// Writes to the message: with no descriptor, fails with a fault.
    /// An offset other than zero or the current length fails with an invalid
    /// argument. Otherwise the amount is the request capped at the
    /// room after the offset; when the caller's bytes end before that amount
    /// the transfer faults. On success those bytes are taken from the front of
    /// the caller's bytes and written at the offset, the offset advances past
    /// them. A failure leaves buffer and descriptor unchanged.
    pub fn echo_write(&mut self, uio: &mut Option<Uio>) -> (r: Result<(), EchoError>)
        requires
            old(self).wf(),
        ensures
            final(self).wf(),
            final(self).refs_spec() == old(self).refs_spec(),
            final(self).node_spec() == old(self).node_spec(),
            old(uio).is_none() ==> r == Err::<(), EchoError>(EchoError::Fault)
                && final(uio).is_none() && final(self).buf()
                == old(self).buf(),
            old(uio).is_some() ==> final(uio).is_some() && ({
                let u = old(uio).unwrap();
                let v = final(uio).unwrap();
                let amt = write_amount(u.offset as nat, u.resid as nat);
                if !write_offset_ok(old(self).buf(), u.offset as nat) {
                    &&& r == Err::<(), EchoError>(EchoError::InvalidArgument)
                    &&& final(self).buf() == old(self).buf()
                    &&& v == u
                } else if u.data@.len() < amt {
                    &&& r == Err::<(), EchoError>(EchoError::Fault)
                    &&& final(self).buf() == old(self).buf()
                    &&& v == u
                } else {
                    &&& r == Ok::<(), EchoError>(())
                    &&& final(self).buf() == written(
                        old(self).buf(),
                        u.offset as nat,
                        u.data@.take(amt as int),
                    )
                    &&& v.data@ == u.data@.skip(amt as int)
                    &&& v.offset == u.offset + amt
                    &&& v.resid == u.resid - amt
                }
            }),
    {
        match uio {
            None => Err(EchoError::Fault),
            Some(u) => {
                let length = self.echo_buf.get_len();
                if u.offset != 0 && u.offset != length {
                    return Err(EchoError::InvalidArgument);
                }
                let room = BUFFERSIZE - u.offset;
                let amt = if u.resid < room {
                    u.resid
                } else {
                    room
                };
                if u.data.len() < amt {
                    return Err(EchoError::Fault);
                }
                let mut payload = u.data.split_off(amt);
                core::mem::swap(&mut payload, &mut u.data);
                let res = self.echo_buf.write_at(u.offset, payload.as_slice());
                assert(res is Ok);
                u.offset = u.offset + amt;
                u.resid = u.resid - amt;
                Ok(())
            },
        }
    }
}

} // verus!
