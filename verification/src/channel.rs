//! The state of one socket, apart from the device it talks to: the selected
//! endpoint, the bound on each transfer's duration, and the replay slots that
//! make `peek` non-destructive.
//!
//! Every operation is split into a plan, which says what to ask of the bus,
//! and an outcome, which says what the caller gets for each answer. Neither
//! touches a device, so both can be driven by a stand-in for the bus.

use std::collections::HashMap;
use vstd::prelude::*;
use vstd::slice::{slice_subrange, slice_to_vec};
use crate::error::{ConnectionError, UsbError};

verus! {

broadcast use vstd::std_specs::hash::group_hash_axioms;

/// The endpoint a socket is opened on.
pub const DEFAULT_ENDPOINT: u8 = 0x00;

/// The bound on a transfer's duration that a socket is opened with, in milliseconds.
pub const DEFAULT_TIMEOUT_MS: u32 = 100;

/// The longest buffer that one bulk transfer can take, in bytes.
pub const MAX_TRANSFER_BYTES: usize = 0x7fff_ffff;

/// One transfer to ask of the bus.
#[derive(Clone, Copy, Debug, PartialEq, Eq, Structural)]
pub struct Transfer {
    /// The address of the endpoint: its number, and in the top bit its direction.
    pub endpoint: u8,
    /// How long the transfer may block, in milliseconds.
    pub timeout_ms: u32,
}

/// What a read of some address has to do next.
#[derive(Clone, Copy, Debug, PartialEq, Eq, Structural)]
pub enum ReadPlan {
    /// Bytes of this address wait in its replay slot: serve them, and leave the bus alone.
    Replay,
    /// The buffer cannot be handed to the bus: fail with this fault.
    Refuse(UsbError),
    /// Ask the bus for this transfer.
    Transfer(Transfer),
}

/// What a write to some address has to do next.
#[derive(Clone, Copy, Debug, PartialEq, Eq, Structural)]
pub enum WritePlan {
    /// The buffer cannot be handed to the bus: fail with this fault.
    Refuse(UsbError),
    /// Ask the bus for this transfer.
    Transfer(Transfer),
}

/// The address at which the endpoint selected as `endpoint` is read: the same
/// number, as an input.
pub open spec fn input_address(endpoint: u8) -> u8 {
    endpoint | 0x80
}

/// The mathematical value of a [`Channel`].
pub struct ChannelView {
    /// The endpoint that `send`, `recv` and `peek` address.
    pub endpoint: u8,
    /// The bound on a transfer's duration, in milliseconds.
    pub timeout_ms: u32,
    /// The replay slots: for each address that a peek has read ahead of, the
    /// bytes that no receive has taken yet, oldest first.
    pub pending: Map<u8, Seq<u8>>,
}

impl ChannelView {
    /// The state a socket is opened in.
    pub open spec fn initial() -> ChannelView {
        ChannelView {
            endpoint: DEFAULT_ENDPOINT,
            timeout_ms: DEFAULT_TIMEOUT_MS,
            pending: Map::empty(),
        }
    }

    /// The address that `recv` and `peek` read.
    pub open spec fn recv_address(self) -> u8 {
        input_address(self.endpoint)
    }

    /// The address that `send` writes to: the selected endpoint, as it is.
    pub open spec fn send_address(self) -> u8 {
        self.endpoint
    }

    /// The bytes that wait for a read of `address`, if any do.
    pub open spec fn pending_at(self, address: u8) -> Option<Seq<u8>> {
        if self.pending.contains_key(address) {
            Some(self.pending[address])
        } else {
            None
        }
    }

    /// What a read of `address` into a buffer of `capacity` bytes does next.
    pub open spec fn plan_read(self, address: u8, capacity: nat) -> ReadPlan {
        if self.pending_at(address) is Some {
            ReadPlan::Replay
        } else if capacity > MAX_TRANSFER_BYTES {
            ReadPlan::Refuse(UsbError::InvalidParam)
        } else {
            ReadPlan::Transfer(Transfer { endpoint: address, timeout_ms: self.timeout_ms })
        }
    }

    /// What a write of `len` bytes to `address` does next.
    pub open spec fn plan_write(self, address: u8, len: nat) -> WritePlan {
        if len > MAX_TRANSFER_BYTES {
            WritePlan::Refuse(UsbError::InvalidParam)
        } else {
            WritePlan::Transfer(Transfer { endpoint: address, timeout_ms: self.timeout_ms })
        }
    }

    /// What a receive or a peek into a buffer of `capacity` bytes does next: a
    /// read of the selected endpoint's input address.
    pub open spec fn plan_recv(self, capacity: nat) -> ReadPlan {
        self.plan_read(self.recv_address(), capacity)
    }

    /// What a send of `len` bytes does next: a write to the selected endpoint.
    pub open spec fn plan_send(self, len: nat) -> WritePlan {
        self.plan_write(self.send_address(), len)
    }

    /// How many waiting bytes a read of `address` with `capacity` bytes of room takes.
    pub open spec fn replay_len(self, address: u8, capacity: nat) -> nat {
        match self.pending_at(address) {
            Some(bytes) => if bytes.len() <= capacity {
                bytes.len()
            } else {
                capacity
            },
            None => 0,
        }
    }

    /// The buffer `buf` after the waiting bytes of `address` were copied to its front.
    pub open spec fn replay_into(self, address: u8, buf: Seq<u8>) -> Seq<u8> {
        let n = self.replay_len(address, buf.len()) as int;
        match self.pending_at(address) {
            Some(bytes) => bytes.subrange(0, n) + buf.subrange(n, buf.len() as int),
            None => buf,
        }
    }

    /// The state after a receive on `address` took what fits in `capacity` bytes:
    /// what did not fit keeps waiting, and a slot read to its end is free again.
    /// The slots of other addresses are as they were.
    pub open spec fn after_replay(self, address: u8, capacity: nat) -> ChannelView {
        let n = self.replay_len(address, capacity) as int;
        match self.pending_at(address) {
            Some(bytes) => if n == bytes.len() {
                ChannelView { pending: self.pending.remove(address), ..self }
            } else {
                ChannelView {
                    pending: self.pending.insert(address, bytes.subrange(n, bytes.len() as int)),
                    ..self
                }
            },
            None => self,
        }
    }

    /// The state after a peek put `bytes`, read from `address`, into the slot of
    /// that address. The slots of other addresses are as they were.
    pub open spec fn after_stash(self, address: u8, bytes: Seq<u8>) -> ChannelView {
        ChannelView { pending: self.pending.insert(address, bytes), ..self }
    }

    /// The state after `endpoint` was selected.
    pub open spec fn with_endpoint(self, endpoint: u8) -> ChannelView {
        ChannelView { endpoint, ..self }
    }
}

/// A bound on a transfer's duration. It is never zero: a transfer that may
/// block for less than a millisecond would block forever.
struct Timeout {
    ms: u32,
}

impl Timeout {
    #[verifier::type_invariant]
    spec fn bounded(self) -> bool {
        self.ms >= 1
    }

    fn get(&self) -> (ms: u32)
        ensures
            ms == self.ms,
            ms >= 1,
    {
        proof {
            use_type_invariant(self);
        }
        self.ms
    }
}

/// The state of one socket, apart from its device.
pub struct Channel {
    endpoint: u8,
    timeout: Timeout,
    slots: HashMap<u8, Vec<u8>>,
}

impl View for Channel {
    type V = ChannelView;

    closed spec fn view(&self) -> ChannelView {
        ChannelView {
            endpoint: self.endpoint,
            timeout_ms: self.timeout.ms,
            pending: Map::new(
                |address: u8| self.slots@.contains_key(address),
                |address: u8| self.slots@[address]@,
            ),
        }
    }
}

impl Channel {
    /// The state a socket is opened in: the default endpoint, the default
    /// timeout, nothing read ahead.
    pub fn new() -> (c: Channel)
        ensures
            c@ == ChannelView::initial(),
    {
        let c = Channel {
            endpoint: DEFAULT_ENDPOINT,
            timeout: Timeout { ms: DEFAULT_TIMEOUT_MS },
            slots: HashMap::new(),
        };
        assert(c@.pending =~= Map::empty());
        c
    }

    /// The endpoint that `send`, `recv` and `peek` address.
    pub fn endpoint(&self) -> (e: u8)
        ensures
            e == self@.endpoint,
    {
        self.endpoint
    }

    /// The address that `recv` and `peek` read: the selected endpoint, as an input.
    pub fn recv_address(&self) -> (a: u8)
        ensures
            a == self@.recv_address(),
    {
        self.endpoint | 0x80
    }

    /// The address that `send` writes to: the selected endpoint, as it is.
    pub fn send_address(&self) -> (a: u8)
        ensures
            a == self@.send_address(),
            a == self@.endpoint,
    {
        self.endpoint
    }

    /// The bound on a transfer's duration, in milliseconds. It is never zero.
    pub fn timeout_ms(&self) -> (t: u32)
        ensures
            t == self@.timeout_ms,
            t >= 1,
    {
        self.timeout.get()
    }

    /// Selects the endpoint that later calls address. Bytes read ahead stay in
    /// their slots, each for when its address is read again.
    pub fn set_endpoint(&mut self, endpoint: u8)
        ensures
            final(self)@ == old(self)@.with_endpoint(endpoint),
    {
        self.endpoint = endpoint;
    }

    /// Sets the bound on a transfer's duration. Zero is refused with
    /// `InvalidParam`, and the bound stays as it was.
    pub fn set_timeout_ms(&mut self, timeout_ms: u32) -> (r: Result<(), UsbError>)
        ensures
            timeout_ms >= 1 ==> r is Ok && final(self)@ == (ChannelView {
                timeout_ms,
                ..old(self)@
            }),
            timeout_ms == 0 ==> r == Err::<(), UsbError>(UsbError::InvalidParam) && final(self)@
                == old(self)@,
    {
        if timeout_ms == 0 {
            Err(UsbError::InvalidParam)
        } else {
            self.timeout = Timeout { ms: timeout_ms };
            Ok(())
        }
    }

    /// What a read of `address` into a buffer of `capacity` bytes has to do next.
    /// A transfer it asks for is addressed to `address` and bounded by this
    /// channel's timeout.
    pub fn plan_read(&self, address: u8, capacity: usize) -> (plan: ReadPlan)
        ensures
            plan == self@.plan_read(address, capacity as nat),
            plan matches ReadPlan::Transfer(t) ==> t.timeout_ms >= 1 && capacity
                <= MAX_TRANSFER_BYTES,
    {
        if self.slots.contains_key(&address) {
            ReadPlan::Replay
        } else if capacity > MAX_TRANSFER_BYTES {
            ReadPlan::Refuse(UsbError::InvalidParam)
        } else {
            ReadPlan::Transfer(Transfer { endpoint: address, timeout_ms: self.timeout.get() })
        }
    }

    /// What a write of `len` bytes to `address` has to do next. A transfer it
    /// asks for is addressed to `address` and bounded by this channel's timeout.
    pub fn plan_write(&self, address: u8, len: usize) -> (plan: WritePlan)
        ensures
            plan == self@.plan_write(address, len as nat),
            plan matches WritePlan::Transfer(t) ==> t.timeout_ms >= 1 && len <= MAX_TRANSFER_BYTES,
    {
        if len > MAX_TRANSFER_BYTES {
            WritePlan::Refuse(UsbError::InvalidParam)
        } else {
            WritePlan::Transfer(Transfer { endpoint: address, timeout_ms: self.timeout.get() })
        }
    }

    /// What a receive or a peek into a buffer of `capacity` bytes has to do
    /// next: a read of the selected endpoint's input address.
    pub fn plan_recv(&self, capacity: usize) -> (plan: ReadPlan)
        ensures
            plan == self@.plan_recv(capacity as nat),
            plan matches ReadPlan::Transfer(t) ==> t.timeout_ms >= 1 && capacity
                <= MAX_TRANSFER_BYTES,
    {
        self.plan_read(self.recv_address(), capacity)
    }

    /// What a send of `len` bytes has to do next: a write to the selected
    /// endpoint, as it is.
    pub fn plan_send(&self, len: usize) -> (plan: WritePlan)
        ensures
            plan == self@.plan_send(len as nat),
            plan matches WritePlan::Transfer(t) ==> t.timeout_ms >= 1 && len <= MAX_TRANSFER_BYTES,
    {
        self.plan_write(self.send_address(), len)
    }

    /// Copies the bytes that wait for `address` to the front of `buf`, as many
    /// as fit, and returns their number. The slot keeps them all.
    pub fn preview(&self, address: u8, buf: &mut [u8]) -> (n: usize)
        ensures
            n == self@.replay_len(address, old(buf)@.len()),
            final(buf)@ == self@.replay_into(address, old(buf)@),
    {
        match self.slots.get(&address) {
            Some(bytes) => {
                let n: usize = if bytes.len() <= buf.len() {
                    bytes.len()
                } else {
                    buf.len()
                };
                let mut i: usize = 0;
                while i < n
                    invariant
                        i <= n,
                        n <= bytes@.len(),
                        n <= buf@.len(),
                        buf@.len() == old(buf)@.len(),
                        forall|j: int| 0 <= j < i ==> buf@[j] == bytes@[j],
                        forall|j: int| i <= j < buf@.len() ==> buf@[j] == old(buf)@[j],
                    decreases n - i,
                {
                    buf[i] = bytes[i];
                    i += 1;
                }
                assert(buf@ =~= self@.replay_into(address, old(buf)@));
                n
            },
            None => 0,
        }
    }

    /// Serves a receive on `address` from its replay slot: moves the waiting
    /// bytes to the front of `buf`, as many as fit, and returns their number.
    /// What did not fit keeps waiting. With nothing waiting for `address`,
    /// nothing changes and the number is zero.
    pub fn replay(&mut self, address: u8, buf: &mut [u8]) -> (n: usize)
        ensures
            n == old(self)@.replay_len(address, old(buf)@.len()),
            final(buf)@ == old(self)@.replay_into(address, old(buf)@),
            final(self)@ == old(self)@.after_replay(address, old(buf)@.len()),
    {
        let n = self.preview(address, buf);
        let mut served = false;
        let mut rest: Option<Vec<u8>> = None;
        match self.slots.get(&address) {
            Some(bytes) => {
                served = true;
                if n < bytes.len() {
                    rest = Some(slice_to_vec(slice_subrange(bytes.as_slice(), n, bytes.len())));
                }
            },
            None => {},
        }
        if served {
            match rest {
                Some(bytes) => {
                    self.slots.insert(address, bytes);
                },
                None => {
                    self.slots.remove(&address);
                },
            }
        }
        assert(self@.pending =~= old(self)@.after_replay(address, old(buf)@.len()).pending);
        n
    }

    /// Puts `bytes`, which a peek has just read from `address`, into the replay
    /// slot of that address. The slots of other addresses keep what they hold.
    pub fn stash(&mut self, address: u8, bytes: &[u8])
        ensures
            final(self)@ == old(self)@.after_stash(address, bytes@),
    {
        self.slots.insert(address, slice_to_vec(bytes));
        assert(self@.pending =~= old(self)@.after_stash(address, bytes@).pending);
    }
}

/// What a receive returns for an answer of the bus: the count as it is, a
/// timeout or an overflow as a transient failure, every other fault as a fatal one.
pub open spec fn spec_recv_outcome(native: Result<usize, UsbError>) -> Result<
    usize,
    ConnectionError,
> {
    match native {
        Ok(n) => Ok(n),
        Err(cause) => Err(ConnectionError::classify(cause)),
    }
}

/// What a send of `len` bytes as one unit returns for an answer of the bus.
/// Success is the bus taking every byte. A write cut short ran out of time,
/// and that, like every fault of the bus, is fatal.
pub open spec fn spec_send_outcome(native: Result<usize, UsbError>, len: usize) -> Result<
    (),
    ConnectionError,
> {
    match native {
        Ok(n) => if n == len {
            Ok(())
        } else {
            Err(ConnectionError::Other(UsbError::Timeout))
        },
        Err(cause) => Err(ConnectionError::Other(cause)),
    }
}

/// Turns the answer of the bus to a read into what a receive returns. A read
/// that timed out is always a transient failure.
pub fn recv_outcome(native: Result<usize, UsbError>) -> (r: Result<usize, ConnectionError>)
    ensures
        r == spec_recv_outcome(native),
        native == Err::<usize, UsbError>(UsbError::Timeout) ==> r == Err::<usize, ConnectionError>(
            ConnectionError::TryAgain(UsbError::Timeout),
        ),
        r matches Err(e) ==> (e is TryAgain <==> e.spec_cause().is_transient()),
{
    match native {
        Ok(n) => Ok(n),
        Err(cause) => Err(ConnectionError::from_recv_fault(cause)),
    }
}

/// Turns the answer of the bus to a write of `len` bytes into what a send of
/// them as one unit returns. No failure of a send is transient, a timeout
/// least of all.
pub fn send_outcome(native: Result<usize, UsbError>, len: usize) -> (r: Result<
    (),
    ConnectionError,
>)
    ensures
        r == spec_send_outcome(native, len),
        r is Ok <==> native == Ok::<usize, UsbError>(len),
        r matches Err(e) ==> e is Other,
        native == Err::<usize, UsbError>(UsbError::Timeout) ==> r == Err::<(), ConnectionError>(
            ConnectionError::Other(UsbError::Timeout),
        ),
{
    match native {
        Ok(n) => {
            if n == len {
                Ok(())
            } else {
                Err(ConnectionError::Other(UsbError::Timeout))
            }
        },
        Err(cause) => Err(ConnectionError::Other(cause)),
    }
}

} // verus!
