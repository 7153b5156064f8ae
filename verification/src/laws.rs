//! What holds of a socket across calls, proved from the contracts of the
//! single operations.

use vstd::prelude::*;
use crate::bus::is_input;
use crate::channel::{
    input_address, spec_recv_outcome, spec_send_outcome, ChannelView, ReadPlan, Transfer,
    WritePlan, MAX_TRANSFER_BYTES,
};
use crate::error::{ConnectionError, UsbError};
use crate::usb::{native_of, peek_post, read_post};

verus! {

/// Whatever endpoint is selected, the address that is read is an input of the
/// selected number, and a selector that already is an input is read as it is.
/// So the bus never refuses a receive for its direction.
pub proof fn lemma_read_address_is_an_input(endpoint: u8)
    ensures
        is_input(input_address(endpoint)),
        input_address(endpoint) & 0x7f == endpoint & 0x7f,
        is_input(endpoint) ==> input_address(endpoint) == endpoint,
{
    assert((endpoint | 0x80) & 0x80 == 0x80) by (bit_vector);
    assert((endpoint | 0x80) & 0x7f == endpoint & 0x7f) by (bit_vector);
    assert(endpoint & 0x80 == 0x80 ==> endpoint | 0x80 == endpoint) by (bit_vector);
}

/// On a socket as it is opened, a receive is for the bus to decide: with
/// nothing read ahead and a buffer that one transfer can take, it asks the bus
/// for a read of the input address of the default endpoint, within the default
/// timeout. A timeout is an answer that the contract of a receive admits, it
/// comes back as a transient failure, and the channel is then as it was.
pub proof fn lemma_recv_on_opened_socket_is_for_the_bus(buf: Seq<u8>, filled: Seq<u8>)
    requires
        buf.len() <= MAX_TRANSFER_BYTES,
        filled.len() == buf.len(),
    ensures
        ChannelView::initial().recv_address() == 0x80,
        is_input(ChannelView::initial().recv_address()),
        ChannelView::initial().plan_recv(buf.len()) == ReadPlan::Transfer(
            Transfer { endpoint: 0x80, timeout_ms: 100 },
        ),
        read_post(
            ChannelView::initial(),
            ChannelView::initial().recv_address(),
            buf,
            ChannelView::initial(),
            filled,
            Err(UsbError::Timeout),
        ),
        spec_recv_outcome(Err(UsbError::Timeout)) == Err::<usize, ConnectionError>(
            ConnectionError::TryAgain(UsbError::Timeout),
        ),
{
    assert(0u8 | 0x80 == 0x80) by (bit_vector);
    assert(0x80u8 & 0x80 == 0x80) by (bit_vector);
}

/// A receive that timed out is a transient failure, never a fatal one, and it
/// leaves the channel as it was: the same receive can be tried again.
pub proof fn lemma_timed_out_recv_is_transient(
    pre: ChannelView,
    buf: Seq<u8>,
    post: ChannelView,
    filled: Seq<u8>,
    r: Result<usize, ConnectionError>,
)
    requires
        read_post(pre, pre.recv_address(), buf, post, filled, native_of(r)),
        r == spec_recv_outcome(native_of(r)),
        native_of(r) == Err::<usize, UsbError>(UsbError::Timeout),
    ensures
        r == Err::<usize, ConnectionError>(ConnectionError::TryAgain(UsbError::Timeout)),
        post == pre,
{
}

/// No answer of the bus makes a send fail in a way to retry: a timeout is
/// fatal, and so are a write cut short and every other fault.
pub proof fn lemma_send_failure_is_fatal(native: Result<usize, UsbError>, len: usize)
    ensures
        spec_send_outcome(native, len) matches Err(e) ==> e is Other,
        spec_send_outcome(Err(UsbError::Timeout), len) == Err::<(), ConnectionError>(
            ConnectionError::Other(UsbError::Timeout),
        ),
        spec_send_outcome(native, len) is Ok <==> native == Ok::<usize, UsbError>(len),
{
}

/// A peek does not take what it shows. After a peek that reported `n` bytes, a
/// receive on the same endpoint succeeds without asking the bus, and what it
/// returns starts with the bytes that the peek showed: all `n` of them where
/// its buffer has room for `n`, and exactly those where the two buffers are of
/// one length. What its buffer had no room for keeps waiting.
pub proof fn lemma_peek_then_recv(
    pre: ChannelView,
    peek_buf: Seq<u8>,
    mid: ChannelView,
    shown: Seq<u8>,
    n: usize,
    recv_buf: Seq<u8>,
    post: ChannelView,
    received: Seq<u8>,
    r: Result<usize, UsbError>,
)
    requires
        peek_post(pre, pre.recv_address(), peek_buf, mid, shown, Ok(n)),
        read_post(mid, mid.recv_address(), recv_buf, post, received, r),
    ensures
        mid.recv_address() == pre.recv_address(),
        mid.plan_recv(recv_buf.len()) == ReadPlan::Replay,
        r is Ok,
        r.unwrap() <= recv_buf.len(),
        forall|i: int| 0 <= i < n && i < r.unwrap() ==> received[i] == shown[i],
        recv_buf.len() >= n ==> r.unwrap() >= n,
        recv_buf.len() == peek_buf.len() ==> r.unwrap() == n,
        post.pending_at(pre.recv_address()) matches Some(rest) ==> rest.len() > 0 && r.unwrap()
            == recv_buf.len(),
{
}

/// Neither a peek nor a read of one address touches what waits for another:
/// bytes that a peek has shown are lost to no later call but the receive that
/// takes them.
pub proof fn lemma_other_addresses_keep_waiting(
    pre: ChannelView,
    address: u8,
    buf: Seq<u8>,
    post: ChannelView,
    filled: Seq<u8>,
    r: Result<usize, UsbError>,
    other: u8,
)
    requires
        peek_post(pre, address, buf, post, filled, r) || read_post(
            pre,
            address,
            buf,
            post,
            filled,
            r,
        ),
        other != address,
    ensures
        post.pending_at(other) == pre.pending_at(other),
{
}

/// Selecting an endpoint redirects what follows: the next send asks the bus
/// for one write to the new endpoint, as it was selected, and the next receive
/// for a read of its input address, unless bytes of that address wait to be
/// replayed. A selector that is an input address is read as it is. Nothing
/// else of the channel changes, so nothing has to be acquired anew.
pub proof fn lemma_selected_endpoint_is_addressed(pre: ChannelView, endpoint: u8, capacity: nat)
    ensures
        ({
            let post = pre.with_endpoint(endpoint);
            &&& post.endpoint == endpoint
            &&& post.timeout_ms == pre.timeout_ms
            &&& post.pending == pre.pending
            &&& capacity <= MAX_TRANSFER_BYTES ==> post.plan_send(capacity) == WritePlan::Transfer(
                Transfer { endpoint, timeout_ms: pre.timeout_ms },
            )
            &&& post.plan_recv(capacity) matches ReadPlan::Transfer(t) ==> {
                &&& t.endpoint == input_address(endpoint)
                &&& is_input(endpoint) ==> t.endpoint == endpoint
            }
            &&& post.pending_at(input_address(endpoint)) is None ==> !(post.plan_recv(capacity)
                is Replay)
        }),
{
    lemma_read_address_is_an_input(endpoint);
}

} // verus!
