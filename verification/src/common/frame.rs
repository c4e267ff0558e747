//! What the collaborators report to have written, held against the buffers
//! they wrote to.

use vstd::prelude::*;

verus! {

/// How many bytes of a buffer of `capacity` bytes hold what a collaborator
/// reports to have put there. One that reports more than the buffer can
/// hold is not believed: the error is the buffer's full length, which is
/// what can be surfaced of it.
pub open spec fn spec_reported_len(capacity: usize, reported: usize) -> Result<usize, usize> {
    if reported <= capacity {
        Ok(reported)
    } else {
        Err(capacity)
    }
}

/// What becomes of a frame of `received` bytes in a receive buffer of
/// `capacity` bytes that the transport unwrapped into a buffer of
/// `transport_capacity` bytes: `unwrapped` is the length of the message and
/// whether it is secured, or `None` where the transport refused the frame.
///
/// The message is taken in when it fits both buffers, since it is copied
/// from the one back into the other. A frame that the transport refused, or
/// whose message is reported longer than either buffer, is surfaced as it
/// came, with the number of bytes received; one that the device reported
/// longer than the receive buffer, with that buffer's full length.
pub open spec fn spec_frame_received(
    capacity: usize,
    transport_capacity: usize,
    received: usize,
    unwrapped: Option<(usize, bool)>,
) -> Result<(usize, bool), usize> {
    match spec_reported_len(capacity, received) {
        Ok(_) => match unwrapped {
            Some((used, secured_message)) => if used <= capacity && used <= transport_capacity {
                Ok((used, secured_message))
            } else {
                Err(received)
            },
            None => Err(received),
        },
        Err(surfaced) => Err(surfaced),
    }
}

/// Holds the number of bytes that a collaborator (the device, the
/// transport, the key holder) reports to have written against the buffer
/// of `capacity` bytes that it wrote to. The result is the number of bytes
/// to go on with, which the buffer has; or, as the error, the buffer's full
/// length where more was reported than the buffer can hold.
pub fn reported_len(capacity: usize, reported: usize) -> (r: Result<usize, usize>)
    ensures
        r == spec_reported_len(capacity, reported),
        r matches Ok(used) ==> used <= capacity,
        r matches Err(surfaced) ==> surfaced <= capacity,
{
    if reported <= capacity {
        Ok(reported)
    } else {
        Err(capacity)
    }
}

/// Holds what the device and the transport report of a received frame
/// against the two buffers: the receive buffer of `capacity` bytes, of which
/// the device filled `received`, and the buffer of `transport_capacity`
/// bytes into which the transport unwrapped the frame.
///
/// The result is the length of the message and whether it is secured; both
/// buffers have that many bytes, so that the message can be copied from the
/// one back into the other. The error is the number of bytes of the receive
/// buffer to surface, which that buffer has.
pub fn frame_received(
    capacity: usize,
    transport_capacity: usize,
    received: usize,
    unwrapped: Option<(usize, bool)>,
) -> (r: Result<(usize, bool), usize>)
    ensures
        r == spec_frame_received(capacity, transport_capacity, received, unwrapped),
        r matches Ok((used, _)) ==> used <= capacity && used <= transport_capacity,
        r matches Err(surfaced) ==> surfaced <= capacity,
{
    match reported_len(capacity, received) {
        Ok(_) => match unwrapped {
            Some((used, secured_message)) => {
                if used <= capacity && used <= transport_capacity {
                    Ok((used, secured_message))
                } else {
                    Err(received)
                }
            },
            None => Err(received),
        },
        Err(surfaced) => Err(surfaced),
    }
}

} // verus!
