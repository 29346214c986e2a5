//! The serial line's decisions: which request a received frame belongs to, which
//! queued request goes out next, and how many requests in a row went unanswered.
use vstd::prelude::*;

use crate::protocol::frame::{Dir, Frame, Prm};

verus! {

/// Whom a received frame is for.
#[derive(Debug, Clone, Copy, PartialEq, Eq, Structural)]
pub enum FrameOwner {
    /// A slave reports on its own: it is handled without a request.
    SlaveReport,
    /// The answer to a meter reading sent by sequence number.
    Reading,
    /// The answer to the serial request that waits.
    Pending,
    /// No one asked for it.
    Stray,
}

/// Whom a frame is for: a slave's report; else the reading with its sequence
/// number; else the waiting serial request when the sequence numbers match; else
/// no one.
pub open spec fn spec_frame_owner(frame: Frame, readings: Seq<u8>, pending: Option<u8>) -> FrameOwner {
    let seq = frame.user_data.info_field.spec_seq_num();
    if frame.ctrl_field.dir == Dir::Up && frame.ctrl_field.prm == Prm::Master {
        FrameOwner::SlaveReport
    } else if readings.contains(seq) {
        FrameOwner::Reading
    } else if pending == Some(seq) {
        FrameOwner::Pending
    } else {
        FrameOwner::Stray
    }
}

/// Whom a received frame is for, given the sequence numbers of the readings that
/// wait and of the serial request that waits, if any.
pub fn frame_owner(frame: &Frame, readings: &Vec<u8>, pending: Option<u8>) -> (o: FrameOwner)
    ensures
        o == spec_frame_owner(*frame, readings@, pending),
{
    if frame.is_slave_report() {
        return FrameOwner::SlaveReport;
    }
    let seq = frame.get_seq();
    let mut i: usize = 0;
    while i < readings.len()
        invariant
            i <= readings@.len(),
            forall|j: int| 0 <= j < i ==> readings@[j] != seq,
            seq == frame.user_data.info_field.spec_seq_num(),
            !(frame.ctrl_field.dir == Dir::Up && frame.ctrl_field.prm == Prm::Master),
        decreases readings.len() - i,
    {
        if readings[i] == seq {
            assert(readings@[i as int] == seq);
            assert(readings@.contains(seq));
            return FrameOwner::Reading;
        }
        i = i + 1;
    }
    assert(!readings@.contains(seq));
    match pending {
        Some(p) => {
            if frame.match_req(p) {
                FrameOwner::Pending
            } else {
                FrameOwner::Stray
            }
        },
        None => FrameOwner::Stray,
    }
}

/// The count of serial requests in a row that got no answer, after one more
/// request: an answer resets it, a timeout adds one (wrapping after 255).
pub fn timeouts_after(count: u8, answered: bool) -> (n: u8)
    ensures
        answered ==> n == 0,
        !answered ==> n == (if count == 255 { 0 } else { count + 1 }),
{
    if answered {
        0
    } else {
        count.wrapping_add(1)
    }
}

/// The next queued serial request to write, first in first out; none while a
/// request waits for its answer.
pub fn next_serial<T>(busy: bool, queue: &mut Vec<T>) -> (o: Option<T>)
    ensures
        busy ==> o is None && final(queue)@ == old(queue)@,
        !busy && old(queue)@.len() == 0 ==> o is None && final(queue)@ == old(queue)@,
        !busy && old(queue)@.len() > 0 ==> o == Some(old(queue)@[0]) && final(queue)@ == old(queue)@.skip(1),
{
    if busy || queue.len() == 0 {
        None
    } else {
        let first = queue.remove(0);
        assert(old(queue)@.remove(0) =~= old(queue)@.skip(1));
        Some(first)
    }
}

/// Whether a written frame waits for an answer: every frame but a master's
/// response to a slave report.
pub fn waits_for_answer(frame: &Frame) -> (b: bool)
    ensures
        b == !(frame.ctrl_field.dir == Dir::Down && frame.ctrl_field.prm == Prm::Slave),
{
    !frame.is_master_response()
}

} // verus!
