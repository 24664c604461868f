//! An overlapped named pipe: what is made of the answers of the system's calls.

use vstd::prelude::*;

use crate::protocol::{
    fence_value_message, ready_message, send_fence_value, send_ready,
};
use crate::wire::{push_bytes, u32_at, u32_field, u32_le, u64_le};

verus! {

/// The size of the pipe's buffers.
pub const PIPE_BUFFER: u32 = 524288;

/// The operation was started and is not finished.
pub const ERROR_IO_PENDING: u32 = 997;

/// The consumer connected before it was waited for.
pub const ERROR_PIPE_CONNECTED: u32 = 535;

/// The error that a result code carries in its low sixteen bits.
pub open spec fn error_of(code: u32) -> u32 {
    code % 0x1_0000
}

fn low_word(code: u32) -> (error: u32)
    ensures
        error == error_of(code),
{
    assert(code & 0xffff == code % 0x1_0000) by (bit_vector);
    code & 0xffff
}

/// What follows a call that starts an operation.
#[derive(Clone, Copy, Debug, PartialEq, Eq, Structural)]
pub enum StartStep {
    /// It is done.
    Done,
    /// Wait for it.
    Wait,
    /// It failed with this code. It must not be waited for: nothing would ever signal
    /// its end.
    Fail { code: u32 },
}

/// What follows the attempt to connect.
pub open spec fn accept_step(connected: Result<(), u32>) -> StartStep {
    match connected {
        Ok(()) => StartStep::Done,
        Err(code) => if error_of(code) == ERROR_IO_PENDING {
            StartStep::Wait
        } else if error_of(code) == ERROR_PIPE_CONNECTED {
            StartStep::Done
        } else {
            StartStep::Fail { code }
        },
    }
}

/// What follows the start of a read or a write.
pub open spec fn transfer_step(started: Result<(), u32>) -> StartStep {
    match started {
        Err(code) if error_of(code) != ERROR_IO_PENDING => StartStep::Fail { code },
        _ => StartStep::Wait,
    }
}

/// What follows the attempt to connect, which gives a code where it does not succeed
/// at once.
pub fn accept(connected: Result<(), u32>) -> (step: StartStep)
    ensures
        step == accept_step(connected),
{
    match connected {
        Ok(()) => StartStep::Done,
        Err(code) => {
            if low_word(code) == ERROR_IO_PENDING {
                StartStep::Wait
            } else if low_word(code) != ERROR_PIPE_CONNECTED {
                StartStep::Fail { code }
            } else {
                StartStep::Done
            }
        },
    }
}

/// What follows the start of a read or a write: its result is waited for, even where
/// it was there at once.
pub fn wait(started: Result<(), u32>) -> (step: StartStep)
    ensures
        step == transfer_step(started),
{
    match started {
        Ok(()) => StartStep::Wait,
        Err(code) => {
            if low_word(code) != ERROR_IO_PENDING {
                StartStep::Fail { code }
            } else {
                StartStep::Wait
            }
        },
    }
}

/// How far a transfer of a given number of bytes is.
#[derive(Clone, Copy, Debug, PartialEq, Eq, Structural)]
pub enum Progress {
    /// This many bytes are left.
    More { left: usize },
    /// All were transferred.
    Complete,
    /// The consumer is gone.
    Disconnected,
}

/// How far a transfer is after `moved` bytes of the `left` ones that were left.
pub open spec fn progress(left: int, moved: int) -> Progress {
    if moved == 0 {
        Progress::Disconnected
    } else if moved == left {
        Progress::Complete
    } else {
        Progress::More { left: (left - moved) as usize }
    }
}

/// Where a transfer of so many bytes begins.
pub open spec fn start(length: usize) -> Progress {
    if length == 0 {
        Progress::Complete
    } else {
        Progress::More { left: length }
    }
}

/// A read that goes on until every byte is there.
pub struct ExactRead {
    pub wanted: usize,
    pub received: Vec<u8>,
}

impl ExactRead {
    /// Not more was received than is wanted.
    pub open spec fn wf(self) -> bool {
        self.received@.len() <= self.wanted
    }

    /// A read of so many bytes. One of none is complete at once.
    pub fn new(wanted: usize) -> (read: (ExactRead, Progress))
        ensures
            read.0.wf(),
            read.0.wanted == wanted,
            read.0.received@ == Seq::<u8>::empty(),
            read.1 == start(wanted),
    {
        let progress = if wanted == 0 {
            Progress::Complete
        } else {
            Progress::More { left: wanted }
        };
        (ExactRead { wanted, received: Vec::new() }, progress)
    }

    /// Takes the bytes that one operation transferred; none means that the consumer is
    /// gone.
    pub fn receive(&mut self, bytes: &[u8]) -> (progressed: Progress)
        requires
            old(self).wf(),
            old(self).received@.len() < old(self).wanted,
            bytes@.len() <= old(self).wanted - old(self).received@.len(),
        ensures
            final(self).wf(),
            final(self).wanted == old(self).wanted,
            final(self).received@ == old(self).received@ + bytes@,
            progressed == progress(
                old(self).wanted - old(self).received@.len(),
                bytes@.len() as int,
            ),
    {
        push_bytes(&mut self.received, bytes);
        if bytes.len() == 0 {
            Progress::Disconnected
        } else if self.received.len() == self.wanted {
            Progress::Complete
        } else {
            Progress::More { left: self.wanted - self.received.len() }
        }
    }
}

/// A write that goes on until every byte was sent.
#[derive(Clone, Copy, Debug, PartialEq, Eq, Structural)]
pub struct ExactWrite {
    pub length: usize,
    pub written: usize,
}

impl ExactWrite {
    /// Not more was written than there is.
    pub open spec fn wf(self) -> bool {
        self.written <= self.length
    }

    /// A write of so many bytes. One of none is complete at once.
    pub fn new(length: usize) -> (write: (ExactWrite, Progress))
        ensures
            write.0 == (ExactWrite { length, written: 0 }),
            write.1 == start(length),
    {
        let progress = if length == 0 {
            Progress::Complete
        } else {
            Progress::More { left: length }
        };
        (ExactWrite { length, written: 0 }, progress)
    }

    /// Takes how many bytes one operation transferred; none means that the consumer is
    /// gone. The next one starts at `written`.
    pub fn sent(&mut self, count: usize) -> (progressed: Progress)
        requires
            old(self).written < old(self).length,
            count <= old(self).length - old(self).written,
        ensures
            final(self).wf(),
            final(self).length == old(self).length,
            final(self).written == old(self).written + count,
            progressed == progress(old(self).length - old(self).written, count as int),
    {
        self.written = self.written + count;
        if count == 0 {
            Progress::Disconnected
        } else if self.written == self.length {
            Progress::Complete
        } else {
            Progress::More { left: self.length - self.written }
        }
    }
}

/// The notice of a finished frame.
pub open spec fn announcement(index: u32, width: u32, height: u32, fence_value: u64) -> Seq<u8> {
    fence_value_message(fence_value) + ready_message(index, width, height)
}

/// Appends the notice of a finished frame: first the fence's value at which it is
/// complete, then which buffer it is in.
pub fn announce_frame(out: &mut Vec<u8>, index: u32, width: u32, height: u32, fence_value: u64)
    ensures
        final(out)@ == old(out)@ + announcement(index, width, height, fence_value),
{
    send_fence_value(out, fence_value);
    send_ready(out, index, width, height);
    assert(out@ =~= old(out)@ + announcement(index, width, height, fence_value));
}

/// How far an address is from a base, modulo 2^64.
pub open spec fn offset_from(address: u64, base: u64) -> u64 {
    ((address - base) % 0x1_0000_0000_0000_0000) as u64
}

/// An address within the program, as an offset from where it was loaded.
pub fn module_offset(address: u64, base: u64) -> (offset: u64)
    ensures
        offset == offset_from(address, base),
{
    address.wrapping_sub(base)
}

/// However a read is cut into operations, it is complete exactly when it has what was
/// wanted, and nothing but bytes from the consumer brings it further.
pub proof fn reads_complete_when_full(wanted: int, received: int, moved: int)
    requires
        0 <= received < wanted <= usize::MAX,
        0 <= moved <= wanted - received,
    ensures
        progress(wanted - received, moved) == Progress::Complete <==> received + moved == wanted,
        progress(wanted - received, moved) matches Progress::More { left } ==> left == wanted - (
        received + moved) && left < wanted - received,
{
}

/// A result code carries its error in the low sixteen bits, whatever facility is above.
pub proof fn a_code_carries_its_error(facility: u32, error: u32)
    requires
        facility < 0x1_0000,
        error < 0x1_0000,
    ensures
        error_of((facility * 0x1_0000 + error) as u32) == error,
{
}

/// A consumer is waited for exactly where its coming is still pending, and is there where
/// the attempt succeeded or it came first. Every other code is a failure, and is the one
/// that is reported.
pub proof fn a_consumer_is_waited_for(facility: u32, error: u32)
    requires
        facility < 0x1_0000,
        error < 0x1_0000,
    ensures
        accept_step(Ok(())) == StartStep::Done,
        ({
            let code = (facility * 0x1_0000 + error) as u32;
            accept_step(Err(code)) == if error == 997 {
                StartStep::Wait
            } else if error == 535 {
                StartStep::Done
            } else {
                StartStep::Fail { code }
            }
        }),
{
}

/// A transfer is waited for where it was started, be it finished already or still pending,
/// and never where it was not: nothing would signal its end.
pub proof fn a_transfer_that_started_is_waited_for(facility: u32, error: u32)
    requires
        facility < 0x1_0000,
        error < 0x1_0000,
    ensures
        transfer_step(Ok(())) == StartStep::Wait,
        ({
            let code = (facility * 0x1_0000 + error) as u32;
            transfer_step(Err(code)) == if error == 997 {
                StartStep::Wait
            } else {
                StartStep::Fail { code }
            }
        }),
{
}

/// A consumer is gone exactly where an operation transfers nothing; else what was moved and
/// what is left are together what was left before.
pub proof fn a_transfer_makes_progress(left: int, moved: int)
    requires
        0 < left <= usize::MAX,
        0 <= moved <= left,
    ensures
        progress(left, moved) == Progress::Disconnected <==> moved == 0,
        progress(left, moved) == Progress::Complete <==> moved == left,
        progress(left, moved) matches Progress::More { left: still } ==> moved + still == left
            && still > 0,
{
}

/// An offset leads from the base back to the address.
pub proof fn an_offset_leads_back(address: u64, base: u64)
    ensures
        (base + offset_from(address, base)) % 0x1_0000_0000_0000_0000 == address,
        address >= base ==> offset_from(address, base) == address - base,
{
}

/// A transfer begins with all of it left, and is complete at once only where it is of nothing.
pub proof fn a_transfer_begins_with_all_of_it(length: usize)
    ensures
        start(length) == Progress::Complete <==> length == 0,
        start(length) matches Progress::More { left } ==> left == length,
        start(length) != Progress::Disconnected,
{
}

/// A consumer learns what to wait for before it learns which buffer to read: the fence's
/// value is first, and the buffer with its size is behind it.
#[verifier::rlimit(50)]
pub proof fn a_fence_is_told_of_before_its_frame(
    index: u32,
    width: u32,
    height: u32,
    fence_value: u64,
)
    ensures
        ({
            let message = announcement(index, width, height, fence_value);
            &&& message.len() == 28
            &&& message.take(4) == seq![0x46u8, 0x4Eu8, 0x43u8, 0x56u8]
            &&& message.subrange(4, 12) == u64_le(fence_value)
            &&& message.subrange(12, 16) == seq![0x52u8, 0x44u8, 0x59u8, 0x21u8]
            &&& u32_at(message, 16) == index
            &&& u32_at(message, 20) == width
            &&& u32_at(message, 24) == height
        }),
{
    let message = announcement(index, width, height, fence_value);
    assert(message.take(4) =~= seq![0x46u8, 0x4Eu8, 0x43u8, 0x56u8]);
    assert(message.subrange(4, 12) =~= u64_le(fence_value));
    assert(message.subrange(12, 16) =~= seq![0x52u8, 0x44u8, 0x59u8, 0x21u8]);
    assert(message.subrange(16, 20) =~= u32_le(index));
    assert(message.subrange(20, 24) =~= u32_le(width));
    assert(message.subrange(24, 28) =~= u32_le(height));
    u32_field(message, 16, index);
    u32_field(message, 20, width);
    u32_field(message, 24, height);
}

} // verus!
