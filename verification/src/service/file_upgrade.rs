//! Module upgrade: the file is cut into segments that each fit a frame, every
//! segment must be acknowledged by number, then the module is watched until it
//! reports the upgrade done or the wait runs out.
use vstd::prelude::*;

use crate::error::Error;
use crate::protocol::app_data::file_transfer::{
    FileFlag, FileTransferRequest, FileTransferResponse, FILE_CHECK_ERROR, FILE_TRANSFER_PREFIX_LEN,
};
use crate::protocol::app_data::route_data_read::{local_now, DateTime};
use crate::protocol::app_data::route_get::{CurrentStatus, RunningStatusResponse};
use crate::protocol::app_data::{push_padded, spec_padded};
use crate::protocol::frame::FRAME_SIZE;
use crate::protocol::user_data::USER_DATA_PREFIX_SIZE;
use crate::text::push_char;

verus! {

/// Where an upgrade stands.
#[derive(Debug, Clone, Copy, PartialEq, Eq, Structural)]
pub enum UpgradeStatus {
    Idle,
    Upgrading,
    Finished,
}

impl UpgradeStatus {
    pub open spec fn spec_code(self) -> u8 {
        match self {
            UpgradeStatus::Idle => 0,
            UpgradeStatus::Upgrading => 1,
            UpgradeStatus::Finished => 2,
        }
    }

    pub fn code(self) -> (b: u8)
        ensures
            b == self.spec_code(),
    {
        match self {
            UpgradeStatus::Idle => 0,
            UpgradeStatus::Upgrading => 1,
            UpgradeStatus::Finished => 2,
        }
    }
}

/// How an upgrade ended.
#[derive(Debug, Clone, Copy, PartialEq, Eq)]
pub enum UpgradeResult {
    Success,
    FileError,
    TransferFailed,
    OtherError,
}

impl UpgradeResult {
    pub open spec fn spec_code(self) -> u8 {
        match self {
            UpgradeResult::Success => 0,
            UpgradeResult::FileError => 1,
            UpgradeResult::TransferFailed => 2,
            UpgradeResult::OtherError => 255,
        }
    }

    pub fn code(self) -> (b: u8)
        ensures
            b == self.spec_code(),
    {
        match self {
            UpgradeResult::Success => 0,
            UpgradeResult::FileError => 1,
            UpgradeResult::TransferFailed => 2,
            UpgradeResult::OtherError => 255,
        }
    }
}

/// The midnight that starts 1970, when nothing has happened yet.
pub open spec fn spec_epoch() -> DateTime {
    DateTime { year: 1970, month: 1, day: 1, hour: 0, minute: 0, second: 0 }
}

/// What is known of the current or last upgrade.
#[derive(Debug, Clone, Copy, PartialEq, Eq)]
pub struct FileUpgradeState {
    pub status: UpgradeStatus,
    pub start_time: DateTime,
    pub end_time: DateTime,
    pub upgrade_result: UpgradeResult,
    pub upgrading: bool,
}

impl FileUpgradeState {
    /// No upgrade yet.
    pub fn new() -> (s: Self)
        ensures
            s.status == UpgradeStatus::Idle,
            s.start_time == spec_epoch(),
            s.end_time == spec_epoch(),
            s.upgrade_result == UpgradeResult::Success,
            !s.upgrading,
    {
        let epoch = DateTime { year: 1970, month: 1, day: 1, hour: 0, minute: 0, second: 0 };
        FileUpgradeState {
            status: UpgradeStatus::Idle,
            start_time: epoch,
            end_time: epoch,
            upgrade_result: UpgradeResult::Success,
            upgrading: false,
        }
    }

    /// An upgrade begins now.
    pub fn start_upgrade(&mut self)
        ensures
            final(self).upgrading,
            final(self).status == UpgradeStatus::Idle,
            final(self).start_time.valid(),
            final(self).end_time == old(self).end_time,
            final(self).upgrade_result == old(self).upgrade_result,
    {
        self.upgrading = true;
        self.status = UpgradeStatus::Idle;
        self.start_time = local_now();
    }

    /// The upgrade ends now with `upgrade_result`.
    pub fn finish_upgrade(&mut self, upgrade_result: UpgradeResult)
        ensures
            !final(self).upgrading,
            final(self).status == UpgradeStatus::Finished,
            final(self).end_time.valid(),
            final(self).start_time == old(self).start_time,
            final(self).upgrade_result == upgrade_result,
    {
        self.status = UpgradeStatus::Finished;
        self.end_time = local_now();
        self.upgrade_result = upgrade_result;
        self.upgrading = false;
    }

    /// Takes the module's running status after a transfer: an upgrade that the
    /// module no longer reports as running has finished. The outcome handed to the
    /// waiting upgrade is `Ok(0)`, or the error.
    pub fn uart_file_transfer_finish(&mut self, status: Result<RunningStatusResponse, Error>) -> (r: Result<usize, Error>)
        requires
            status matches Ok(s) ==> s.work_status.meter_status <= 3,
        ensures
            match status {
                Ok(s) => {
                    &&& r == Ok::<usize, Error>(0)
                    &&& final(self).status == (if CurrentStatus::spec_from_code(s.work_status.meter_status)
                        != CurrentStatus::Upgrading {
                        UpgradeStatus::Finished
                    } else {
                        old(self).status
                    })
                },
                Err(e) => r == Err::<usize, Error>(e) && final(self).status == old(self).status,
            },
            final(self).upgrading == old(self).upgrading,
            final(self).start_time == old(self).start_time,
            final(self).end_time == old(self).end_time,
            final(self).upgrade_result == old(self).upgrade_result,
    {
        match status {
            Ok(s) => {
                if s.current_status() != CurrentStatus::Upgrading {
                    self.status = UpgradeStatus::Finished;
                }
                Ok(0)
            },
            Err(e) => Err(e),
        }
    }
}

/// The text `YYYY-MM-DD hh:mm:ss` of a time.
pub open spec fn spec_time_text(t: DateTime) -> Seq<char> {
    spec_padded(t.year as nat, 4) + seq!['-'] + spec_padded(t.month as nat, 2) + seq!['-']
        + spec_padded(t.day as nat, 2) + seq![' '] + spec_padded(t.hour as nat, 2) + seq![':']
        + spec_padded(t.minute as nat, 2) + seq![':'] + spec_padded(t.second as nat, 2)
}

/// Whether a time can be written with a four-digit year.
pub open spec fn spec_printable(t: DateTime) -> bool {
    0 <= t.year <= 9999 && t.month <= 99 && t.day <= 99 && t.hour <= 99 && t.minute <= 99 && t.second <= 99
}

/// Writes a time as `YYYY-MM-DD hh:mm:ss`.
pub fn time_text(t: &DateTime) -> (s: String)
    requires
        spec_printable(*t),
    ensures
        s@ == spec_time_text(*t),
{
    let mut s = String::new();
    push_padded(&mut s, t.year as u32, 4);
    push_char(&mut s, '-');
    push_padded(&mut s, t.month, 2);
    push_char(&mut s, '-');
    push_padded(&mut s, t.day, 2);
    push_char(&mut s, ' ');
    push_padded(&mut s, t.hour, 2);
    push_char(&mut s, ':');
    push_padded(&mut s, t.minute, 2);
    push_char(&mut s, ':');
    push_padded(&mut s, t.second, 2);
    assert(s@ =~= spec_time_text(*t));
    s
}

/// The answer to an upgrade-state query: status and result codes and both times.
#[derive(Debug, Clone, PartialEq, Eq)]
pub struct MqttFileUpgradeResponse {
    pub upgrade_status: u8,
    pub start_time: String,
    pub end_time: String,
    pub upgrade_result: u8,
}

impl MqttFileUpgradeResponse {
    pub fn from_state(state: &FileUpgradeState) -> (r: Self)
        requires
            spec_printable(state.start_time),
            spec_printable(state.end_time),
        ensures
            r.upgrade_status == state.status.spec_code(),
            r.start_time@ == spec_time_text(state.start_time),
            r.end_time@ == spec_time_text(state.end_time),
            r.upgrade_result == state.upgrade_result.spec_code(),
    {
        MqttFileUpgradeResponse {
            upgrade_status: state.status.code(),
            start_time: time_text(&state.start_time),
            end_time: time_text(&state.end_time),
            upgrade_result: state.upgrade_result.code(),
        }
    }
}

/// Bytes of a file-transfer frame around its file data (without address field).
pub const UPGRADE_PREFIX_LEN: usize = 26;

/// Which modules an upgrade request names: 0 the module, 1 master and slaves, 2 slaves.
pub fn file_flag_from_request(flag: u8) -> (f: FileFlag)
    requires
        flag <= 2,
    ensures
        f == (if flag == 0 {
            FileFlag::Module
        } else if flag == 1 {
            FileFlag::MasterAndSlave
        } else {
            FileFlag::Slave
        }),
{
    match flag {
        0 => FileFlag::Module,
        1 => FileFlag::MasterAndSlave,
        _ => FileFlag::Slave,
    }
}

/// File bytes per segment: what the module takes in one frame, less the frame's
/// own bytes.
pub fn segment_data_size(max_packet_per_packet: u16) -> (n: usize)
    requires
        max_packet_per_packet > UPGRADE_PREFIX_LEN,
    ensures
        n == max_packet_per_packet - UPGRADE_PREFIX_LEN,
        n >= 1,
{
    assert(FRAME_SIZE + USER_DATA_PREFIX_SIZE + FILE_TRANSFER_PREFIX_LEN == UPGRADE_PREFIX_LEN);
    max_packet_per_packet as usize - (FRAME_SIZE + USER_DATA_PREFIX_SIZE + FILE_TRANSFER_PREFIX_LEN)
}

/// The number of segments of `len` bytes, `size` at a time (the last may be shorter).
pub open spec fn spec_segment_count(len: nat, size: nat) -> nat {
    if size == 0 {
        0
    } else {
        ((len + size - 1) / size as int) as nat
    }
}

pub fn segment_count(len: usize, size: usize) -> (n: usize)
    requires
        size >= 1,
    ensures
        n == spec_segment_count(len as nat, size as nat),
{
    let q = len / size;
    if len % size == 0 {
        proof {
            assert((len + size - 1) / (size as int) == q) by (nonlinear_arith)
                requires
                    size >= 1,
                    len % size == 0,
                    q == len / size,
            ;
        }
        q
    } else {
        proof {
            assert((len + size - 1) / (size as int) == q + 1) by (nonlinear_arith)
                requires
                    size >= 1,
                    len % size != 0,
                    q == len / size,
            ;
            assert(q < len) by (nonlinear_arith)
                requires
                    size >= 1,
                    len % size != 0,
                    q == len / size,
            ;
        }
        q + 1
    }
}

/// Where segment `i` ends: a whole segment further, or at the end of the file.
pub open spec fn spec_segment_end(len: nat, size: nat, i: nat) -> nat {
    if (i + 1) * size <= len {
        (i + 1) * size
    } else {
        len
    }
}

/// Segment `i` of a file cut into `size`-byte pieces, as a transfer request; the
/// count of segments is written in sixteen bits.
pub fn upgrade_segment(flag: FileFlag, content: &[u8], size: usize, i: usize) -> (r: FileTransferRequest)
    requires
        size >= 1,
        i < spec_segment_count(content@.len(), size as nat),
        spec_segment_count(content@.len(), size as nat) % 65536 != 0,
    ensures
        r.file_flag == flag,
        r.segment_num == spec_segment_count(content@.len(), size as nat) as u16,
        r.segment_offset == i as u32,
        r.file_attr == (if (i as u32) == (spec_segment_count(content@.len(), size as nat) as u16) - 1 {
            1u8
        } else {
            0u8
        }),
        r.file_data@ == content@.subrange(
            i * size,
            spec_segment_end(content@.len(), size as nat, i as nat) as int,
        ),
        r.segment_len == r.file_data@.len() as u16,
        r.file_command == 0,
{
    let len = content.len();
    let count = segment_count(len, size);
    proof {
        assert(i * size < len) by (nonlinear_arith)
            requires
                size >= 1,
                i < count,
                count == (len + size - 1) / (size as int),
        ;
    }
    let start = i * size;
    let end = if len - start >= size {
        start + size
    } else {
        len
    };
    proof {
        assert((i + 1) * size == start + size) by (nonlinear_arith)
            requires
                start == i * size,
        ;
    }
    let data = crate::bytes::copy_range(content, start, end);
    assert((count as u16) as int == count as int % 65536) by (bit_vector);
    FileTransferRequest::new(flag, count as u16, i as u32, data)
}

/// What an acknowledgement of segment `expected` means: the right number goes on;
/// the file-check number ends the upgrade with a file error; another number, or no
/// acknowledgement, ends it as a failed transfer.
pub fn check_segment_answer(answer: Result<usize, Error>, expected: usize) -> (r: Result<(), UpgradeResult>)
    ensures
        match answer {
            Ok(segment) => if segment == FILE_CHECK_ERROR as usize {
                r == Err::<(), UpgradeResult>(UpgradeResult::FileError)
            } else if segment != expected {
                r == Err::<(), UpgradeResult>(UpgradeResult::TransferFailed)
            } else {
                r == Ok::<(), UpgradeResult>(())
            },
            Err(_) => r == Err::<(), UpgradeResult>(UpgradeResult::TransferFailed),
        },
{
    match answer {
        Ok(segment) => {
            if segment == FILE_CHECK_ERROR as usize {
                Err(UpgradeResult::FileError)
            } else if segment != expected {
                Err(UpgradeResult::TransferFailed)
            } else {
                Ok(())
            }
        },
        Err(_) => Err(UpgradeResult::TransferFailed),
    }
}

/// The acknowledged segment of a transfer answer.
pub fn uart_file_transfer(response: Result<FileTransferResponse, Error>) -> (r: Result<usize, Error>)
    ensures
        match response {
            Ok(t) => r == Ok::<usize, Error>(t.segment_flag as usize),
            Err(e) => r == Err::<usize, Error>(e),
        },
{
    match response {
        Ok(t) => Ok(t.segment_flag as usize),
        Err(e) => Err(e),
    }
}

/// Seconds between status queries while the module upgrades.
pub const WAIT_TIME: u64 = 30;

/// How many waits of at most thirty seconds make up the module's upgrade time.
pub fn wait_total_count(upgrade_wait_time: u64) -> (n: u64)
    requires
        upgrade_wait_time <= u32::MAX,
    ensures
        n == spec_segment_count(upgrade_wait_time as nat, 30),
{
    segment_count(upgrade_wait_time as usize, WAIT_TIME as usize) as u64
}

/// The length of wait `wait_count` of `total`: thirty seconds, the last one what
/// remains of the upgrade time.
pub fn wait_time(wait_count: u64, total: u64, upgrade_wait_time: u64) -> (t: u64)
    requires
        wait_count < total,
        total == spec_segment_count(upgrade_wait_time as nat, 30),
    ensures
        wait_count == total - 1 ==> t == upgrade_wait_time - wait_count * 30,
        wait_count != total - 1 ==> t == 30,
{
    if wait_count == total - 1 {
        proof {
            assert(wait_count * 30 <= upgrade_wait_time) by (nonlinear_arith)
                requires
                    wait_count + 1 == total,
                    total == (upgrade_wait_time + 29) / 30,
            ;
        }
        upgrade_wait_time - wait_count * WAIT_TIME
    } else {
        WAIT_TIME
    }
}

/// How the watch ended: all waits used up is a failure, otherwise success.
pub fn upgrade_outcome(wait_count: u64, total: u64) -> (r: UpgradeResult)
    ensures
        r == (if wait_count == total {
            UpgradeResult::OtherError
        } else {
            UpgradeResult::Success
        }),
{
    if wait_count == total {
        UpgradeResult::OtherError
    } else {
        UpgradeResult::Success
    }
}


impl FileUpgradeState {
    /// An upgrade begins at `now`.
    pub fn start_upgrade_at(&mut self, now: DateTime)
        ensures
            *final(self) == (FileUpgradeState {
                upgrading: true,
                status: UpgradeStatus::Idle,
                start_time: now,
                ..*old(self)
            }),
    {
        self.upgrading = true;
        self.status = UpgradeStatus::Idle;
        self.start_time = now;
    }

    /// The upgrade ends at `now` with `upgrade_result`.
    pub fn finish_upgrade_at(&mut self, upgrade_result: UpgradeResult, now: DateTime)
        ensures
            *final(self) == spec_finished(*old(self), upgrade_result, now),
    {
        self.status = UpgradeStatus::Finished;
        self.end_time = now;
        self.upgrade_result = upgrade_result;
        self.upgrading = false;
    }
}

/// The state of an upgrade that ended at `now` with `r`.
pub open spec fn spec_finished(s: FileUpgradeState, r: UpgradeResult, now: DateTime) -> FileUpgradeState {
    FileUpgradeState { status: UpgradeStatus::Finished, end_time: now, upgrade_result: r, upgrading: false, ..s }
}

/// What an upgrade is busy with.
#[derive(Debug, Clone, Copy, PartialEq, Eq, Structural)]
pub enum UpgradePhase {
    /// Nothing under way.
    Idle,
    /// Waiting for the acknowledgement of segment `next`.
    Transferring,
    /// Waiting while the module upgrades.
    Watching,
    /// Waiting for the module's running status.
    Polling,
}

/// The file being sent and the watch that follows.
#[derive(Debug, Clone, PartialEq, Eq)]
pub struct UpgradeProgress {
    pub phase: UpgradePhase,
    pub flag: FileFlag,
    pub content: Vec<u8>,
    /// File bytes per segment.
    pub size: usize,
    /// The number of segments.
    pub count: usize,
    /// The segment whose acknowledgement is awaited.
    pub next: usize,
    /// The module's upgrade time (seconds), the number of waits it makes, and the
    /// waits begun so far.
    pub upgrade_wait_time: u8,
    pub total_waits: u64,
    pub waits: u64,
}

impl UpgradeProgress {
    pub fn new() -> (p: Self)
        ensures
            p.phase == UpgradePhase::Idle,
            p.wf(),
    {
        UpgradeProgress {
            phase: UpgradePhase::Idle,
            flag: FileFlag::Module,
            content: Vec::new(),
            size: 1,
            count: 0,
            next: 0,
            upgrade_wait_time: 0,
            total_waits: 0,
            waits: 0,
        }
    }

    /// Whether the segment and wait counters agree with the file and the upgrade time.
    pub open spec fn wf(&self) -> bool {
        &&& self.size >= 1
        &&& self.count == spec_segment_count(self.content@.len(), self.size as nat)
        &&& self.count < 65536
        &&& self.phase == UpgradePhase::Transferring ==> self.next < self.count
        &&& self.total_waits == spec_segment_count(self.upgrade_wait_time as nat, 30)
        &&& self.waits <= self.total_waits
    }
}

/// What comes in for an upgrade.
#[derive(Debug)]
pub enum UpgradeEvent {
    /// An upgrade request: the file's bytes (none where the file cannot be read),
    /// the request's flag, the module's largest frame and upgrade time, and the time now.
    Request { file: Option<Vec<u8>>, flag: u8, max_packet_per_packet: u16, upgrade_wait_time: u8, now: DateTime },
    /// The module's acknowledgement of the awaited segment (or why there is none).
    SegmentAnswer { answer: Result<usize, Error>, now: DateTime },
    /// A wait of the watch ran out without news.
    WaitOver { now: DateTime },
    /// The module's running status during the watch (or why there is none).
    StatusAnswer { status: Result<RunningStatusResponse, Error>, now: DateTime },
}

/// What the caller does next besides replying.
#[derive(Debug)]
pub enum UpgradeNext {
    Nothing,
    /// Send this segment and wait for its acknowledgement.
    Send(FileTransferRequest),
    /// Wait this many seconds for news.
    Wait(u64),
    /// Ask the module for its running status.
    PollStatus,
}

/// What an upgrade step asks for: the replies to the request, in order, and the next move.
#[derive(Debug)]
pub struct UpgradeAction {
    pub replies: Vec<Result<(), Error>>,
    pub next: UpgradeNext,
}

/// Whether `r` is segment `i` of the file of `p`: the plain transfer command, and
/// the attribute that marks the last segment.
pub open spec fn spec_is_segment(r: FileTransferRequest, p: UpgradeProgress, i: int) -> bool {
    &&& r.file_flag == p.flag
    &&& r.file_attr == (if i == (p.count as u16) - 1 { 1u8 } else { 0u8 })
    &&& r.file_command == 0
    &&& r.segment_num == p.count as u16
    &&& r.segment_offset == i as u32
    &&& r.file_data@ == p.content@.subrange(i * p.size, spec_segment_end(p.content@.len(), p.size as nat, i as nat) as int)
    &&& r.segment_len == r.file_data@.len() as u16
}

/// Whether the watch continues after `waits` waits: the module still upgrades and
/// waits are left.
pub open spec fn spec_watch_goes_on(s: FileUpgradeState, p: UpgradeProgress) -> bool {
    s.status == UpgradeStatus::Upgrading && p.waits < p.total_waits
}

/// The next move of the watch (see `spec_watch_goes_on`): the next wait (thirty
/// seconds, the last one what remains), or the end of the upgrade, a failure when
/// every wait was used up.
pub open spec fn spec_watch_step(s: FileUpgradeState, p: UpgradeProgress, now: DateTime, next: UpgradeNext, s2: FileUpgradeState, p2: UpgradeProgress) -> bool {
    if spec_watch_goes_on(s, p) {
        &&& s2 == s
        &&& p2 == UpgradeProgress { phase: UpgradePhase::Watching, waits: (p.waits + 1) as u64, ..p }
        &&& next matches UpgradeNext::Wait(t) && t == (if p.waits == p.total_waits - 1 {
            p.upgrade_wait_time - p.waits * 30
        } else {
            30
        })
    } else {
        &&& s2 == spec_finished(s, if p.waits == p.total_waits { UpgradeResult::OtherError } else { UpgradeResult::Success }, now)
        &&& p2 == UpgradeProgress { phase: UpgradePhase::Idle, ..p }
        &&& next is Nothing
    }
}

impl UpgradeProgress {
    /// The watch's next move (see `spec_watch_step`).
    fn watch_step(&mut self, state: &mut FileUpgradeState, now: DateTime) -> (a: UpgradeAction)
        requires
            old(self).wf(),
        ensures
            final(self).wf(),
            a.replies@.len() == 0,
            spec_watch_step(*old(state), *old(self), now, a.next, *final(state), *final(self)),
    {
        if state.status == UpgradeStatus::Upgrading && self.waits < self.total_waits {
            let t = wait_time(self.waits, self.total_waits, self.upgrade_wait_time as u64);
            self.waits = self.waits + 1;
            self.phase = UpgradePhase::Watching;
            UpgradeAction { replies: Vec::new(), next: UpgradeNext::Wait(t) }
        } else {
            let r = upgrade_outcome(self.waits, self.total_waits);
            state.finish_upgrade_at(r, now);
            self.phase = UpgradePhase::Idle;
            UpgradeAction { replies: Vec::new(), next: UpgradeNext::Nothing }
        }
    }

    /// The transfer is over: the module is taken to upgrade and the watch begins.
    fn begin_watch(&mut self, state: &mut FileUpgradeState, now: DateTime) -> (a: UpgradeAction)
        requires
            old(self).wf(),
        ensures
            final(self).wf(),
            a.replies@.len() == 0,
            spec_watch_step(
                FileUpgradeState { status: UpgradeStatus::Upgrading, ..*old(state) },
                UpgradeProgress { waits: 0, ..*old(self) },
                now,
                a.next,
                *final(state),
                *final(self),
            ),
    {
        state.status = UpgradeStatus::Upgrading;
        self.waits = 0;
        self.watch_step(state, now)
    }
}

/// Whether a request may start an upgrade: a known flag, a frame that holds file
/// data, and a file of fewer than 65536 segments.
pub open spec fn spec_request_fits(file: Seq<u8>, flag: u8, max_packet_per_packet: u16) -> bool {
    &&& flag <= 2
    &&& max_packet_per_packet > UPGRADE_PREFIX_LEN
    &&& spec_segment_count(file.len(), (max_packet_per_packet - UPGRADE_PREFIX_LEN) as nat) < 65536
}

/// One step of an upgrade.
/// - A request whose file cannot be read is refused as an invalid file. Otherwise
///   it is answered `OK`; an upgrade under way then refuses it as well; else the
///   upgrade starts now, and the first segment goes out (an empty file goes
///   straight to the watch).
/// - An acknowledgement of the awaited segment sends the next one, or begins the
///   watch after the last; anything else ends the upgrade as `check_segment_answer` says.
/// - A wait that ran out asks for the running status.
/// - A running status ends the upgrade where the module no longer upgrades, then
///   the watch moves on (`spec_watch_step`).
/// - Anything that comes in another phase changes nothing.
pub fn upgrade_step(state: &mut FileUpgradeState, progress: &mut UpgradeProgress, event: UpgradeEvent) -> (a: UpgradeAction)
    requires
        old(progress).wf(),
        event matches UpgradeEvent::Request { file: Some(f), flag, max_packet_per_packet, .. }
            ==> (!old(state).upgrading ==> spec_request_fits(f@, flag, max_packet_per_packet)),
        event matches UpgradeEvent::StatusAnswer { status: Ok(s), .. } ==> s.work_status.meter_status <= 3,
    ensures
        final(progress).wf(),
        match event {
            UpgradeEvent::Request { file: None, .. } => {
                &&& a.replies@ == seq![Err::<(), Error>(Error::Response(crate::error::MqttResponseError::InvalidUpgradeFile))]
                &&& a.next is Nothing
                &&& *final(state) == *old(state) && *final(progress) == *old(progress)
            },
            UpgradeEvent::Request { file: Some(f), flag, max_packet_per_packet, upgrade_wait_time, now } => if old(state).upgrading {
                &&& a.replies@ == seq![Ok::<(), Error>(()), Err::<(), Error>(Error::Response(crate::error::MqttResponseError::AlreadyUpgrading))]
                &&& a.next is Nothing
                &&& *final(state) == *old(state) && *final(progress) == *old(progress)
            } else {
                let size = (max_packet_per_packet - UPGRADE_PREFIX_LEN) as usize;
                let count = spec_segment_count(f@.len(), size as nat) as usize;
                let p = UpgradeProgress {
                    phase: UpgradePhase::Transferring,
                    flag: spec_file_flag(flag),
                    content: f,
                    size,
                    count,
                    next: 0,
                    upgrade_wait_time,
                    total_waits: spec_segment_count(upgrade_wait_time as nat, 30) as u64,
                    waits: 0,
                };
                let s = FileUpgradeState { upgrading: true, status: UpgradeStatus::Idle, start_time: now, ..*old(state) };
                &&& a.replies@.len() >= 1 && a.replies@[0] == Ok::<(), Error>(())
                &&& count > 0 ==> {
                    &&& a.replies@.len() == 1
                    &&& *final(state) == s && *final(progress) == p
                    &&& a.next matches UpgradeNext::Send(r) && spec_is_segment(r, p, 0)
                }
                &&& count == 0 ==> {
                    &&& a.replies@.len() == 1
                    &&& spec_watch_step(FileUpgradeState { status: UpgradeStatus::Upgrading, ..s }, p, now,
                        a.next, *final(state), *final(progress))
                }
            },
            UpgradeEvent::SegmentAnswer { answer, now } => if old(progress).phase == UpgradePhase::Transferring {
                let p = *old(progress);
                &&& a.replies@.len() == 0
                &&& match answer {
                    Ok(n) => if n == FILE_CHECK_ERROR as usize {
                        *final(state) == spec_finished(*old(state), UpgradeResult::FileError, now)
                            && final(progress).phase == UpgradePhase::Idle && a.next is Nothing
                    } else if n != p.next {
                        *final(state) == spec_finished(*old(state), UpgradeResult::TransferFailed, now)
                            && final(progress).phase == UpgradePhase::Idle && a.next is Nothing
                    } else if p.next + 1 < p.count {
                        &&& *final(state) == *old(state)
                        &&& *final(progress) == UpgradeProgress { next: (p.next + 1) as usize, ..p }
                        &&& a.next matches UpgradeNext::Send(r) && spec_is_segment(r, p, p.next + 1)
                    } else {
                        spec_watch_step(
                            FileUpgradeState { status: UpgradeStatus::Upgrading, ..*old(state) },
                            UpgradeProgress { waits: 0, ..p },
                            now,
                            a.next,
                            *final(state),
                            *final(progress),
                        )
                    },
                    Err(_) => *final(state) == spec_finished(*old(state), UpgradeResult::TransferFailed, now)
                        && final(progress).phase == UpgradePhase::Idle && a.next is Nothing,
                }
            } else {
                a.replies@.len() == 0 && a.next is Nothing && *final(state) == *old(state) && *final(progress) == *old(progress)
            },
            UpgradeEvent::WaitOver { .. } => if old(progress).phase == UpgradePhase::Watching {
                &&& a.replies@.len() == 0 && a.next is PollStatus
                &&& *final(state) == *old(state)
                &&& *final(progress) == UpgradeProgress { phase: UpgradePhase::Polling, ..*old(progress) }
            } else {
                a.replies@.len() == 0 && a.next is Nothing && *final(state) == *old(state) && *final(progress) == *old(progress)
            },
            UpgradeEvent::StatusAnswer { status, now } => if old(progress).phase == UpgradePhase::Polling {
                let s = match status {
                    Ok(r) => if CurrentStatus::spec_from_code(r.work_status.meter_status) != CurrentStatus::Upgrading {
                        FileUpgradeState { status: UpgradeStatus::Finished, ..*old(state) }
                    } else {
                        *old(state)
                    },
                    Err(_) => *old(state),
                };
                &&& a.replies@.len() == 0
                &&& spec_watch_step(s, *old(progress), now, a.next, *final(state), *final(progress))
            } else {
                a.replies@.len() == 0 && a.next is Nothing && *final(state) == *old(state) && *final(progress) == *old(progress)
            },
        },
{
    match event {
        UpgradeEvent::Request { file, flag, max_packet_per_packet, upgrade_wait_time, now } => {
            let content = match file {
                None => {
                    let mut replies = Vec::new();
                    replies.push(Err(Error::Response(crate::error::MqttResponseError::InvalidUpgradeFile)));
                    return UpgradeAction { replies, next: UpgradeNext::Nothing };
                },
                Some(c) => c,
            };
            let mut replies: Vec<Result<(), Error>> = Vec::new();
            replies.push(Ok(()));
            if state.upgrading {
                replies.push(Err(Error::Response(crate::error::MqttResponseError::AlreadyUpgrading)));
                return UpgradeAction { replies, next: UpgradeNext::Nothing };
            }
            state.start_upgrade_at(now);
            let size = segment_data_size(max_packet_per_packet);
            let count = segment_count(content.len(), size);
            let total = wait_total_count(upgrade_wait_time as u64);
            *progress = UpgradeProgress {
                phase: UpgradePhase::Transferring,
                flag: file_flag_from_request(flag),
                content,
                size,
                count,
                next: 0,
                upgrade_wait_time,
                total_waits: total,
                waits: 0,
            };
            if count > 0 {
                let r = upgrade_segment(progress.flag, progress.content.as_slice(), size, 0);
                UpgradeAction { replies, next: UpgradeNext::Send(r) }
            } else {
                progress.phase = UpgradePhase::Watching;
                let w = progress.begin_watch(state, now);
                UpgradeAction { replies, next: w.next }
            }
        },
        UpgradeEvent::SegmentAnswer { answer, now } => {
            if progress.phase != UpgradePhase::Transferring {
                return UpgradeAction { replies: Vec::new(), next: UpgradeNext::Nothing };
            }
            match check_segment_answer(answer, progress.next) {
                Err(r) => {
                    state.finish_upgrade_at(r, now);
                    progress.phase = UpgradePhase::Idle;
                    UpgradeAction { replies: Vec::new(), next: UpgradeNext::Nothing }
                },
                Ok(()) => {
                    if progress.next + 1 < progress.count {
                        progress.next = progress.next + 1;
                        let r = upgrade_segment(progress.flag, progress.content.as_slice(), progress.size, progress.next);
                        UpgradeAction { replies: Vec::new(), next: UpgradeNext::Send(r) }
                    } else {
                        progress.begin_watch(state, now)
                    }
                },
            }
        },
        UpgradeEvent::WaitOver { .. } => {
            if progress.phase != UpgradePhase::Watching {
                return UpgradeAction { replies: Vec::new(), next: UpgradeNext::Nothing };
            }
            progress.phase = UpgradePhase::Polling;
            UpgradeAction { replies: Vec::new(), next: UpgradeNext::PollStatus }
        },
        UpgradeEvent::StatusAnswer { status, now } => {
            if progress.phase != UpgradePhase::Polling {
                return UpgradeAction { replies: Vec::new(), next: UpgradeNext::Nothing };
            }
            let _ = state.uart_file_transfer_finish(status);
            progress.watch_step(state, now)
        },
    }
}

/// The flag of a request's number (see `file_flag_from_request`).
pub open spec fn spec_file_flag(flag: u8) -> FileFlag {
    if flag == 0 {
        FileFlag::Module
    } else if flag == 1 {
        FileFlag::MasterAndSlave
    } else {
        FileFlag::Slave
    }
}

} // verus!
