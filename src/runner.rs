//! The consumer side: a runner that drains the channel and decides, line by
//! line, which file each entry is appended to, rotating by size.
//!
//! The runner decides and keeps the books; whoever drives it performs the
//! append it asks for and reports back whether the write succeeded.
use crossbeam_channel::Receiver;
use vstd::prelude::*;

use crate::channel::{message_view, receive_message, receiver_capacity, LogMessage};
use crate::clock::{
    file_name_spec, lemma_file_name_per_minute, lemma_timestamp_shape, local_now, log_file_name,
    timestamp_shaped, timestamp_spec, timestamp_text, LocalTime,
};
use crate::record::{lemma_message_in_line, record_line, LogRecord};
use crate::text::occurs_in;

verus! {

/// The rotation threshold used unless another is given: 5 MiB.
pub const DEFAULT_MAX_SIZE: usize = 5 * 1024 * 1024;

/// The runner's state as plain values.
pub struct RunnerModel {
    pub dir: Seq<char>,
    pub max_size: nat,
    /// The bound of the channel the runner drains.
    pub capacity: Option<nat>,
    /// The file entries currently go to; `None` until the first line.
    pub curr_file: Option<Seq<char>>,
    /// Bytes of line text appended to the current file, as counted so far.
    pub curr_size: nat,
    /// The size to record once the append in flight is reported written.
    pub pending: Option<nat>,
    pub closed: bool,
}

/// Why the runner stopped.
#[derive(Clone, Copy, Debug, PartialEq, Eq, Structural)]
pub enum StopReason {
    /// The shutdown message arrived.
    Shutdown,
    /// Every sender is gone.
    Disconnected,
}

/// An append the runner asks for: `text` goes at the end of `file`, inside
/// the runner's directory, created if missing.
#[derive(Debug)]
pub struct AppendRequest {
    pub file: String,
    pub text: String,
    /// The byte length of the line, as counted towards the file size.
    pub line_len: usize,
    /// Whether this append opens a new file.
    pub rotated: bool,
}

/// What the runner asks of its driver next.
#[derive(Debug)]
pub enum RunnerAction {
    Stop(StopReason),
    Append(AppendRequest),
}

/// The consumer of the channel and owner of the rotation state.
pub struct LogRunner {
    dir: String,
    rx: Receiver<LogMessage>,
    max_size: usize,
    curr_file: Option<String>,
    curr_size: usize,
    pending: Option<usize>,
    closed: bool,
}

impl View for LogRunner {
    type V = RunnerModel;

    closed spec fn view(&self) -> RunnerModel {
        RunnerModel {
            dir: self.dir@,
            max_size: self.max_size as nat,
            capacity: receiver_capacity(self.rx),
            curr_file: match self.curr_file {
                Some(f) => Some(f@),
                None => None,
            },
            curr_size: self.curr_size as nat,
            pending: match self.pending {
                Some(n) => Some(n as nat),
                None => None,
            },
            closed: self.closed,
        }
    }
}

/// The byte length of a line, as `str::len` gives it.
pub open spec fn byte_len(s: Seq<char>) -> nat {
    (vstd::utf8::encode_utf8(s).len() as usize) as nat
}

/// A runner before its first line.
pub open spec fn fresh_model(dir: Seq<char>, max_size: nat, capacity: Option<nat>) -> RunnerModel {
    RunnerModel {
        dir,
        max_size,
        capacity,
        curr_file: None,
        curr_size: 0,
        pending: None,
        closed: false,
    }
}

/// The persisted form of a line: `YYYY-MM-DD HH:MM:SS`, two spaces, the line
/// and a newline.
pub open spec fn entry_text(t: LocalTime, line: Seq<char>) -> Seq<char> {
    timestamp_spec(t) + seq![' ', ' '] + line + seq!['\n']
}

/// A line of `len` bytes opens a new file when no file is open or when the
/// prospective size exceeds the threshold.
pub open spec fn needs_rotation(m: RunnerModel, len: nat) -> bool {
    m.curr_file is None || m.curr_size + len > m.max_size
}

pub open spec fn target_file(m: RunnerModel, len: nat, t: LocalTime) -> Seq<char> {
    if needs_rotation(m, len) {
        file_name_spec(t)
    } else {
        m.curr_file->0
    }
}

pub open spec fn size_after(m: RunnerModel, len: nat) -> nat {
    if needs_rotation(m, len) {
        len
    } else {
        m.curr_size + len
    }
}

/// The state once a line of `len` bytes has been handed out at time `t`.
pub open spec fn after_line(m: RunnerModel, len: nat, t: LocalTime) -> RunnerModel {
    RunnerModel {
        curr_file: Some(target_file(m, len, t)),
        pending: Some(size_after(m, len)),
        ..m
    }
}

/// The state once the append in flight is reported, written or not.
pub open spec fn after_write(m: RunnerModel, ok: bool) -> RunnerModel {
    RunnerModel {
        curr_size: if ok && m.pending is Some {
            m.pending->0
        } else {
            m.curr_size
        },
        pending: None,
        ..m
    }
}

pub open spec fn closed_model(m: RunnerModel) -> RunnerModel {
    RunnerModel { closed: true, pending: None, ..m }
}

/// `req` is the append for `line` in state `m` at time `t`.
pub open spec fn request_for(req: AppendRequest, m: RunnerModel, line: Seq<char>, t: LocalTime) -> bool {
    &&& req.file@ == target_file(m, byte_len(line), t)
    &&& req.text@ == entry_text(t, line)
    &&& req.line_len == byte_len(line)
    &&& req.rotated == needs_rotation(m, byte_len(line))
}

/// One step of the runner on `msg` at time `t`, from `old` to `new`.
pub open spec fn step(old: RunnerModel, msg: LogMessage, t: LocalTime, new: RunnerModel, r: RunnerAction) -> bool {
    if old.closed {
        r == RunnerAction::Stop(StopReason::Shutdown) && new == old
    } else {
        match msg {
            LogMessage::Shutdown => r == RunnerAction::Stop(StopReason::Shutdown) && new
                == closed_model(old),
            LogMessage::Line(s) => match r {
                RunnerAction::Append(req) => request_for(req, old, s@, t) && new == after_line(
                    old,
                    byte_len(s@),
                    t,
                ),
                _ => false,
            },
        }
    }
}

/// Files in the runner's directory, by name, with their contents.
pub open spec fn disk_append(disk: Map<Seq<char>, Seq<char>>, file: Seq<char>, text: Seq<char>) -> Map<
    Seq<char>,
    Seq<char>,
> {
    disk.insert(
        file,
        if disk.contains_key(file) {
            disk[file] + text
        } else {
            text
        },
    )
}

/// Once the shutdown message is handled, the runner stops and every later
/// step stops too, asking for no further write.
pub proof fn lemma_shutdown_is_final(
    m: RunnerModel,
    t: LocalTime,
    m1: RunnerModel,
    r1: RunnerAction,
    later: LogMessage,
    t2: LocalTime,
    m2: RunnerModel,
    r2: RunnerAction,
)
    requires
        step(m, LogMessage::Shutdown, t, m1, r1),
        step(m1, later, t2, m2, r2),
    ensures
        r1 is Stop,
        m1.closed,
        r2 == RunnerAction::Stop(StopReason::Shutdown),
        m2 == m1,
{
}

/// With a threshold of 100 bytes, two lines of 60 bytes each open a file
/// each. When the two lines fall in different minutes the directory then
/// holds two files, the first holding exactly the first entry; within one
/// minute both rotations name the same file, which then holds both entries.
pub proof fn lemma_rotation_by_size(
    dir: Seq<char>,
    cap: Option<nat>,
    s1: String,
    t1: LocalTime,
    m1: RunnerModel,
    r1: RunnerAction,
    s2: String,
    t2: LocalTime,
    m2: RunnerModel,
    r2: RunnerAction,
)
    requires
        byte_len(s1@) == 60,
        byte_len(s2@) == 60,
        t1.wf(),
        t2.wf(),
        step(fresh_model(dir, 100, cap), LogMessage::Line(s1), t1, m1, r1),
        step(after_write(m1, true), LogMessage::Line(s2), t2, m2, r2),
    ensures
        r1 is Append && r2 is Append,
        r1->Append_0.rotated && r2->Append_0.rotated,
        r1->Append_0.file@ == file_name_spec(t1),
        r2->Append_0.file@ == file_name_spec(t2),
        ({
            let f1 = r1->Append_0.file@;
            let f2 = r2->Append_0.file@;
            let e1 = r1->Append_0.text@;
            let e2 = r2->Append_0.text@;
            let disk = disk_append(disk_append(Map::empty(), f1, e1), f2, e2);
            &&& t1.minute_bucket() != t2.minute_bucket() ==> f1 != f2 && disk.dom() =~= set![f1, f2]
                && disk[f1] == e1
            &&& t1.minute_bucket() == t2.minute_bucket() ==> f1 == f2 && disk.dom() =~= set![f1]
                && disk[f1] == e1 + e2
        }),
{
    lemma_file_name_per_minute(t1, t2);
    let f1 = r1->Append_0.file@;
    let f2 = r2->Append_0.file@;
    let e1 = r1->Append_0.text@;
    let e2 = r2->Append_0.text@;
    let d1 = disk_append(Map::empty(), f1, e1);
    let disk = disk_append(d1, f2, e2);
    if f1 != f2 {
        assert(disk.dom() =~= set![f1, f2]);
    } else {
        assert(disk.dom() =~= set![f1]);
    }
}

/// A persisted entry starts with a `YYYY-MM-DD HH:MM:SS` timestamp and holds
/// the record's message verbatim.
pub proof fn lemma_entry_holds_message(rec: LogRecord, t: LocalTime)
    requires
        0 <= t.year <= 9999,
    ensures
        timestamp_shaped(entry_text(t, record_line(rec)).subrange(0, 19)),
        occurs_in(rec.message@, entry_text(t, record_line(rec))),
{
    let line = record_line(rec);
    let text = entry_text(t, line);
    let m = rec.message@;
    lemma_timestamp_shape(t);
    let ts = timestamp_spec(t);
    assert(text.subrange(0, 19) =~= ts);
    lemma_message_in_line(rec);
    let i = choose|i: int|
        0 <= i && i + m.len() <= line.len() && #[trigger] line.subrange(i, i + m.len()) == m;
    let j: int = 21 + i;
    assert(text.subrange(j, j + m.len()) =~= line.subrange(i, i + m.len()));
}

/// A record's line, once handed over by the pipeline and received by an
/// open runner, becomes an append of an entry that starts with a
/// `YYYY-MM-DD HH:MM:SS` timestamp and holds the record's message verbatim.
pub proof fn lemma_logged_message_persisted(
    rec: LogRecord,
    sent: Option<Seq<char>>,
    msg: LogMessage,
    m: RunnerModel,
    t: LocalTime,
    m1: RunnerModel,
    r: RunnerAction,
)
    requires
        sent == Some(record_line(rec)),
        message_view(msg) == sent,
        !m.closed,
        0 <= t.year <= 9999,
        step(m, msg, t, m1, r),
    ensures
        r is Append,
        r->Append_0.text@ == entry_text(t, record_line(rec)),
        timestamp_shaped(r->Append_0.text@.subrange(0, 19)),
        occurs_in(rec.message@, r->Append_0.text@),
{
    lemma_entry_holds_message(rec, t);
}

/// The runner went from `states[i]` through message `msgs[i]` at time
/// `times[i]`, giving `actions[i]`, and then had the write reported as
/// `oks[i]`, reaching `states[i + 1]`.
pub open spec fn is_run(
    states: Seq<RunnerModel>,
    msgs: Seq<LogMessage>,
    times: Seq<LocalTime>,
    mids: Seq<RunnerModel>,
    actions: Seq<RunnerAction>,
    oks: Seq<bool>,
) -> bool {
    &&& states.len() == msgs.len() + 1
    &&& times.len() == msgs.len()
    &&& mids.len() == msgs.len()
    &&& actions.len() == msgs.len()
    &&& oks.len() == msgs.len()
    &&& forall|i: int|
        0 <= i < msgs.len() ==> #[trigger] step(states[i], msgs[i], times[i], mids[i], actions[i])
            && states[i + 1] == after_write(mids[i], oks[i])
}

proof fn lemma_run_open(
    states: Seq<RunnerModel>,
    msgs: Seq<LogMessage>,
    times: Seq<LocalTime>,
    mids: Seq<RunnerModel>,
    actions: Seq<RunnerAction>,
    oks: Seq<bool>,
    k: int,
    j: int,
)
    requires
        is_run(states, msgs, times, mids, actions, oks),
        !states[0].closed,
        0 <= j <= k < msgs.len(),
        forall|i: int| 0 <= i < k ==> #[trigger] msgs[i] is Line,
    ensures
        !states[j].closed,
    decreases j,
{
    if j > 0 {
        lemma_run_open(states, msgs, times, mids, actions, oks, k, j - 1);
        assert(step(states[j - 1], msgs[j - 1], times[j - 1], mids[j - 1], actions[j - 1]));
    }
}

proof fn lemma_run_closed(
    states: Seq<RunnerModel>,
    msgs: Seq<LogMessage>,
    times: Seq<LocalTime>,
    mids: Seq<RunnerModel>,
    actions: Seq<RunnerAction>,
    oks: Seq<bool>,
    k: int,
    j: int,
)
    requires
        is_run(states, msgs, times, mids, actions, oks),
        0 <= k < j <= msgs.len(),
        msgs[k] is Shutdown,
    ensures
        states[j].closed,
    decreases j,
{
    assert(step(states[j - 1], msgs[j - 1], times[j - 1], mids[j - 1], actions[j - 1]));
    if j - 1 > k {
        lemma_run_closed(states, msgs, times, mids, actions, oks, k, j - 1);
    }
}

/// In a run whose first request to stop is message `k`, every earlier line
/// is appended, in order, as its own entry; the request itself is never
/// written; and no later message leads to any write.
pub proof fn lemma_flush_ends_run(
    states: Seq<RunnerModel>,
    msgs: Seq<LogMessage>,
    times: Seq<LocalTime>,
    mids: Seq<RunnerModel>,
    actions: Seq<RunnerAction>,
    oks: Seq<bool>,
    k: int,
)
    requires
        is_run(states, msgs, times, mids, actions, oks),
        !states[0].closed,
        0 <= k < msgs.len(),
        msgs[k] is Shutdown,
        forall|i: int| 0 <= i < k ==> #[trigger] msgs[i] is Line,
    ensures
        forall|i: int|
            0 <= i < k ==> #[trigger] actions[i] is Append && actions[i]->Append_0.text@
                == entry_text(times[i], msgs[i]->Line_0@),
        actions[k] == RunnerAction::Stop(StopReason::Shutdown),
        forall|i: int| k < i < msgs.len() ==> #[trigger] actions[i] is Stop,
{
    assert forall|i: int| 0 <= i < k implies #[trigger] actions[i] is Append
        && actions[i]->Append_0.text@ == entry_text(times[i], msgs[i]->Line_0@) by {
        lemma_run_open(states, msgs, times, mids, actions, oks, k, i);
        assert(step(states[i], msgs[i], times[i], mids[i], actions[i]));
    }
    lemma_run_open(states, msgs, times, mids, actions, oks, k, k);
    assert(step(states[k], msgs[k], times[k], mids[k], actions[k]));
    assert forall|i: int| k < i < msgs.len() implies #[trigger] actions[i] is Stop by {
        lemma_run_closed(states, msgs, times, mids, actions, oks, k, i);
        assert(step(states[i], msgs[i], times[i], mids[i], actions[i]));
    }
}

impl LogRunner {
    /// A runner on `rx` that writes into `dir` and rotates past `max_size`
    /// bytes.
    pub fn new(dir: String, rx: Receiver<LogMessage>, max_size: usize) -> (r: Self)
        ensures
            r@ == fresh_model(dir@, max_size as nat, receiver_capacity(rx)),
    {
        LogRunner { dir, rx, max_size, curr_file: None, curr_size: 0, pending: None, closed: false }
    }

    /// Handles one message received at time `now`.
    pub fn apply(&mut self, msg: LogMessage, now: &LocalTime) -> (r: RunnerAction)
        requires
            now.wf(),
        ensures
            step(old(self)@, msg, *now, final(self)@, r),
    {
        if self.closed {
            return RunnerAction::Stop(StopReason::Shutdown);
        }
        match msg {
            LogMessage::Shutdown => {
                self.closed = true;
                self.pending = None;
                RunnerAction::Stop(StopReason::Shutdown)
            },
            LogMessage::Line(s) => {
                let len = s.as_str().len();
                let rotate = match &self.curr_file {
                    None => true,
                    Some(_) => self.curr_size > self.max_size || len > self.max_size
                        - self.curr_size,
                };
                let file: String = if rotate {
                    log_file_name(now)
                } else {
                    match &self.curr_file {
                        Some(f) => {
                            assert(old(self)@.curr_file == Some(f@));
                            f.clone()
                        },
                        None => log_file_name(now),
                    }
                };
                let new_size: usize = if rotate {
                    len
                } else {
                    self.curr_size + len
                };
                self.curr_file = Some(file.clone());
                self.pending = Some(new_size);
                proof {
                    reveal_strlit("  ");
                    reveal_strlit("\n");
                }
                let mut text = timestamp_text(now);
                text.append("  ");
                text.append(s.as_str());
                text.append("\n");
                assert(text@ =~= entry_text(*now, s@));
                RunnerAction::Append(AppendRequest { file, text, line_len: len, rotated: rotate })
            },
        }
    }

    /// Records the outcome of the append last handed out; the size counter
    /// moves only when it was written.
    pub fn on_write_done(&mut self, ok: bool)
        ensures
            final(self)@ == after_write(old(self)@, ok),
    {
        if ok {
            match self.pending {
                Some(n) => {
                    self.curr_size = n;
                },
                None => {},
            }
        }
        self.pending = None;
    }

    /// Waits for the next message and handles it at the current local time.
    /// A closed runner receives nothing more and keeps stopping.
    pub fn next_action(&mut self) -> (r: RunnerAction)
        ensures
            old(self)@.closed ==> r == RunnerAction::Stop(StopReason::Shutdown) && final(self)@
                == old(self)@,
            !old(self)@.closed ==> (r == RunnerAction::Stop(StopReason::Disconnected)
                && final(self)@ == closed_model(old(self)@)) || exists|msg: LogMessage, t: LocalTime|
                t.wf() && #[trigger] step(old(self)@, msg, t, final(self)@, r),
    {
        if self.closed {
            return RunnerAction::Stop(StopReason::Shutdown);
        }
        match receive_message(&self.rx) {
            None => {
                self.closed = true;
                self.pending = None;
                RunnerAction::Stop(StopReason::Disconnected)
            },
            Some(msg) => {
                let now = local_now();
                let ghost before = self@;
                let ghost m = msg;
                let r = self.apply(msg, &now);
                assert(step(before, m, now, self@, r));
                r
            },
        }
    }

    /// The directory the runner writes into.
    pub fn dir(&self) -> (r: &str)
        ensures
            r@ == self@.dir,
    {
        self.dir.as_str()
    }

    /// The bytes counted towards the current file so far.
    pub fn current_size(&self) -> (r: usize)
        ensures
            r as nat == self@.curr_size,
    {
        self.curr_size
    }

    /// Whether the runner has stopped for good.
    pub fn is_closed(&self) -> (r: bool)
        ensures
            r == self@.closed,
    {
        self.closed
    }
}

} // verus!
