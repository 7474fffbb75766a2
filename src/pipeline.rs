//! The producer side: one-time setup, the level filter, and the handoff of
//! lines to the runner.
use vstd::prelude::*;

use crate::channel::{message_view, open_channel, send_message, LogMessage, LogSender, CHANNEL_CAPACITY};
use crate::level::{filter_rank, level_enabled, level_rank, Level, LevelFilter};
use crate::record::{format_record, record_line, LogRecord};
use crate::runner::{fresh_model, LogRunner};

verus! {

/// The ways an operation of the pipeline can fail. None of them is fatal to
/// the caller.
#[derive(Clone, Copy, Debug, PartialEq, Eq, Structural)]
pub enum LogError {
    /// Setup ran before; the pipeline is left as it was.
    AlreadyInitialized,
    /// The runner is gone, so the line could not be handed over.
    ChannelClosed,
    /// A single write to disk failed.
    IoFailure,
    /// A lock guarding shared state was poisoned.
    LockPoisoned,
}

/// The pipeline's state as plain values.
pub struct PipelineModel {
    pub installed: bool,
    pub max_level: LevelFilter,
    /// Whether lines are handed to a runner.
    pub has_sink: bool,
    /// The bound of the channel to the runner, if there is one.
    pub capacity: Option<nat>,
    /// The messages handed to the runner so far, in order: a line, or
    /// `None` for the request to stop.
    pub sent: Seq<Option<Seq<char>>>,
}

/// The process-wide pipeline handle: set up at most once.
pub struct LogPipeline {
    installed: bool,
    max_level: LevelFilter,
    sender: Option<LogSender>,
}

impl View for LogPipeline {
    type V = PipelineModel;

    closed spec fn view(&self) -> PipelineModel {
        PipelineModel {
            installed: self.installed,
            max_level: self.max_level,
            has_sink: self.sender is Some,
            capacity: match self.sender {
                Some(s) => s@.capacity,
                None => None,
            },
            sent: match self.sender {
                Some(s) => s@.sent,
                None => Seq::empty(),
            },
        }
    }
}

/// The state after one setup call with level filter `max`; `with_sink` when
/// the call also opens a channel to a runner. A call on a set-up pipeline
/// changes nothing.
pub open spec fn setup_spec(m: PipelineModel, max: LevelFilter, with_sink: bool) -> PipelineModel {
    if m.installed {
        m
    } else {
        PipelineModel {
            installed: true,
            max_level: max,
            has_sink: with_sink,
            capacity: if with_sink {
                Some(CHANNEL_CAPACITY as nat)
            } else {
                None
            },
            sent: Seq::empty(),
        }
    }
}

/// The state after the setup calls `calls`, made one after another.
pub open spec fn setups(m: PipelineModel, calls: Seq<(LevelFilter, bool)>) -> PipelineModel
    decreases calls.len(),
{
    if calls.len() == 0 {
        m
    } else {
        setups(setup_spec(m, calls[0].0, calls[0].1), calls.drop_first())
    }
}

/// How many of the setup calls `calls` succeed.
pub open spec fn successful_setups(m: PipelineModel, calls: Seq<(LevelFilter, bool)>) -> nat
    decreases calls.len(),
{
    if calls.len() == 0 {
        0
    } else {
        (if m.installed {
            0nat
        } else {
            1nat
        }) + successful_setups(setup_spec(m, calls[0].0, calls[0].1), calls.drop_first())
    }
}

/// `a` and `b` agree on everything but the record of what was sent.
pub open spec fn same_setup(a: PipelineModel, b: PipelineModel) -> bool {
    &&& a.installed == b.installed
    &&& a.max_level == b.max_level
    &&& a.has_sink == b.has_sink
    &&& a.capacity == b.capacity
}

fn send_on(tx: &mut LogSender, msg: LogMessage) -> (r: Result<(), LogError>)
    ensures
        final(tx)@.capacity == old(tx)@.capacity,
        match r {
            Ok(()) => final(tx)@.sent == old(tx)@.sent.push(message_view(msg)),
            Err(e) => e == LogError::ChannelClosed && final(tx)@.sent == old(tx)@.sent,
        },
{
    match send_message(tx, msg) {
        Ok(()) => Ok(()),
        Err(_) => Err(LogError::ChannelClosed),
    }
}

impl LogSender {
    /// Hands `line` to the runner, blocking while the channel is full; fails
    /// with `ChannelClosed`, handing nothing over, once the runner is gone.
    pub fn write(&mut self, line: String) -> (r: Result<(), LogError>)
        ensures
            final(self)@.capacity == old(self)@.capacity,
            match r {
                Ok(()) => final(self)@.sent == old(self)@.sent.push(Some(line@)),
                Err(e) => e == LogError::ChannelClosed && final(self)@.sent == old(self)@.sent,
            },
    {
        send_on(self, LogMessage::Line(line))
    }

    /// Asks the runner to stop once the messages before have been handled,
    /// without waiting for it.
    pub fn flush(&mut self) -> (r: Result<(), LogError>)
        ensures
            final(self)@.capacity == old(self)@.capacity,
            match r {
                Ok(()) => final(self)@.sent == old(self)@.sent.push(None),
                Err(e) => e == LogError::ChannelClosed && final(self)@.sent == old(self)@.sent,
            },
    {
        send_on(self, LogMessage::Shutdown)
    }
}

impl LogPipeline {
    /// A pipeline that is not set up: it lets nothing through.
    pub fn new() -> (r: Self)
        ensures
            r.wf(),
            r@ == (PipelineModel {
                installed: false,
                max_level: LevelFilter::Off,
                has_sink: false,
                capacity: None,
                sent: Seq::empty(),
            }),
    {
        LogPipeline { installed: false, max_level: LevelFilter::Off, sender: None }
    }

    pub closed spec fn wf(&self) -> bool {
        self.sender is Some ==> self.installed
    }

    /// Whether a record of `level` passes the level filter.
    pub fn enabled(&self, level: Level) -> (r: bool)
        ensures
            r == (level_rank(level) <= filter_rank(self@.max_level)),
    {
        level_enabled(level, self.max_level)
    }

    /// The line for `rec` when its level passes the filter, else `None`.
    pub fn render(&self, rec: &LogRecord) -> (r: Option<String>)
        ensures
            r is Some <==> level_rank(rec.level) <= filter_rank(self@.max_level),
            r matches Some(line) ==> line@ == record_line(*rec),
    {
        if self.enabled(rec.level) {
            Some(format_record(rec))
        } else {
            None
        }
    }

    fn enqueue(&mut self, msg: LogMessage) -> (r: Result<(), LogError>)
        requires
            old(self).wf(),
        ensures
            final(self).wf(),
            same_setup(final(self)@, old(self)@),
            !old(self)@.has_sink ==> r == Ok::<(), LogError>(()) && final(self)@.sent == old(
                self,
            )@.sent,
            old(self)@.has_sink ==> match r {
                Ok(()) => final(self)@.sent == old(self)@.sent.push(message_view(msg)),
                Err(e) => e == LogError::ChannelClosed && final(self)@.sent == old(self)@.sent,
            },
    {
        match &mut self.sender {
            None => Ok(()),
            Some(tx) => send_on(tx, msg),
        }
    }

    /// A sending end of its own for a producer thread, on the same channel
    /// and with nothing handed over through it yet; `None` without a runner.
    pub fn producer(&self) -> (r: Option<LogSender>)
        ensures
            r is Some <==> self@.has_sink,
            r matches Some(tx) ==> tx@.capacity == self@.capacity && tx@.sent == Seq::<
                Option<Seq<char>>,
            >::empty(),
    {
        match &self.sender {
            Some(tx) => Some(tx.duplicate()),
            None => None,
        }
    }

    /// Hands `line` to the runner, blocking while the channel is full.
    /// Without a runner this does nothing and succeeds; once the runner is
    /// gone it fails with `ChannelClosed` and hands nothing over.
    pub fn write(&mut self, line: String) -> (r: Result<(), LogError>)
        requires
            old(self).wf(),
        ensures
            final(self).wf(),
            same_setup(final(self)@, old(self)@),
            !old(self)@.has_sink ==> r == Ok::<(), LogError>(()) && final(self)@.sent == old(
                self,
            )@.sent,
            old(self)@.has_sink ==> match r {
                Ok(()) => final(self)@.sent == old(self)@.sent.push(Some(line@)),
                Err(e) => e == LogError::ChannelClosed && final(self)@.sent == old(self)@.sent,
            },
    {
        self.enqueue(LogMessage::Line(line))
    }
}

/// Sets the pipeline up with level filter `max_level`, without a file sink.
/// Fails with `AlreadyInitialized`, changing nothing, if it was set up before.
pub fn log_setup_result(pipeline: &mut LogPipeline, max_level: LevelFilter) -> (r: Result<
    (),
    LogError,
>)
    requires
        old(pipeline).wf(),
    ensures
        final(pipeline).wf(),
        old(pipeline)@.installed ==> r == Err::<(), LogError>(LogError::AlreadyInitialized),
        !old(pipeline)@.installed ==> r == Ok::<(), LogError>(()),
        final(pipeline)@ == setup_spec(old(pipeline)@, max_level, false),
{
    if pipeline.installed {
        return Err(LogError::AlreadyInitialized);
    }
    pipeline.installed = true;
    pipeline.max_level = max_level;
    Ok(())
}

/// Sets the pipeline up with level filter `max_level` and a channel of
/// capacity 5 to a runner that writes into `dir`, rotating past `max_size`
/// bytes. The runner is returned for the caller to run; on a pipeline set up
/// before, nothing changes and no runner is made.
pub fn log_setup_with_writer(
    pipeline: &mut LogPipeline,
    dir: String,
    max_level: LevelFilter,
    max_size: usize,
) -> (r: Option<LogRunner>)
    requires
        old(pipeline).wf(),
    ensures
        final(pipeline).wf(),
        final(pipeline)@ == setup_spec(old(pipeline)@, max_level, true),
        old(pipeline)@.installed ==> r is None,
        !old(pipeline)@.installed ==> (r matches Some(runner) && runner@ == fresh_model(
            dir@,
            max_size as nat,
            Some(CHANNEL_CAPACITY as nat),
        )),
{
    if log_setup_result(pipeline, max_level).is_err() {
        return None;
    }
    let (tx, rx) = open_channel(CHANNEL_CAPACITY);
    pipeline.sender = Some(tx);
    Some(LogRunner::new(dir, rx, max_size))
}

/// Asks the runner to stop once the lines handed over before have been
/// handled: the request follows them. Returns without waiting for the
/// runner. Without a runner it does nothing and succeeds; once the runner is
/// gone it fails with `ChannelClosed` and hands nothing over.
pub fn log_flush(pipeline: &mut LogPipeline) -> (r: Result<(), LogError>)
    requires
        old(pipeline).wf(),
    ensures
        final(pipeline).wf(),
        same_setup(final(pipeline)@, old(pipeline)@),
        !old(pipeline)@.has_sink ==> r == Ok::<(), LogError>(()) && final(pipeline)@.sent == old(
            pipeline,
        )@.sent,
        old(pipeline)@.has_sink ==> match r {
            Ok(()) => final(pipeline)@.sent == old(pipeline)@.sent.push(None),
            Err(e) => e == LogError::ChannelClosed && final(pipeline)@.sent == old(pipeline)@.sent,
        },
{
    pipeline.enqueue(LogMessage::Shutdown)
}

/// Setting up twice leaves exactly the state of the first setup, and only
/// the first call can start a runner.
pub proof fn lemma_setup_once(
    m: PipelineModel,
    first: LevelFilter,
    first_sink: bool,
    second: LevelFilter,
    second_sink: bool,
)
    requires
        !m.installed,
    ensures
        setup_spec(m, first, first_sink).installed,
        setup_spec(setup_spec(m, first, first_sink), second, second_sink) == setup_spec(
            m,
            first,
            first_sink,
        ),
{
}

proof fn lemma_setups_after_install(m: PipelineModel, calls: Seq<(LevelFilter, bool)>)
    requires
        m.installed,
    ensures
        successful_setups(m, calls) == 0,
        setups(m, calls) == m,
    decreases calls.len(),
{
    if calls.len() > 0 {
        lemma_setups_after_install(setup_spec(m, calls[0].0, calls[0].1), calls.drop_first());
    }
}

/// Of any number of setup calls made one after another on a pipeline that
/// is not set up (as a lock around the pipeline orders concurrent callers),
/// exactly one succeeds, the first, and the state is the one it made.
pub proof fn lemma_setup_sequence(m: PipelineModel, calls: Seq<(LevelFilter, bool)>)
    requires
        !m.installed,
        calls.len() >= 1,
    ensures
        successful_setups(m, calls) == 1,
        setups(m, calls) == setup_spec(m, calls[0].0, calls[0].1),
{
    lemma_setups_after_install(setup_spec(m, calls[0].0, calls[0].1), calls.drop_first());
}

} // verus!
