//! Relays the log of one job to one client.
//!
//! A session is a reader on the job's log. The caller owns the connection:
//! it asks for the next action, performs it, and reports whether the
//! message went out. The session replays the log from its first line to the
//! line that is the last at that moment and then closes; it does not wait
//! for the job to produce more.

use vstd::prelude::*;
use crate::error::{AppError, AppErrorView};
use crate::log_sink::{
    appended, line_at, lines_of, missing_log_message, LineReader, LineReaderView, LogSink, Logs,
};

verus! {

/// Mathematical content of a [`GatewayAction`].
pub enum GatewayActionView {
    Send(Seq<char>),
    Close,
}

/// What the caller does next on the connection.
#[derive(Debug, PartialEq, Eq)]
pub enum GatewayAction {
    /// Send this line as one message, then ask again.
    Send(String),
    /// Send the closing message and end the session.
    Close,
}

impl View for GatewayAction {
    type V = GatewayActionView;

    open spec fn view(&self) -> GatewayActionView {
        match self {
            GatewayAction::Send(line) => GatewayActionView::Send(line@),
            GatewayAction::Close => GatewayActionView::Close,
        }
    }
}

/// The action of a session at `position` in the log of `id`: close after a
/// failed delivery or at the end of the log, else send the next line.
pub open spec fn action_at(logs: Logs, id: Seq<char>, position: nat, delivered: bool) -> GatewayActionView {
    if !delivered {
        GatewayActionView::Close
    } else {
        match line_at(logs, id, position) {
            Some(line) => GatewayActionView::Send(line),
            None => GatewayActionView::Close,
        }
    }
}

/// Starts a session on the log of `job_id`. Fails with `NotFound` if and
/// only if no line was ever appended under that id.
pub fn open_session(sink: &LogSink, job_id: &str) -> (result: Result<LineReader, AppError>)
    requires
        sink.wf(),
    ensures
        match result {
            Ok(reader) => sink@.contains_key(job_id@) && reader@ == (LineReaderView {
                job_id: job_id@,
                position: 0,
            }),
            Err(e) => !sink@.contains_key(job_id@) && e@ == AppErrorView::NotFound(
                missing_log_message(job_id@),
            ),
        },
{
    sink.open_reader(job_id)
}

/// Decides the next action of a session. `delivered` says whether the
/// previous message went out; it is `true` before the first one. The reader
/// moves on by one line exactly when a line is sent.
pub fn next_action(sink: &LogSink, reader: &mut LineReader, delivered: bool) -> (action:
    GatewayAction)
    requires
        sink.wf(),
    ensures
        action@ == action_at(sink@, old(reader)@.job_id, old(reader)@.position, delivered),
        final(reader)@.job_id == old(reader)@.job_id,
        final(reader)@.position == if action@ is Send {
            old(reader)@.position + 1
        } else {
            old(reader)@.position
        },
{
    if !delivered {
        return GatewayAction::Close;
    }
    match sink.next_line(reader) {
        Some(line) => GatewayAction::Send(line),
        None => GatewayAction::Close,
    }
}

/// A session together with the logs it reads from and the lines it has sent.
pub struct Session {
    pub logs: Logs,
    pub job_id: Seq<char>,
    pub position: nat,
    pub sent: Seq<Seq<char>>,
}

/// Something that happens while a session is open: a writer appends a line
/// to some log, or the session takes its next step after a delivery.
pub enum SessionEvent {
    Append { job_id: Seq<char>, line: Seq<char> },
    Step,
}

/// A session just opened on the log of `job_id`.
pub open spec fn session_start(logs: Logs, job_id: Seq<char>) -> Session {
    Session { logs, job_id, position: 0, sent: Seq::empty() }
}

/// The session after one event.
pub open spec fn session_after(s: Session, event: SessionEvent) -> Session {
    match event {
        SessionEvent::Append { job_id, line } => Session {
            logs: appended(s.logs, job_id, line),
            ..s
        },
        SessionEvent::Step => match action_at(s.logs, s.job_id, s.position, true) {
            GatewayActionView::Send(line) => Session {
                position: s.position + 1,
                sent: s.sent.push(line),
                ..s
            },
            GatewayActionView::Close => s,
        },
    }
}

/// The session after a series of events, from the first to the last.
pub open spec fn session_run(s: Session, events: Seq<SessionEvent>) -> Session
    decreases events.len(),
{
    if events.len() == 0 {
        s
    } else {
        session_run(session_after(s, events.first()), events.drop_first())
    }
}

/// The lines sent so far are the log up to the session's position.
pub open spec fn sent_matches_log(s: Session) -> bool {
    &&& s.position <= lines_of(s.logs, s.job_id).len()
    &&& s.sent == lines_of(s.logs, s.job_id).subrange(0, s.position as int)
}

/// One event keeps the lines sent equal to the log up to the position.
pub proof fn lemma_event_keeps_sent(s: Session, event: SessionEvent)
    requires
        sent_matches_log(s),
    ensures
        sent_matches_log(session_after(s, event)),
{
    let t = session_after(s, event);
    let after = lines_of(t.logs, t.job_id);
    match event {
        SessionEvent::Append { job_id, line } => {
            assert(t.sent =~= after.subrange(0, t.position as int));
        },
        SessionEvent::Step => {
            assert(t.sent =~= after.subrange(0, t.position as int));
        },
    }
}

/// However appends and steps of a session interleave, what the session has
/// sent is at every moment the beginning of the job's log as it then
/// stands: each line once, in the order of arrival, none left out.
pub proof fn law_sent_lines_are_a_prefix(s: Session, events: Seq<SessionEvent>)
    requires
        sent_matches_log(s),
    ensures
        sent_matches_log(session_run(s, events)),
        session_run(s, events).sent.is_prefix_of(
            lines_of(session_run(s, events).logs, session_run(s, events).job_id),
        ),
        session_run(s, events).job_id == s.job_id,
    decreases events.len(),
{
    if events.len() > 0 {
        lemma_event_keeps_sent(s, events.first());
        law_sent_lines_are_a_prefix(session_after(s, events.first()), events.drop_first());
    }
}

/// From the moment a session is opened, whatever is appended to any log and
/// however often the session steps, the lines it has sent are the beginning
/// of its job's log.
pub proof fn law_session_sends_a_prefix(logs: Logs, job_id: Seq<char>, events: Seq<SessionEvent>)
    ensures
        session_run(session_start(logs, job_id), events).sent.is_prefix_of(
            lines_of(session_run(session_start(logs, job_id), events).logs, job_id),
        ),
{
    let start = session_start(logs, job_id);
    assert(start.sent =~= lines_of(start.logs, start.job_id).subrange(0, 0));
    law_sent_lines_are_a_prefix(start, events);
}

} // verus!
