//! The per-job log store and its readers.
//!
//! Every job has at most one log, created by the first line appended under
//! its id. A log only grows, at its end. A reader is a position in one log:
//! it starts at the first line, hands out one line per call, and stops at
//! the line that is currently the last; lines appended later are handed out
//! by later calls.

use vstd::prelude::*;
use vstd::string::*;
use crate::error::{AppError, AppErrorView};
use crate::text::{copy_lines, text_of, texts};

verus! {

/// The logs of all jobs: the lines appended so far, by job id.
pub type Logs = Map<Seq<char>, Seq<Seq<char>>>;

/// The lines of the log of `id`; none where no log was created.
pub open spec fn lines_of(logs: Logs, id: Seq<char>) -> Seq<Seq<char>> {
    if logs.contains_key(id) {
        logs[id]
    } else {
        Seq::empty()
    }
}

/// The logs after `line` was appended under `id`.
pub open spec fn appended(logs: Logs, id: Seq<char>, line: Seq<char>) -> Logs {
    logs.insert(id, lines_of(logs, id).push(line))
}

/// The line that a reader at `position` in the log of `id` is handed next;
/// none at the end of the log and where there is no log.
pub open spec fn line_at(logs: Logs, id: Seq<char>, position: nat) -> Option<Seq<char>> {
    if position < lines_of(logs, id).len() {
        Some(lines_of(logs, id)[position as int])
    } else {
        None
    }
}

/// The message of the error that reports a log that was never created.
pub open spec fn missing_log_message(id: Seq<char>) -> Seq<char> {
    "No log for job "@ + id
}

/// The log of one job.
struct LogRecord {
    job_id: String,
    lines: Vec<String>,
}

/// Some record carries `id`.
spec fn has_record(records: Seq<LogRecord>, id: Seq<char>) -> bool {
    exists|i: int| 0 <= i < records.len() && #[trigger] records[i].job_id@ == id
}

/// The position of a record that carries `id`, where there is one.
spec fn record_of(records: Seq<LogRecord>, id: Seq<char>) -> int {
    choose|i: int| 0 <= i < records.len() && #[trigger] records[i].job_id@ == id
}

/// No two records carry the same id.
spec fn distinct_records(records: Seq<LogRecord>) -> bool {
    forall|i: int, j: int|
        0 <= i < j < records.len() ==> #[trigger] records[i].job_id@
            != #[trigger] records[j].job_id@
}

/// With distinct ids, the record chosen for an id is the one that carries it.
proof fn lemma_record_at(records: Seq<LogRecord>, id: Seq<char>, at: int)
    requires
        distinct_records(records),
        0 <= at < records.len(),
        records[at].job_id@ == id,
    ensures
        has_record(records, id),
        record_of(records, id) == at,
{
    let p = record_of(records, id);
    if p < at {
        assert(records[p].job_id@ != records[at].job_id@);
    } else if at < p {
        assert(records[at].job_id@ != records[p].job_id@);
    }
}

/// In-memory, append-only store of the output of all jobs.
pub struct LogSink {
    records: Vec<LogRecord>,
}

impl View for LogSink {
    type V = Logs;

    closed spec fn view(&self) -> Logs {
        Map::new(
            |id: Seq<char>| has_record(self.records@, id),
            |id: Seq<char>| texts(self.records@[record_of(self.records@, id)].lines@),
        )
    }
}

/// Mathematical content of a [`LineReader`].
pub struct LineReaderView {
    pub job_id: Seq<char>,
    pub position: nat,
}

/// A position in the log of one job. It borrows nothing from the sink, so it
/// blocks no writer and no other reader.
#[derive(Debug)]
pub struct LineReader {
    job_id: String,
    position: usize,
}

impl View for LineReader {
    type V = LineReaderView;

    closed spec fn view(&self) -> LineReaderView {
        LineReaderView { job_id: self.job_id@, position: self.position as nat }
    }
}

impl LineReader {
    /// The id of the job whose log is read.
    pub fn job_id(&self) -> (id: String)
        ensures
            id@ == self@.job_id,
    {
        self.job_id.clone()
    }

    /// The number of lines handed out so far.
    pub fn position(&self) -> (n: usize)
        ensures
            n == self@.position,
    {
        self.position
    }
}

impl LogSink {
    /// The sink is well formed: it holds one record per job id. Every sink
    /// built by the functions below is.
    pub closed spec fn wf(&self) -> bool {
        distinct_records(self.records@)
    }

    /// A sink without any log.
    pub fn new() -> (sink: LogSink)
        ensures
            sink.wf(),
            sink@ == Map::<Seq<char>, Seq<Seq<char>>>::empty(),
    {
        let sink = LogSink { records: Vec::new() };
        sink
    }

    /// The position of the record of `id`.
    fn find(&self, id: &String) -> (found: Option<usize>)
        requires
            self.wf(),
        ensures
            found is Some <==> self@.contains_key(id@),
            found matches Some(i) ==> {
                &&& i < self.records@.len()
                &&& self.records@[i as int].job_id@ == id@
                &&& self@[id@] == texts(self.records@[i as int].lines@)
            },
    {
        let mut i: usize = 0;
        while i < self.records.len()
            invariant
                i <= self.records@.len(),
                distinct_records(self.records@),
                forall|k: int| 0 <= k < i ==> (#[trigger] self.records@[k]).job_id@ != id@,
            decreases self.records@.len() - i,
        {
            if self.records[i].job_id == *id {
                proof {
                    lemma_record_at(self.records@, id@, i as int);
                }
                return Some(i);
            }
            i += 1;
        }
        None
    }

    /// Whether a log was created for `job_id`.
    pub fn has_log(&self, job_id: &str) -> (known: bool)
        requires
            self.wf(),
        ensures
            known == self@.contains_key(job_id@),
    {
        let key = String::from_str(job_id);
        self.find(&key).is_some()
    }

    /// Appends `line` to the log of `job_id`, creating the log with the
    /// first line. The logs of other jobs and the earlier lines of this one
    /// stay as they are.
    pub fn append(&mut self, job_id: &str, line: &str)
        requires
            old(self).wf(),
        ensures
            final(self).wf(),
            final(self)@ == appended(old(self)@, job_id@, line@),
    {
        let key = String::from_str(job_id);
        let text = String::from_str(line);
        let ghost before = *self;
        match self.find(&key) {
            Some(i) => {
                self.records[i].lines.push(text);
                proof {
                    assert forall|a: int, b: int|
                        0 <= a < b < self.records@.len() implies self.records@[a].job_id@
                        != self.records@[b].job_id@ by {
                        assert(before.records@[a].job_id@ != before.records@[b].job_id@);
                    }
                    assert forall|id: Seq<char>|
                        has_record(self.records@, id) == has_record(before.records@, id) by {
                        if has_record(self.records@, id) {
                            let k = record_of(self.records@, id);
                            assert(before.records@[k].job_id@ == id);
                        }
                        if has_record(before.records@, id) {
                            let k = record_of(before.records@, id);
                            assert(self.records@[k].job_id@ == id);
                        }
                    }
                    assert forall|id: Seq<char>| has_record(self.records@, id) implies self@[id]
                        == appended(before@, job_id@, line@)[id] by {
                        let k = record_of(before.records@, id);
                        assert(self.records@[k].job_id@ == id);
                        lemma_record_at(self.records@, id, k);
                    }
                }
            },
            None => {
                let mut lines: Vec<String> = Vec::new();
                lines.push(text);
                self.records.push(LogRecord { job_id: key, lines });
                proof {
                    let last = before.records@.len() as int;
                    assert forall|a: int, b: int|
                        0 <= a < b < self.records@.len() implies self.records@[a].job_id@
                        != self.records@[b].job_id@ by {
                        if b == last {
                            assert(before.records@[a].job_id@ != job_id@);
                        } else {
                            assert(before.records@[a].job_id@ != before.records@[b].job_id@);
                        }
                    }
                    assert forall|id: Seq<char>|
                        has_record(self.records@, id) == (has_record(before.records@, id) || id
                            == job_id@) by {
                        if has_record(self.records@, id) {
                            let k = record_of(self.records@, id);
                            if k < last {
                                assert(before.records@[k].job_id@ == id);
                            }
                        }
                        if has_record(before.records@, id) {
                            let k = record_of(before.records@, id);
                            assert(self.records@[k].job_id@ == id);
                        }
                        if id == job_id@ {
                            assert(self.records@[last].job_id@ == id);
                        }
                    }
                    assert forall|id: Seq<char>| has_record(self.records@, id) implies self@[id]
                        == appended(before@, job_id@, line@)[id] by {
                        if id == job_id@ {
                            lemma_record_at(self.records@, id, last);
                        } else {
                            let k = record_of(before.records@, id);
                            assert(self.records@[k].job_id@ == id);
                            lemma_record_at(self.records@, id, k);
                        }
                    }
                }
            },
        }
    }

    /// The number of lines in the log of `job_id`; zero where there is none.
    pub fn line_count(&self, job_id: &str) -> (n: usize)
        requires
            self.wf(),
        ensures
            n == lines_of(self@, job_id@).len(),
    {
        let key = String::from_str(job_id);
        match self.find(&key) {
            Some(i) => self.records[i].lines.len(),
            None => 0,
        }
    }

    /// Opens the log of `job_id` for reading from its first line. Fails with
    /// `NotFound` if and only if no line was ever appended under that id.
    pub fn open_reader(&self, job_id: &str) -> (result: Result<LineReader, AppError>)
        requires
            self.wf(),
        ensures
            match result {
                Ok(reader) => self@.contains_key(job_id@) && reader@ == (LineReaderView {
                    job_id: job_id@,
                    position: 0,
                }),
                Err(e) => !self@.contains_key(job_id@) && e@ == AppErrorView::NotFound(
                    missing_log_message(job_id@),
                ),
            },
    {
        let key = String::from_str(job_id);
        match self.find(&key) {
            Some(_) => Ok(LineReader { job_id: key, position: 0 }),
            None => Err(AppError::NotFound(String::from_str("No log for job ").concat(job_id))),
        }
    }

    /// Hands out the line at the reader's position and moves the reader one
    /// line on, or returns `None` and leaves the reader where it is when it
    /// stands at the current end of the log.
    pub fn next_line(&self, reader: &mut LineReader) -> (line: Option<String>)
        requires
            self.wf(),
        ensures
            text_of(line) == line_at(self@, old(reader)@.job_id, old(reader)@.position),
            final(reader)@.job_id == old(reader)@.job_id,
            final(reader)@.position == if line is Some {
                old(reader)@.position + 1
            } else {
                old(reader)@.position
            },
    {
        match self.find(&reader.job_id) {
            Some(i) => {
                let lines = &self.records[i].lines;
                if reader.position < lines.len() {
                    let text = lines[reader.position].clone();
                    reader.position = reader.position + 1;
                    Some(text)
                } else {
                    None
                }
            },
            None => None,
        }
    }

    /// All lines of the log of `job_id` as they stand now, first to last, or
    /// `NotFound` where no log was created.
    pub fn replay(&self, job_id: &str) -> (result: Result<Vec<String>, AppError>)
        requires
            self.wf(),
        ensures
            match result {
                Ok(lines) => self@.contains_key(job_id@) && texts(lines@) == self@[job_id@],
                Err(e) => !self@.contains_key(job_id@) && e@ == AppErrorView::NotFound(
                    missing_log_message(job_id@),
                ),
            },
    {
        let key = String::from_str(job_id);
        match self.find(&key) {
            Some(i) => Ok(copy_lines(&self.records[i].lines)),
            None => Err(AppError::NotFound(String::from_str("No log for job ").concat(job_id))),
        }
    }
}

/// The logs after a series of appends, each a job id and a line, carried out
/// from the first to the last.
pub open spec fn append_all(logs: Logs, entries: Seq<(Seq<char>, Seq<char>)>) -> Logs
    decreases entries.len(),
{
    if entries.len() == 0 {
        logs
    } else {
        append_all(appended(logs, entries.first().0, entries.first().1), entries.drop_first())
    }
}

/// A log that does not exist cannot be read; the first line appended under
/// an id creates the log, which then holds that line and no other.
pub proof fn law_first_append_creates_log(logs: Logs, id: Seq<char>, line: Seq<char>)
    requires
        !logs.contains_key(id),
    ensures
        line_at(logs, id, 0) is None,
        appended(logs, id, line).contains_key(id),
        appended(logs, id, line)[id] == seq![line],
        line_at(appended(logs, id, line), id, 0) == Some(line),
{
}

/// An append adds one line at the end of one log and changes nothing else.
pub proof fn law_append_extends_one_log(
    logs: Logs,
    id: Seq<char>,
    line: Seq<char>,
    other: Seq<char>,
)
    ensures
        lines_of(appended(logs, id, line), id) == lines_of(logs, id).push(line),
        other != id ==> lines_of(appended(logs, id, line), other) == lines_of(logs, other),
        other != id ==> appended(logs, id, line).contains_key(other) == logs.contains_key(other),
{
}

/// Logs only grow: whatever is appended later, to this log or to others, a
/// log that exists stays, and the lines it holds now stay where they are, in
/// their order, as the beginning of the later log.
pub proof fn law_log_only_grows(logs: Logs, entries: Seq<(Seq<char>, Seq<char>)>, id: Seq<char>)
    ensures
        logs.contains_key(id) ==> append_all(logs, entries).contains_key(id),
        lines_of(logs, id).is_prefix_of(lines_of(append_all(logs, entries), id)),
    decreases entries.len(),
{
    if entries.len() > 0 {
        let next = appended(logs, entries.first().0, entries.first().1);
        law_append_extends_one_log(logs, entries.first().0, entries.first().1, id);
        law_log_only_grows(next, entries.drop_first(), id);
        let end = lines_of(append_all(logs, entries), id);
        assert(lines_of(logs, id).is_prefix_of(lines_of(next, id)));
        assert(lines_of(logs, id) =~= end.subrange(0, lines_of(logs, id).len() as int)) by {
            assert(lines_of(next, id) == end.subrange(0, lines_of(next, id).len() as int));
        }
    }
}

} // verus!
