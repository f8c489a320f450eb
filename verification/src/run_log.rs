//! The event log of a run.
//!
//! Every event of a run goes to a file of its own, one JSON value a line. Only
//! so many files are kept.

use vstd::prelude::*;
use vstd::string::*;
use crate::dup::{push, Dup};
use crate::event_router::{stamp, stamp_text};
use crate::paths::{path_of, under, PathParts, PathPartsView};
use crate::text;
use crate::time::{before, is_before, Instant};

verus! {

/// How many log files are kept.
pub const KEEP_LOGS: usize = 200;

/// A file of the log directory.
#[derive(Debug, PartialEq, Eq)]
pub struct LogFile {
    pub name: String,
    /// When it was written last.
    pub modified: Instant,
}

/// View of [`LogFile`].
pub struct LogFileView {
    pub name: Seq<char>,
    pub modified: Instant,
}

impl DeepView for LogFile {
    type V = LogFileView;

    open spec fn deep_view(&self) -> LogFileView {
        LogFileView {
            name: self.name.deep_view(),
            modified: self.modified.deep_view(),
        }
    }
}

impl Dup for LogFile {
    fn dup(&self) -> (copy: Self) {
        LogFile {
            name: self.name.dup(),
            modified: self.modified.dup(),
        }
    }
}

/// The directory of the log files.
pub open spec fn logs_under(home: Seq<char>) -> PathPartsView {
    under(under(path_of(home), ".tofupilot"@), "logs"@)
}

/// The directory of the log files, below the home directory where that is
/// known.
pub fn log_dir(home: &Option<String>) -> (dir: Option<PathParts>)
    ensures
        dir.deep_view() == (match home.deep_view() {
            Some(h) => Some(logs_under(h)),
            None => None,
        }),
{
    match home {
        Some(h) => Some(PathParts::new(h.as_str()).join(".tofupilot").join("logs")),
        None => None,
    }
}

/// The name of the log file of a run.
pub open spec fn log_name(execution_id: Seq<char>) -> Seq<char> {
    "run-"@ + execution_id + ".log"@
}

/// The log file of a run.
pub fn log_path(home: &Option<String>, execution_id: &str) -> (path: Option<PathParts>)
    ensures
        path.deep_view() == (match home.deep_view() {
            Some(h) => Some(under(logs_under(h), log_name(execution_id@))),
            None => None,
        }),
{
    match log_dir(home) {
        Some(dir) => {
            let name = text::concat3("run-", execution_id, ".log");
            Some(dir.join(name.as_str()))
        },
        None => None,
    }
}

/// The line of an event in the log.
pub open spec fn line_of(event_json: Seq<char>, now: Instant) -> Seq<char> {
    "{\"logged_at\":\""@ + stamp_text(now) + "\",\"event\":"@ + event_json + "}\n"@
}

/// The line of an event in the log.
pub fn log_line(event_json: &str, now: Instant) -> (line: String)
    ensures
        line@ == line_of(event_json@, now),
{
    let at = stamp(now);
    let mut line = text::concat3("{\"logged_at\":\"", at.as_str(), "\",\"event\":");
    line.append(event_json);
    line.append("}\n");
    line
}

// ---------------------------------------------------------------------------
// Pruning
// ---------------------------------------------------------------------------

/// Whether a file is a log of a run.
pub open spec fn is_run_log(name: Seq<char>) -> bool {
    "run-"@.is_prefix_of(name) && ".log"@.is_suffix_of(name)
}

/// The logs of runs among the files of the directory.
pub open spec fn run_logs(files: Seq<LogFileView>) -> Seq<LogFileView> {
    files.filter(|f: LogFileView| is_run_log(f.name))
}

/// A list in the order of time with one more file, after those that are not
/// younger.
pub open spec fn insert_by_time(s: Seq<LogFileView>, x: LogFileView) -> Seq<LogFileView>
    decreases s.len(),
{
    if s.len() == 0 {
        seq![x]
    } else if before(x.modified, s.last().modified) {
        insert_by_time(s.drop_last(), x).push(s.last())
    } else {
        s.push(x)
    }
}

/// The files in the order of time, oldest first.
pub open spec fn by_time(s: Seq<LogFileView>) -> Seq<LogFileView>
    decreases s.len(),
{
    if s.len() == 0 {
        Seq::empty()
    } else {
        insert_by_time(by_time(s.drop_last()), s.last())
    }
}

/// The logs that go before a new one is written: the oldest, as many as there
/// are too many.
pub open spec fn pruned(files: Seq<LogFileView>) -> Seq<LogFileView> {
    let logs = run_logs(files);
    if logs.len() < KEEP_LOGS {
        Seq::empty()
    } else {
        by_time(logs).take(logs.len() + 1 - KEEP_LOGS)
    }
}

fn insert_log(list: &mut Vec<LogFile>, x: LogFile)
    ensures
        final(list).deep_view() == insert_by_time(old(list).deep_view(), x.deep_view()),
{
    let ghost start = list.deep_view();
    let mut i: usize = list.len();
    proof {
        assert(start.take(start.len() as int) =~= start);
        assert(start.subrange(start.len() as int, start.len() as int) =~= Seq::empty());
    }
    while i > 0 && is_before(x.modified, list[i - 1].modified)
        invariant
            i <= list@.len(),
            list.deep_view() == start,
            insert_by_time(start, x.deep_view()) == insert_by_time(
                start.take(i as int),
                x.deep_view(),
            ) + start.subrange(i as int, start.len() as int),
        decreases i,
    {
        proof {
            let head = start.take(i as int);
            assert(head.drop_last() =~= start.take(i - 1));
            assert(head.last() == list@[i - 1].deep_view());
            assert(insert_by_time(head, x.deep_view()) == insert_by_time(
                start.take(i - 1),
                x.deep_view(),
            ).push(head.last()));
            assert(insert_by_time(start.take(i - 1), x.deep_view()).push(head.last())
                + start.subrange(i as int, start.len() as int) =~= insert_by_time(
                start.take(i - 1),
                x.deep_view(),
            ) + start.subrange(i - 1, start.len() as int));
        }
        i -= 1;
    }
    proof {
        let head = start.take(i as int);
        if i > 0 {
            assert(head.last() == list@[i - 1].deep_view());
        }
        assert(insert_by_time(head, x.deep_view()) =~= head.push(x.deep_view()));
        assert(head.push(x.deep_view()) + start.subrange(i as int, start.len() as int)
            =~= start.insert(i as int, x.deep_view()));
    }
    list.insert(i, x);
    assert(list.deep_view() =~= start.insert(i as int, x.deep_view()));
}

fn keep_run_logs(files: &Vec<LogFile>) -> (out: Vec<LogFile>)
    ensures
        out.deep_view() == run_logs(files.deep_view()),
{
    let mut out: Vec<LogFile> = Vec::new();
    let mut i: usize = 0;
    proof {
        reveal(Seq::filter);
        assert(out.deep_view() =~= run_logs(files.deep_view().take(0)));
    }
    while i < files.len()
        invariant
            i <= files@.len(),
            out.deep_view() == run_logs(files.deep_view().take(i as int)),
        decreases files@.len() - i,
    {
        proof {
            reveal(Seq::filter);
            let seen = files.deep_view().take(i + 1);
            assert(seen.drop_last() =~= files.deep_view().take(i as int));
            assert(seen.last() == files@[i as int].deep_view());
        }
        if text::starts_with(files[i].name.as_str(), "run-") && text::ends_with(
            files[i].name.as_str(),
            ".log",
        ) {
            push(&mut out, files[i].dup());
        }
        i += 1;
    }
    assert(files.deep_view().take(files@.len() as int) =~= files.deep_view());
    out
}

/// The names of the logs that go before a new one is written.
pub fn prune_old_logs(files: &Vec<LogFile>) -> (gone: Vec<String>)
    ensures
        gone.deep_view() == pruned(files.deep_view()).map_values(|f: LogFileView| f.name),
{
    let logs = keep_run_logs(files);
    let mut gone: Vec<String> = Vec::new();
    if logs.len() < KEEP_LOGS {
        assert(gone.deep_view() =~= pruned(files.deep_view()).map_values(|f: LogFileView| f.name));
        return gone;
    }
    let mut sorted: Vec<LogFile> = Vec::new();
    let mut i: usize = 0;
    assert(sorted.deep_view() =~= by_time(logs.deep_view().take(0)));
    while i < logs.len()
        invariant
            i <= logs@.len(),
            sorted@.len() == i,
            sorted.deep_view() == by_time(logs.deep_view().take(i as int)),
        decreases logs@.len() - i,
    {
        let ghost seen = logs.deep_view().take(i + 1);
        assert(seen.drop_last() =~= logs.deep_view().take(i as int));
        assert(seen.last() == logs@[i as int].deep_view());
        proof {
            lemma_insert(sorted.deep_view(), logs@[i as int].deep_view());
        }
        insert_log(&mut sorted, logs[i].dup());
        assert(sorted@.len() == sorted.deep_view().len());
        i += 1;
    }
    assert(logs.deep_view().take(logs@.len() as int) =~= logs.deep_view());
    let excess: usize = logs.len() - KEEP_LOGS + 1;
    let mut k: usize = 0;
    while k < excess
        invariant
            k <= excess,
            excess <= sorted@.len(),
            gone@.len() == k,
            forall|j: int| 0 <= j < k ==> (#[trigger] gone@[j])@ == sorted@[j].name@,
        decreases excess - k,
    {
        gone.push(sorted[k].name.dup());
        k += 1;
    }
    assert(gone.deep_view() =~= pruned(files.deep_view()).map_values(|f: LogFileView| f.name));
    gone
}

// ---------------------------------------------------------------------------
// Laws
// ---------------------------------------------------------------------------

/// Whether a list is in the order of time.
pub open spec fn in_order(s: Seq<LogFileView>) -> bool {
    forall|i: int, j: int|
        0 <= i <= j < s.len() ==> !before((#[trigger] s[j]).modified, (#[trigger] s[i]).modified)
}

proof fn lemma_insert(s: Seq<LogFileView>, x: LogFileView)
    ensures
        insert_by_time(s, x).len() == s.len() + 1,
        insert_by_time(s, x).to_multiset() == s.to_multiset().insert(x),
        in_order(s) ==> in_order(insert_by_time(s, x)),
        forall|i: int|
            0 <= i < insert_by_time(s, x).len() ==> (#[trigger] insert_by_time(s, x)[i]) == x
                || s.contains(insert_by_time(s, x)[i]),
    decreases s.len(),
{
    broadcast use vstd::seq_lib::group_to_multiset_ensures;

    if s.len() == 0 {
        assert(insert_by_time(s, x) =~= s.push(x));
        assert(s.push(x).to_multiset() =~= s.to_multiset().insert(x));
    } else if before(x.modified, s.last().modified) {
        let rest = s.drop_last();
        lemma_insert(rest, x);
        let out = insert_by_time(s, x);
        assert(s =~= rest.push(s.last()));
        assert(rest.push(s.last()).to_multiset() =~= rest.to_multiset().insert(s.last()));
        assert(out.to_multiset() =~= s.to_multiset().insert(x));
        assert forall|i: int| 0 <= i < out.len() implies (#[trigger] out[i]) == x || s.contains(
            out[i],
        ) by {
            if i < out.len() - 1 {
                let inner = insert_by_time(rest, x);
                assert(out[i] == inner[i]);
                if inner[i] != x {
                    let k = choose|k: int| 0 <= k < rest.len() && rest[k] == inner[i];
                    assert(s[k] == inner[i]);
                }
            } else {
                assert(s[s.len() - 1] == out[i]);
            }
        }
        if in_order(s) {
            let inner = insert_by_time(rest, x);
            assert forall|i: int, j: int| 0 <= i <= j < rest.len() implies !before(
                (#[trigger] rest[j]).modified,
                (#[trigger] rest[i]).modified,
            ) by {
                assert(rest[j] == s[j] && rest[i] == s[i]);
            }
            assert forall|i: int, j: int| 0 <= i <= j < out.len() implies !before(
                (#[trigger] out[j]).modified,
                (#[trigger] out[i]).modified,
            ) by {
                if j < out.len() - 1 {
                    assert(out[j] == inner[j] && out[i] == inner[i]);
                } else if i < out.len() - 1 {
                    assert(out[i] == inner[i]);
                    if inner[i] != x {
                        let k = choose|k: int| 0 <= k < rest.len() && rest[k] == inner[i];
                        assert(s[k] == inner[i]);
                        assert(!before(s[s.len() - 1].modified, s[k].modified));
                    }
                }
            }
        }
    } else {
        let out = s.push(x);
        assert(out.to_multiset() =~= s.to_multiset().insert(x));
        assert forall|i: int| 0 <= i < out.len() implies (#[trigger] out[i]) == x || s.contains(
            out[i],
        ) by {
            if i < s.len() {
                assert(s[i] == out[i]);
            }
        }
        if in_order(s) {
            assert forall|i: int, j: int| 0 <= i <= j < out.len() implies !before(
                (#[trigger] out[j]).modified,
                (#[trigger] out[i]).modified,
            ) by {
                if j < s.len() {
                    assert(out[j] == s[j] && out[i] == s[i]);
                } else if i < s.len() {
                    assert(out[i] == s[i]);
                    assert(!before(s[s.len() - 1].modified, s[i].modified));
                }
            }
        }
    }
}

/// Putting files in the order of time loses none and adds none.
pub proof fn law_by_time(s: Seq<LogFileView>)
    ensures
        by_time(s).to_multiset() == s.to_multiset(),
        by_time(s).len() == s.len(),
        in_order(by_time(s)),
    decreases s.len(),
{
    broadcast use vstd::seq_lib::group_to_multiset_ensures;

    if s.len() > 0 {
        law_by_time(s.drop_last());
        lemma_insert(by_time(s.drop_last()), s.last());
        assert(s =~= s.drop_last().push(s.last()));
        assert(s.drop_last().push(s.last()).to_multiset() =~= s.drop_last().to_multiset().insert(
            s.last(),
        ));
    }
}

/// After pruning there is room for one new log: no more than the bound are
/// there with it. What goes is never younger than what stays.
pub proof fn law_pruning_makes_room(files: Seq<LogFileView>)
    ensures
        run_logs(files).len() - pruned(files).len() + 1 <= KEEP_LOGS,
        forall|i: int, j: int|
            0 <= i < pruned(files).len() && pruned(files).len() <= j < by_time(
                run_logs(files),
            ).len() ==> !before(
                (#[trigger] by_time(run_logs(files))[j]).modified,
                (#[trigger] pruned(files)[i]).modified,
            ),
{
    law_by_time(run_logs(files));
}

} // verus!
