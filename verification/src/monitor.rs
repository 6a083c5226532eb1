//! Watching the game until it exits for good. A launcher often exits and
//! starts the real game under the same executable name, so after each exit
//! the monitor waits a grace period and looks for a successor process; if
//! one runs, it watches that one instead.
use crate::text::owned;
use vstd::prelude::*;

verus! {

broadcast use vstd::string::group_string_axioms;

/// The first id in `pids` that differs from `current`.
pub open spec fn first_other(pids: Seq<u32>, current: u32) -> Option<u32>
    decreases pids.len(),
{
    if pids.len() == 0 {
        None
    } else if pids[0] != current {
        Some(pids[0])
    } else {
        first_other(pids.skip(1), current)
    }
}

/// The successor of process `current`: the first listed process with the
/// same executable name and another id.
pub fn successor_pid(pids: &Vec<u32>, current: u32) -> (r: Option<u32>)
    ensures
        r == first_other(pids@, current),
{
    let mut i: usize = 0;
    assert(pids@.skip(0) =~= pids@);
    while i < pids.len()
        invariant
            i <= pids@.len(),
            first_other(pids@, current) == first_other(pids@.skip(i as int), current),
        decreases pids@.len() - i,
    {
        assert(pids@.skip(i as int).skip(1) =~= pids@.skip(i + 1));
        if pids[i] != current {
            return Some(pids[i]);
        }
        i = i + 1;
    }
    None
}

/// Where the monitor stands.
#[derive(Clone, Copy, Debug, PartialEq, Eq, Structural)]
pub enum MonitorStage {
    /// Waiting for the watched process to exit.
    Watching,
    /// The watched process exited; this many seconds of the grace period
    /// have passed.
    Grace(u64),
    /// Looking for a successor.
    Scanning,
    /// Done: the watched process exited for good, or a stop was asked for.
    Done,
}

/// What the caller reports.
#[derive(Debug)]
pub enum MonitorEvent {
    /// The watched process exited, or a stop was asked for while waiting;
    /// whether a stop has been asked for.
    Exited { stop_requested: bool },
    /// One second of the grace period: a stop was found asked for before
    /// sleeping (and there was no sleep), or the second was slept.
    GraceSecond { stop_requested: bool },
    /// The ids of the processes with the watched executable name.
    Scanned(Vec<u32>),
}

/// What the caller is to do next.
#[derive(Debug)]
pub enum MonitorAction {
    /// Wait until this process exits (or a stop is asked for).
    WaitForExit(u32),
    /// Unless a stop is asked for, sleep one second.
    SleepSecond,
    /// List the processes with this executable name.
    Scan(String),
    /// Monitoring is over; the id of the last process watched.
    Finished(u32),
}

/// The watch of a launched game and its successors.
pub struct Monitor {
    exe_name: String,
    grace_secs: u64,
    current_pid: u32,
    stage: MonitorStage,
}

/// A monitor as plain values.
pub ghost struct MonitorView {
    pub exe_name: Seq<char>,
    pub grace_secs: u64,
    pub current_pid: u32,
    pub stage: MonitorStage,
}

impl View for Monitor {
    type V = MonitorView;

    closed spec fn view(&self) -> MonitorView {
        MonitorView {
            exe_name: self.exe_name@,
            grace_secs: self.grace_secs,
            current_pid: self.current_pid,
            stage: self.stage,
        }
    }
}

/// The action that follows `grace` seconds of the grace period.
pub open spec fn after_grace(pre: MonitorView, post: MonitorView, act: MonitorAction, elapsed: u64) -> bool {
    if elapsed >= pre.grace_secs {
        post == MonitorView { stage: MonitorStage::Scanning, ..pre } && (act matches MonitorAction::Scan(
            n,
        ) && n@ == pre.exe_name)
    } else {
        post == MonitorView { stage: MonitorStage::Grace(elapsed), ..pre } && act
            == MonitorAction::SleepSecond
    }
}

/// One step of the monitor.
pub open spec fn monitor_next(pre: MonitorView, ev: MonitorEvent, post: MonitorView, act: MonitorAction) -> bool {
    match (pre.stage, ev) {
        (MonitorStage::Watching, MonitorEvent::Exited { stop_requested }) => if stop_requested {
            post == MonitorView { stage: MonitorStage::Done, ..pre } && act == MonitorAction::Finished(
                pre.current_pid,
            )
        } else {
            after_grace(pre, post, act, 0)
        },
        (MonitorStage::Grace(k), MonitorEvent::GraceSecond { stop_requested }) => if stop_requested {
            post == MonitorView { stage: MonitorStage::Done, ..pre } && act == MonitorAction::Finished(
                pre.current_pid,
            )
        } else {
            after_grace(pre, post, act, (k + 1) as u64)
        },
        (MonitorStage::Scanning, MonitorEvent::Scanned(pids)) => match first_other(
            pids@,
            pre.current_pid,
        ) {
            Some(p) => post == MonitorView {
                stage: MonitorStage::Watching,
                current_pid: p,
                ..pre
            } && act == MonitorAction::WaitForExit(p),
            None => post == MonitorView { stage: MonitorStage::Done, ..pre } && act
                == MonitorAction::Finished(pre.current_pid),
        },
        _ => false,
    }
}

/// Which report a monitor in `stage` waits for.
pub open spec fn monitor_expects(stage: MonitorStage, ev: MonitorEvent) -> bool {
    match stage {
        MonitorStage::Watching => ev is Exited,
        MonitorStage::Grace(k) => ev is GraceSecond && k < u64::MAX,
        MonitorStage::Scanning => ev is Scanned,
        MonitorStage::Done => false,
    }
}

impl Monitor {
    /// A monitor of process `pid` of executable `exe_name`, waiting
    /// `grace_secs` seconds after each exit for a successor; its first action
    /// is to wait for `pid` to exit.
    pub fn new(pid: u32, exe_name: &str, grace_secs: u64) -> (r: (Monitor, MonitorAction))
        ensures
            r.0@ == (MonitorView {
                exe_name: exe_name@,
                grace_secs,
                current_pid: pid,
                stage: MonitorStage::Watching,
            }),
            r.1 == MonitorAction::WaitForExit(pid),
    {
        (
            Monitor {
                exe_name: owned(exe_name),
                grace_secs,
                current_pid: pid,
                stage: MonitorStage::Watching,
            },
            MonitorAction::WaitForExit(pid),
        )
    }

    /// Whether monitoring is over.
    pub fn is_done(&self) -> (b: bool)
        ensures
            b == (self@.stage == MonitorStage::Done),
    {
        self.stage == MonitorStage::Done
    }

    /// Whether the monitor waits for a report of the kind of `ev`.
    pub fn accepts(&self, ev: &MonitorEvent) -> (b: bool)
        ensures
            b == monitor_expects(self@.stage, *ev),
    {
        match self.stage {
            MonitorStage::Watching => matches!(ev, MonitorEvent::Exited { .. }),
            MonitorStage::Grace(k) => matches!(ev, MonitorEvent::GraceSecond { .. }) && k < u64::MAX,
            MonitorStage::Scanning => matches!(ev, MonitorEvent::Scanned(..)),
            MonitorStage::Done => false,
        }
    }

    fn grace_action(&mut self, elapsed: u64) -> (act: MonitorAction)
        ensures
            after_grace(old(self)@, final(self)@, act, elapsed),
    {
        if elapsed >= self.grace_secs {
            self.stage = MonitorStage::Scanning;
            MonitorAction::Scan(self.exe_name.clone())
        } else {
            self.stage = MonitorStage::Grace(elapsed);
            MonitorAction::SleepSecond
        }
    }

    /// Takes the report of the last action and gives the next one.
    pub fn step(&mut self, ev: MonitorEvent) -> (act: MonitorAction)
        requires
            monitor_expects(old(self)@.stage, ev),
        ensures
            monitor_next(old(self)@, ev, final(self)@, act),
    {
        match (self.stage, ev) {
            (MonitorStage::Watching, MonitorEvent::Exited { stop_requested }) => {
                if stop_requested {
                    self.stage = MonitorStage::Done;
                    MonitorAction::Finished(self.current_pid)
                } else {
                    self.grace_action(0)
                }
            },
            (MonitorStage::Grace(k), MonitorEvent::GraceSecond { stop_requested }) => {
                if stop_requested {
                    self.stage = MonitorStage::Done;
                    MonitorAction::Finished(self.current_pid)
                } else {
                    self.grace_action(k + 1)
                }
            },
            (MonitorStage::Scanning, MonitorEvent::Scanned(pids)) => {
                match successor_pid(&pids, self.current_pid) {
                    Some(p) => {
                        self.current_pid = p;
                        self.stage = MonitorStage::Watching;
                        MonitorAction::WaitForExit(p)
                    },
                    None => {
                        self.stage = MonitorStage::Done;
                        MonitorAction::Finished(self.current_pid)
                    },
                }
            },
            _ => {
                proof {
                    assert(false);
                }
                MonitorAction::Finished(self.current_pid)
            },
        }
    }
}

/// A successor is never the process that just exited: when the monitor
/// moves to a new process, its id differs from the one it watched before.
pub proof fn lemma_successor_differs(pre: MonitorView, ev: MonitorEvent, post: MonitorView, act: MonitorAction)
    requires
        monitor_next(pre, ev, post, act),
        act is WaitForExit,
    ensures
        post.current_pid != pre.current_pid,
        act == MonitorAction::WaitForExit(post.current_pid),
{
    if let MonitorEvent::Scanned(pids) = ev {
        lemma_first_other(pids@, pre.current_pid);
    }
}

proof fn lemma_first_other(pids: Seq<u32>, current: u32)
    ensures
        first_other(pids, current) matches Some(p) ==> p != current && pids.contains(p),
    decreases pids.len(),
{
    if pids.len() > 0 && pids[0] == current {
        lemma_first_other(pids.skip(1), current);
        if let Some(p) = first_other(pids.skip(1), current) {
            let k = choose|k: int| 0 <= k < pids.skip(1).len() && pids.skip(1)[k] == p;
            assert(pids[k + 1] == p);
        }
    } else if pids.len() > 0 {
        assert(pids[0] == pids[0]);
    }
}

/// The monitor finishes only with the last process it watched, and every
/// process it watches after the first is one the caller listed.
pub proof fn lemma_watched_pid_is_listed(pre: MonitorView, ev: MonitorEvent, post: MonitorView, act: MonitorAction)
    requires
        monitor_next(pre, ev, post, act),
    ensures
        act matches MonitorAction::Finished(p) ==> p == pre.current_pid && post.stage == MonitorStage::Done,
        post.current_pid != pre.current_pid ==> (ev matches MonitorEvent::Scanned(pids) && pids@.contains(post.current_pid)),
{
    if let MonitorEvent::Scanned(pids) = ev {
        lemma_first_other(pids@, pre.current_pid);
    }
}

proof fn lemma_first_other_at(pids: Seq<u32>, current: u32, k: int)
    requires
        0 <= k < pids.len(),
        pids[k] != current,
        forall|j: int| 0 <= j < k ==> #[trigger] pids[j] == current,
    ensures
        first_other(pids, current) == Some(pids[k]),
    decreases k,
{
    if k > 0 {
        let rest = pids.skip(1);
        assert(pids[0] == current);
        assert(rest[k - 1] == pids[k]);
        assert forall|j: int| 0 <= j < k - 1 implies #[trigger] rest[j] == current by {
            assert(rest[j] == pids[j + 1]);
        }
        lemma_first_other_at(rest, current, k - 1);
    }
}

proof fn lemma_first_other_none(pids: Seq<u32>, current: u32)
    ensures
        first_other(pids, current) is None <==> forall|k: int| 0 <= k < pids.len() ==> #[trigger] pids[k] == current,
    decreases pids.len(),
{
    if pids.len() > 0 {
        let rest = pids.skip(1);
        lemma_first_other_none(rest, current);
        if pids[0] == current {
            if forall|k: int| 0 <= k < rest.len() ==> #[trigger] rest[k] == current {
                assert forall|k: int| 0 <= k < pids.len() implies #[trigger] pids[k] == current by {
                    if k > 0 {
                        assert(pids[k] == rest[k - 1]);
                    }
                }
            } else {
                let k = choose|k: int| 0 <= k < rest.len() && #[trigger] rest[k] != current;
                assert(pids[k + 1] == rest[k]);
            }
        }
    }
}

/// The successor is the first listed id that differs from the current
/// one, whatever its value: there is none exactly when every listed id is
/// the current one, and otherwise it is the first id that differs.
pub proof fn lemma_successor_is_first_other_id(pids: Seq<u32>, current: u32, k: int)
    ensures
        first_other(pids, current) is None <==> forall|j: int| 0 <= j < pids.len() ==> #[trigger] pids[j] == current,
        0 <= k < pids.len() && pids[k] != current && (forall|j: int| 0 <= j < k ==> #[trigger] pids[j] == current)
            ==> first_other(pids, current) == Some(pids[k]),
{
    lemma_first_other_none(pids, current);
    if 0 <= k < pids.len() && pids[k] != current && (forall|j: int| 0 <= j < k ==> #[trigger] pids[j] == current) {
        lemma_first_other_at(pids, current, k);
    }
}

} // verus!
