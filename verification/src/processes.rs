//! Running processes: finding them by executable name and choosing which to
//! terminate.
use crate::errors::{AppError, AppResult, protected_text};
use crate::guards::{is_protected_process, listed, protected_processes};
use crate::model::{clone_opt_string, KilledProcessRecord};
use crate::text::{eq_ignore_ascii_case, owned, str_eq_ignore_ascii_case};
use vstd::prelude::*;

verus! {

broadcast use vstd::string::group_string_axioms;

/// A running process as the system lists it.
#[derive(Debug)]
pub struct ProcessInfo {
    pub pid: u32,
    pub exe_name: String,
    pub exe_path: Option<String>,
    /// The command that starts the program again, when it is known.
    pub cmdline: Option<String>,
    /// The directory to start the program again in, when it is known.
    pub working_dir: Option<String>,
}

/// The processes of `ps` whose executable name equals `name` ignoring ASCII
/// case, in order.
pub open spec fn named(ps: Seq<ProcessInfo>, name: Seq<char>) -> Seq<ProcessInfo> {
    ps.filter(|p: ProcessInfo| eq_ignore_ascii_case(p.exe_name@, name))
}

/// The ids of the processes of `ps` named `name`, in order.
pub open spec fn pids_named(ps: Seq<ProcessInfo>, name: Seq<char>) -> Seq<u32> {
    named(ps, name).map_values(|p: ProcessInfo| p.pid)
}

/// The ids of the processes in `processes` whose executable name is
/// `exe_name`, ignoring ASCII case, in the order listed.
pub fn find_pids_by_name(processes: &Vec<ProcessInfo>, exe_name: &str) -> (pids: Vec<u32>)
    ensures
        pids@ == pids_named(processes@, exe_name@),
{
    let ghost pred = |p: ProcessInfo| eq_ignore_ascii_case(p.exe_name@, exe_name@);
    let mut pids: Vec<u32> = Vec::new();
    let mut i: usize = 0;
    while i < processes.len()
        invariant
            i <= processes@.len(),
            pred == (|p: ProcessInfo| eq_ignore_ascii_case(p.exe_name@, exe_name@)),
            pids@ == processes@.take(i as int).filter(pred).map_values(|p: ProcessInfo| p.pid),
        decreases processes@.len() - i,
    {
        let hit = str_eq_ignore_ascii_case(processes[i].exe_name.as_str(), exe_name);
        proof {
            processes@.take(i as int).lemma_filter_push(processes@[i as int], pred);
            assert(processes@.take(i as int).push(processes@[i as int]) =~= processes@.take(i + 1));
        }
        if hit {
            pids.push(processes[i].pid);
            assert(pids@ =~= processes@.take(i + 1).filter(pred).map_values(|p: ProcessInfo| p.pid));
        }
        i = i + 1;
    }
    assert(processes@.take(processes@.len() as int) =~= processes@);
    pids
}

/// `r` records the termination of process `p`, named `name` in the
/// profile, to be started again after the session when `relaunch` holds,
/// with the command line and working directory captured for it.
pub open spec fn records_kill(r: KilledProcessRecord, name: Seq<char>, p: ProcessInfo, relaunch: bool) -> bool {
    &&& r.exe_name@ == name
    &&& r.pid == p.pid
    &&& r.cmdline == p.cmdline
    &&& r.working_dir == p.working_dir
    &&& r.should_relaunch == relaunch
}

/// The processes of `processes` to terminate for a profile entry naming
/// `exe_name`: one record per process of that name, in the order listed,
/// capturing what starts it again. A protected executable is refused,
/// whatever runs.
pub fn kill_processes_by_name(
    processes: &Vec<ProcessInfo>,
    exe_name: &str,
    should_relaunch: bool,
) -> (r: AppResult<Vec<KilledProcessRecord>>)
    ensures
        listed(protected_processes(), exe_name@) <==> r is Err,
        r matches Err(e) ==> e matches AppError::SecurityGuard(m) && m@ == protected_text(
            "Process"@,
            exe_name@,
        ),
        r matches Ok(v) ==> {
            &&& v@.len() == named(processes@, exe_name@).len()
            &&& forall|i: int|
                0 <= i < v@.len() ==> records_kill(
                    #[trigger] v@[i],
                    exe_name@,
                    named(processes@, exe_name@)[i],
                    should_relaunch,
                )
        },
{
    if is_protected_process(exe_name) {
        return Err(AppError::protected_process(exe_name));
    }
    let ghost pred = |p: ProcessInfo| eq_ignore_ascii_case(p.exe_name@, exe_name@);
    let mut records: Vec<KilledProcessRecord> = Vec::new();
    let mut i: usize = 0;
    while i < processes.len()
        invariant
            i <= processes@.len(),
            pred == (|p: ProcessInfo| eq_ignore_ascii_case(p.exe_name@, exe_name@)),
            records@.len() == processes@.take(i as int).filter(pred).len(),
            forall|j: int|
                0 <= j < records@.len() ==> records_kill(
                    #[trigger] records@[j],
                    exe_name@,
                    processes@.take(i as int).filter(pred)[j],
                    should_relaunch,
                ),
        decreases processes@.len() - i,
    {
        let hit = str_eq_ignore_ascii_case(processes[i].exe_name.as_str(), exe_name);
        proof {
            processes@.take(i as int).lemma_filter_push(processes@[i as int], pred);
            assert(processes@.take(i as int).push(processes@[i as int]) =~= processes@.take(i + 1));
        }
        if hit {
            let p = &processes[i];
            records.push(
                KilledProcessRecord {
                    exe_name: owned(exe_name),
                    pid: p.pid,
                    cmdline: clone_opt_string(&p.cmdline),
                    working_dir: clone_opt_string(&p.working_dir),
                    should_relaunch,
                },
            );
        }
        i = i + 1;
    }
    assert(processes@.take(processes@.len() as int) =~= processes@);
    Ok(records)
}

/// The records of `records` whose process was terminated: `terminated[i]`
/// tells whether the process of `records[i]` was; a record without an
/// answer is dropped.
pub open spec fn terminated_only(records: Seq<KilledProcessRecord>, terminated: Seq<bool>) -> Seq<KilledProcessRecord>
    decreases records.len(),
{
    if records.len() == 0 {
        records
    } else {
        let before = terminated_only(records.drop_last(), terminated);
        let i = records.len() - 1;
        if i < terminated.len() && terminated[i] {
            before.push(records[i])
        } else {
            before
        }
    }
}

/// The records of the processes that were terminated, in order:
/// `terminated[i]` is whether terminating the process of `records[i]`
/// succeeded.
pub fn terminated_records(records: &Vec<KilledProcessRecord>, terminated: &Vec<bool>) -> (v: Vec<KilledProcessRecord>)
    ensures
        v@ == terminated_only(records@, terminated@),
{
    let mut v: Vec<KilledProcessRecord> = Vec::new();
    let mut i: usize = 0;
    assert(records@.take(0) =~= Seq::<KilledProcessRecord>::empty());
    while i < records.len()
        invariant
            i <= records@.len(),
            v@ == terminated_only(records@.take(i as int), terminated@),
        decreases records@.len() - i,
    {
        let ghost t = records@.take(i + 1);
        assert(t.drop_last() =~= records@.take(i as int));
        assert(t[i as int] == records@[i as int]);
        if i < terminated.len() && terminated[i] {
            v.push(records[i].clone());
        }
        i = i + 1;
    }
    assert(records@.take(records@.len() as int) =~= records@);
    v
}

} // verus!
