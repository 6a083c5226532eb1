//! What a launch changes on the system and what the restore puts back: the
//! services to query and to stop, the programs to close, the command that
//! starts the game, and the restore plan built from the snapshot.
use crate::guards::{is_protected_service, listed, protected_services};
use crate::model::{
    clone_opt_string, find_name, lemma_find_name, lemma_insert_keeps_unique, lookup, opt_view,
    table_insert, table_view, unique_names, KilledProcessRecord,
    ProcessAction, Profile, ServiceAction, SystemSnapshot,
};
use crate::paths::{exe_file_name, file_name};
use crate::text::{split_whitespace, split_whitespace_words, str_eq, views};
use vstd::prelude::*;

verus! {

broadcast use vstd::string::group_string_axioms;

/// The optimizer: it plans a launch and the restore that follows it.
pub struct Optimizer;

/// The services a profile stops on launch, in profile order.
pub open spec fn queried_services(services: Seq<ServiceAction>) -> Seq<Seq<char>> {
    services.filter(|a: ServiceAction| a.stop_on_launch).map_values(
        |a: ServiceAction| a.service_name@,
    )
}

/// The names of the services that `profile` stops on launch; their state is
/// recorded before anything changes.
pub fn services_to_query(profile: &Profile) -> (names: Vec<String>)
    ensures
        views(names@) == queried_services(profile.services@),
{
    let ghost pred = |a: ServiceAction| a.stop_on_launch;
    let ghost s = profile.services@;
    let mut names: Vec<String> = Vec::new();
    let mut i: usize = 0;
    while i < profile.services.len()
        invariant
            s == profile.services@,
            i <= s.len(),
            pred == (|a: ServiceAction| a.stop_on_launch),
            views(names@) == s.take(i as int).filter(pred).map_values(|a: ServiceAction| a.service_name@),
        decreases s.len() - i,
    {
        proof {
            s.take(i as int).lemma_filter_push(s[i as int], pred);
            assert(s.take(i as int).push(s[i as int]) =~= s.take(i + 1));
        }
        if profile.services[i].stop_on_launch {
            let ghost prev = names@;
            names.push(profile.services[i].service_name.clone());
            assert(views(names@) =~= views(prev).push(s[i as int].service_name@));
        }
        assert(views(names@) =~= s.take(i + 1).filter(pred).map_values(|a: ServiceAction| a.service_name@));
        i = i + 1;
    }
    assert(s.take(s.len() as int) =~= s);
    names
}

/// Where `name` stands in `table`, if it is there.
fn table_find(table: &Vec<(String, bool)>, name: &str) -> (r: Option<usize>)
    ensures
        r matches Some(i) ==> find_name(table_view(table@), name@) == Some(i as int) && i < table@.len(),
        r is None ==> find_name(table_view(table@), name@) is None,
{
    let ghost m = table_view(table@);
    let mut i: usize = table.len();
    assert(m.take(m.len() as int) =~= m);
    while i > 0
        invariant
            m == table_view(table@),
            i <= table@.len(),
            find_name(m, name@) == find_name(m.take(i as int), name@),
        decreases i,
    {
        let ghost t = m.take(i as int);
        assert(t.drop_last() =~= m.take(i - 1));
        if str_eq(table[i - 1].0.as_str(), name) {
            assert(t.last().0 == name@);
            return Some(i - 1);
        }
        i = i - 1;
    }
    assert(m.take(0) =~= Seq::<(Seq<char>, bool)>::empty());
    None
}

/// The flag `table` records for `name`, if any.
pub fn table_lookup(table: &Vec<(String, bool)>, name: &str) -> (r: Option<bool>)
    ensures
        r == lookup(table_view(table@), name@),
{
    match table_find(table, name) {
        Some(i) => Some(table[i].1),
        None => None,
    }
}

/// Records `flag` for `name` in `table` (`HashMap::insert`).
pub fn table_set(table: &mut Vec<(String, bool)>, name: String, flag: bool)
    ensures
        table_view(final(table)@) == table_insert(table_view(old(table)@), name@, flag),
        unique_names(table_view(old(table)@)) ==> unique_names(table_view(final(table)@)),
{
    proof {
        if unique_names(table_view(old(table)@)) {
            lemma_insert_keeps_unique(table_view(old(table)@), name@, flag);
        }
    }
    match table_find(table, name.as_str()) {
        Some(i) => {
            let ghost n = name@;
            table.set(i, (name, flag));
            assert(table_view(table@) =~= table_view(old(table)@).update(i as int, (n, flag)));
        },
        None => {
            let ghost n = name@;
            table.push((name, flag));
            assert(table_view(table@) =~= table_view(old(table)@).push((n, flag)));
        },
    }
}

/// `table` after recording, for each queried service in turn, whether it was
/// running; a service whose query failed (no result) is not recorded.
pub open spec fn record_queries(
    table: Seq<(Seq<char>, bool)>,
    names: Seq<Seq<char>>,
    results: Seq<Option<bool>>,
) -> Seq<(Seq<char>, bool)>
    decreases names.len(),
{
    if names.len() == 0 {
        table
    } else {
        let before = record_queries(table, names.drop_last(), results);
        let i = names.len() - 1;
        if i < results.len() && results[i] is Some {
            table_insert(before, names[i], results[i]->0)
        } else {
            before
        }
    }
}

/// Recording the answers keeps the names of a table unique.
pub proof fn lemma_record_queries_unique(
    table: Seq<(Seq<char>, bool)>,
    names: Seq<Seq<char>>,
    results: Seq<Option<bool>>,
)
    requires
        unique_names(table),
    ensures
        unique_names(record_queries(table, names, results)),
    decreases names.len(),
{
    if names.len() > 0 {
        lemma_record_queries_unique(table, names.drop_last(), results);
        let i = names.len() - 1;
        if i < results.len() && results[i] is Some {
            lemma_insert_keeps_unique(record_queries(table, names.drop_last(), results), names[i], results[i]->0);
        }
    }
}

/// Records the answers to the service queries: `results[i]` is whether
/// `names[i]` was running, `None` where the query failed.
pub fn record_service_queries(
    table: &mut Vec<(String, bool)>,
    names: &Vec<String>,
    results: &Vec<Option<bool>>,
)
    ensures
        table_view(final(table)@) == record_queries(table_view(old(table)@), views(names@), results@),
        unique_names(table_view(old(table)@)) ==> unique_names(table_view(final(table)@)),
{
    proof {
        if unique_names(table_view(old(table)@)) {
            lemma_record_queries_unique(table_view(old(table)@), views(names@), results@);
        }
    }
    let ghost start = table_view(table@);
    let mut i: usize = 0;
    assert(views(names@).take(0) =~= Seq::<Seq<char>>::empty());
    while i < names.len()
        invariant
            i <= names@.len(),
            table_view(table@) == record_queries(start, views(names@).take(i as int), results@),
        decreases names@.len() - i,
    {
        let ghost t = views(names@).take(i + 1);
        assert(t.drop_last() =~= views(names@).take(i as int));
        assert(t[i as int] == names@[i as int]@);
        if i < results.len() {
            match results[i] {
                Some(flag) => {
                    table_set(table, names[i].clone(), flag);
                },
                None => {},
            }
        }
        i = i + 1;
    }
    assert(views(names@).take(names@.len() as int) =~= views(names@));
}

/// What the launch does with a service it stops.
#[derive(Clone, Copy, Debug, PartialEq, Eq, Structural)]
pub enum ServiceStopKind {
    /// It was running: stop it.
    Stop,
    /// It was not running (or its state is unknown): leave it.
    AlreadyStopped,
    /// It was running but is protected: the guard refuses to stop it.
    Protected,
}

/// One service of the stop step.
#[derive(Debug)]
pub struct ServiceStop {
    pub kind: ServiceStopKind,
    pub service_name: String,
}

/// What the launch does with service `name`, given the recorded states.
pub open spec fn stop_kind(table: Seq<(Seq<char>, bool)>, name: Seq<char>) -> ServiceStopKind {
    if lookup(table, name) == Some(true) {
        if listed(protected_services(), name) {
            ServiceStopKind::Protected
        } else {
            ServiceStopKind::Stop
        }
    } else {
        ServiceStopKind::AlreadyStopped
    }
}

/// The stop step: one entry per service the profile stops, in profile order.
pub open spec fn stop_plan(services: Seq<ServiceAction>, table: Seq<(Seq<char>, bool)>) -> Seq<(ServiceStopKind, Seq<char>)> {
    queried_services(services).map_values(|n: Seq<char>| (stop_kind(table, n), n))
}

/// A stop step as plain values.
pub open spec fn stops_view(v: Seq<ServiceStop>) -> Seq<(ServiceStopKind, Seq<char>)> {
    v.map_values(|s: ServiceStop| (s.kind, s.service_name@))
}

/// The stop step of `profile` given the states recorded in `table`.
pub fn service_stop_plan(profile: &Profile, table: &Vec<(String, bool)>) -> (plan: Vec<ServiceStop>)
    ensures
        stops_view(plan@) == stop_plan(profile.services@, table_view(table@)),
{
    let names = services_to_query(profile);
    let ghost m = table_view(table@);
    let mut plan: Vec<ServiceStop> = Vec::new();
    let mut i: usize = 0;
    while i < names.len()
        invariant
            views(names@) == queried_services(profile.services@),
            m == table_view(table@),
            i <= names@.len(),
            stops_view(plan@) == views(names@).take(i as int).map_values(
                |n: Seq<char>| (stop_kind(m, n), n),
            ),
        decreases names@.len() - i,
    {
        let running = table_lookup(table, names[i].as_str());
        let kind = match running {
            Some(true) => if is_protected_service(names[i].as_str()) {
                ServiceStopKind::Protected
            } else {
                ServiceStopKind::Stop
            },
            _ => ServiceStopKind::AlreadyStopped,
        };
        let ghost prev = plan@;
        plan.push(ServiceStop { kind, service_name: names[i].clone() });
        assert(stops_view(plan@) =~= stops_view(prev).push((kind, names@[i as int]@)));
        assert(views(names@).take(i + 1) =~= views(names@).take(i as int).push(names@[i as int]@));
        i = i + 1;
    }
    assert(views(names@).take(names@.len() as int) =~= views(names@));
    plan
}

/// One program of the close step: every process with this executable name is
/// terminated, to be started again after the session when `relaunch` holds.
#[derive(Debug)]
pub struct ProcessClose {
    pub exe_name: String,
    pub relaunch: bool,
}

/// The programs a profile closes on launch: those marked to close and not
/// ignored, in profile order.
pub open spec fn close_plan(processes: Seq<ProcessAction>) -> Seq<(Seq<char>, bool)> {
    processes.filter(|p: ProcessAction| p.kill_on_launch && !p.is_ignored).map_values(
        |p: ProcessAction| (p.exe_name@, p.relaunch_after),
    )
}

/// Each entry of the close step comes from a program of the profile that is
/// marked to close and not ignored, and carries that program's name and its
/// own relaunch setting: the returned `k` is where that program stands.
pub proof fn lemma_close_entry_comes_from_profile(processes: Seq<ProcessAction>, i: int) -> (k: int)
    requires
        0 <= i < close_plan(processes).len(),
    ensures
        0 <= k < processes.len(),
        processes[k].kill_on_launch && !processes[k].is_ignored,
        close_plan(processes)[i] == (processes[k].exe_name@, processes[k].relaunch_after),
{
    let pred = |p: ProcessAction| p.kill_on_launch && !p.is_ignored;
    let f = processes.filter(pred);
    processes.lemma_filter_pred(pred, i);
    assert(f.contains(f[i]));
    processes.lemma_filter_contains_rev(pred, f[i]);
    let k = choose|k: int| 0 <= k < processes.len() && processes[k] == f[i];
    assert(close_plan(processes)[i] == (f[i].exe_name@, f[i].relaunch_after));
    k
}

/// Every program of the profile that is marked to close and not ignored is
/// in the close step, with its name and its own relaunch setting.
pub proof fn lemma_closed_program_in_plan(processes: Seq<ProcessAction>, k: int)
    requires
        0 <= k < processes.len(),
        processes[k].kill_on_launch && !processes[k].is_ignored,
    ensures
        close_plan(processes).contains((processes[k].exe_name@, processes[k].relaunch_after)),
{
    let pred = |p: ProcessAction| p.kill_on_launch && !p.is_ignored;
    let f = processes.filter(pred);
    processes.lemma_filter_contains(pred, k);
    let j = choose|j: int| 0 <= j < f.len() && f[j] == processes[k];
    assert(close_plan(processes)[j] == (f[j].exe_name@, f[j].relaunch_after));
}

/// A close step as plain values.
pub open spec fn closes_view(v: Seq<ProcessClose>) -> Seq<(Seq<char>, bool)> {
    v.map_values(|c: ProcessClose| (c.exe_name@, c.relaunch))
}

/// The close step of `profile`.
pub fn process_close_plan(profile: &Profile) -> (plan: Vec<ProcessClose>)
    ensures
        closes_view(plan@) == close_plan(profile.processes@),
{
    let ghost pred = |p: ProcessAction| p.kill_on_launch && !p.is_ignored;
    let ghost s = profile.processes@;
    let mut plan: Vec<ProcessClose> = Vec::new();
    let mut i: usize = 0;
    while i < profile.processes.len()
        invariant
            s == profile.processes@,
            i <= s.len(),
            pred == (|p: ProcessAction| p.kill_on_launch && !p.is_ignored),
            closes_view(plan@) == s.take(i as int).filter(pred).map_values(
                |p: ProcessAction| (p.exe_name@, p.relaunch_after),
            ),
        decreases s.len() - i,
    {
        proof {
            s.take(i as int).lemma_filter_push(s[i as int], pred);
            assert(s.take(i as int).push(s[i as int]) =~= s.take(i + 1));
        }
        let p = &profile.processes[i];
        if p.kill_on_launch && !p.is_ignored {
            let ghost prev = plan@;
            plan.push(ProcessClose { exe_name: p.exe_name.clone(), relaunch: p.relaunch_after });
            assert(closes_view(plan@) =~= closes_view(prev).push((s[i as int].exe_name@, s[i as int].relaunch_after)));
        }
        assert(closes_view(plan@) =~= s.take(i + 1).filter(pred).map_values(
            |p: ProcessAction| (p.exe_name@, p.relaunch_after),
        ));
        i = i + 1;
    }
    assert(s.take(s.len() as int) =~= s);
    plan
}

/// How the game is started.
#[derive(Debug)]
pub struct LaunchCommand {
    pub program: String,
    pub args: Vec<String>,
    pub working_dir: Option<String>,
}

/// The arguments a profile passes: its launch arguments split at whitespace,
/// none when it has none.
pub open spec fn launch_args_of(args: Option<String>) -> Seq<Seq<char>> {
    match args {
        Some(a) => if a@.len() > 0 {
            split_whitespace(a@)
        } else {
            Seq::empty()
        },
        None => Seq::empty(),
    }
}

/// The command that starts the game of `profile`: its executable, its
/// arguments split at whitespace, in its working directory if it has one.
pub fn launch_command(profile: &Profile) -> (c: LaunchCommand)
    ensures
        c.program@ == profile.executable_path@,
        views(c.args@) == launch_args_of(profile.launch_args),
        c.working_dir == profile.working_directory,
{
    let args = match &profile.launch_args {
        Some(a) => if !a.as_str().is_empty() {
            split_whitespace_words(a.as_str())
        } else {
            let v: Vec<String> = Vec::new();
            assert(views(v@) =~= Seq::<Seq<char>>::empty());
            v
        },
        None => {
            let v: Vec<String> = Vec::new();
            assert(views(v@) =~= Seq::<Seq<char>>::empty());
            v
        },
    };
    LaunchCommand {
        program: profile.executable_path.clone(),
        args,
        working_dir: clone_opt_string(&profile.working_directory),
    }
}

/// What the restore does.
#[derive(Debug)]
pub struct RestorePlan {
    /// The executable whose GPU preference is put back.
    pub exe_name: String,
    /// The GPU preference it had before the session; none means it had none
    /// and the value is removed.
    pub gpu_previous: Option<String>,
    /// The services started again: those that were running.
    pub start_services: Vec<String>,
    /// The programs started again.
    pub relaunch: Vec<KilledProcessRecord>,
}

/// The services running before the session, in the order recorded.
pub open spec fn restarted_services(table: Seq<(Seq<char>, bool)>) -> Seq<Seq<char>> {
    table.filter(|e: (Seq<char>, bool)| e.1).map_values(|e: (Seq<char>, bool)| e.0)
}

/// The closed programs that are started again: those marked for relaunch,
/// in the order closed.
pub open spec fn to_relaunch(k: Seq<KilledProcessRecord>) -> Seq<KilledProcessRecord> {
    k.filter(|r: KilledProcessRecord| r.should_relaunch)
}

/// Every service the restore starts again is one the table records.
proof fn lemma_restarted_recorded(table: Seq<(Seq<char>, bool)>, n: Seq<char>)
    requires
        restarted_services(table).contains(n),
    ensures
        exists|k: int| 0 <= k < table.len() && #[trigger] table[k].0 == n,
    decreases table.len(),
{
    let pred = |e: (Seq<char>, bool)| e.1;
    let last = table.last();
    let rest = table.drop_last();
    assert(table == rest.push(last));
    rest.lemma_filter_push(last, pred);
    let r = restarted_services(rest);
    if pred(last) && n == last.0 {
        assert(table[table.len() - 1].0 == n);
    } else {
        if pred(last) {
            assert(restarted_services(table) =~= r.push(last.0));
            let j = choose|j: int| 0 <= j < restarted_services(table).len() && restarted_services(table)[j] == n;
            assert(j < r.len());
            assert(r[j] == n);
        } else {
            assert(restarted_services(table) =~= r);
        }
        lemma_restarted_recorded(rest, n);
        let k = choose|k: int| 0 <= k < rest.len() && #[trigger] rest[k].0 == n;
        assert(table[k] == rest[k]);
    }
}

/// With unique names in the table, the restore starts no service twice.
pub proof fn lemma_restarted_unique(table: Seq<(Seq<char>, bool)>)
    requires
        unique_names(table),
    ensures
        restarted_services(table).no_duplicates(),
    decreases table.len(),
{
    let pred = |e: (Seq<char>, bool)| e.1;
    if table.len() == 0 {
        assert(table.filter(pred) =~= Seq::<(Seq<char>, bool)>::empty()) by {
            reveal(Seq::filter);
        }
        assert(restarted_services(table) =~= Seq::<Seq<char>>::empty());
    } else {
        let last = table.last();
        let rest = table.drop_last();
        assert(table == rest.push(last));
        assert(unique_names(rest)) by {
            assert forall|i: int, j: int| 0 <= i < j < rest.len() implies #[trigger] rest[i].0 != #[trigger] rest[j].0 by {
                assert(rest[i] == table[i] && rest[j] == table[j]);
            }
        }
        lemma_restarted_unique(rest);
        rest.lemma_filter_push(last, pred);
        let r = restarted_services(rest);
        if pred(last) {
            assert(restarted_services(table) =~= r.push(last.0));
            if r.contains(last.0) {
                lemma_restarted_recorded(rest, last.0);
                let k = choose|k: int| 0 <= k < rest.len() && #[trigger] rest[k].0 == last.0;
                assert(table[k].0 == table[table.len() - 1].0);
            }
            assert forall|i: int, j: int| 0 <= i < restarted_services(table).len() && 0 <= j < restarted_services(table).len() && i != j
                implies restarted_services(table)[i] != restarted_services(table)[j] by {
                if i < r.len() && j < r.len() {
                } else if i == r.len() {
                    assert(r[j] == restarted_services(table)[j]);
                } else {
                    assert(r[i] == restarted_services(table)[i]);
                }
            }
        } else {
            assert(restarted_services(table) =~= r);
        }
    }
}

impl Optimizer {
    /// The restore of the system recorded in `snapshot`, for the game of
    /// `profile`.
    pub fn restore_plan(snapshot: &SystemSnapshot, profile: &Profile) -> (plan: RestorePlan)
        ensures
            plan.exe_name@ == file_name(profile.executable_path@),
            opt_view(plan.gpu_previous) == snapshot@.gpu_preference_before,
            views(plan.start_services@) == restarted_services(snapshot@.services),
            plan.relaunch@ == to_relaunch(snapshot.killed_processes@),
            snapshot@.wf() ==> views(plan.start_services@).no_duplicates(),
    {
        proof {
            if snapshot@.wf() {
                lemma_restarted_unique(snapshot@.services);
            }
        }
        let ghost m = snapshot@.services;
        let ghost spred = |e: (Seq<char>, bool)| e.1;
        let mut start: Vec<String> = Vec::new();
        let mut i: usize = 0;
        while i < snapshot.services.len()
            invariant
                m == table_view(snapshot.services@),
                i <= m.len(),
                spred == (|e: (Seq<char>, bool)| e.1),
                views(start@) == m.take(i as int).filter(spred).map_values(|e: (Seq<char>, bool)| e.0),
            decreases m.len() - i,
        {
            proof {
                m.take(i as int).lemma_filter_push(m[i as int], spred);
                assert(m.take(i as int).push(m[i as int]) =~= m.take(i + 1));
            }
            if snapshot.services[i].1 {
                let ghost prev = start@;
                start.push(snapshot.services[i].0.clone());
                assert(views(start@) =~= views(prev).push(m[i as int].0));
            }
            assert(views(start@) =~= m.take(i + 1).filter(spred).map_values(|e: (Seq<char>, bool)| e.0));
            i = i + 1;
        }
        assert(m.take(m.len() as int) =~= m);

        let ghost k = snapshot.killed_processes@;
        let ghost rpred = |r: KilledProcessRecord| r.should_relaunch;
        let mut relaunch: Vec<KilledProcessRecord> = Vec::new();
        let mut j: usize = 0;
        while j < snapshot.killed_processes.len()
            invariant
                k == snapshot.killed_processes@,
                j <= k.len(),
                rpred == (|r: KilledProcessRecord| r.should_relaunch),
                relaunch@ == k.take(j as int).filter(rpred),
            decreases k.len() - j,
        {
            proof {
                k.take(j as int).lemma_filter_push(k[j as int], rpred);
                assert(k.take(j as int).push(k[j as int]) =~= k.take(j + 1));
            }
            let r = &snapshot.killed_processes[j];
            if r.should_relaunch {
                relaunch.push(r.clone());
            }
            j = j + 1;
        }
        assert(k.take(k.len() as int) =~= k);

        RestorePlan {
            exe_name: exe_file_name(profile.executable_path.as_str()),
            gpu_previous: clone_opt_string(&snapshot.gpu_preference_before),
            start_services: start,
            relaunch,
        }
    }
}

/// The restore undoes the stop step: every service the launch stops is one
/// the restore starts again, and no protected service is ever stopped.
pub proof fn lemma_stopped_services_restarted(
    services: Seq<ServiceAction>,
    table: Seq<(Seq<char>, bool)>,
    i: int,
)
    requires
        0 <= i < stop_plan(services, table).len(),
        stop_plan(services, table)[i].0 == ServiceStopKind::Stop,
    ensures
        restarted_services(table).contains(stop_plan(services, table)[i].1),
        !listed(protected_services(), stop_plan(services, table)[i].1),
{
    let n = stop_plan(services, table)[i].1;
    lemma_find_name(table, n);
    let j = find_name(table, n)->0;
    let pred = |e: (Seq<char>, bool)| e.1;
    assert(pred(table[j]));
    table.lemma_filter_contains(pred, j);
    let f = table.filter(pred);
    assert(f.contains(table[j]));
    let k = choose|k: int| 0 <= k < f.len() && f[k] == table[j];
    let g = f.map_values(|e: (Seq<char>, bool)| e.0);
    assert(g[k] == n);
    assert(g.contains(n));
}

} // verus!
