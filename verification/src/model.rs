//! The data of the optimizer: profiles and what they ask for, the snapshot
//! of the system taken before a session, the session itself and the
//! application settings.
use crate::text::owned;
use crate::time::Timestamp;
use vstd::prelude::*;

verus! {

broadcast use vstd::string::group_string_axioms;

/// `uuid::Uuid`, the identity of a profile.
#[verifier::external_type_specification]
#[verifier::external_body]
pub struct ExUuid(uuid::Uuid);

/// A fresh random (version 4) profile identity, from `uuid::Uuid::new_v4`.
/// It is random, so nothing is stated of it.
#[verifier::external_body]
pub(crate) fn new_profile_id() -> uuid::Uuid {
    uuid::Uuid::new_v4()
}

/// Scheduling priority class asked for the game process.
#[derive(Clone, Copy, Debug, PartialEq, Eq, Structural)]
pub enum ProcessPriority {
    Idle,
    BelowNormal,
    Normal,
    AboveNormal,
    High,
    Realtime,
}

impl Default for ProcessPriority {
    fn default() -> (p: ProcessPriority)
        ensures
            p == ProcessPriority::High,
    {
        ProcessPriority::High
    }
}

impl ProcessPriority {
    /// The text shown for the priority.
    pub open spec fn spec_label(self) -> Seq<char> {
        match self {
            ProcessPriority::Idle => "Idle"@,
            ProcessPriority::BelowNormal => "Below Normal"@,
            ProcessPriority::Normal => "Normal"@,
            ProcessPriority::AboveNormal => "Above Normal"@,
            ProcessPriority::High => "High"@,
            ProcessPriority::Realtime => "Realtime (DANGEROUS)"@,
        }
    }

    /// The text shown for the priority (its `Display`).
    pub fn label(&self) -> (s: String)
        ensures
            s@ == self.spec_label(),
    {
        match self {
            ProcessPriority::Idle => owned("Idle"),
            ProcessPriority::BelowNormal => owned("Below Normal"),
            ProcessPriority::Normal => owned("Normal"),
            ProcessPriority::AboveNormal => owned("Above Normal"),
            ProcessPriority::High => owned("High"),
            ProcessPriority::Realtime => owned("Realtime (DANGEROUS)"),
        }
    }
}

/// CPU cores the game may run on; no mask leaves affinity unchanged.
#[derive(Debug)]
pub struct CpuAffinity {
    pub mask: Option<u64>,
    pub description: String,
}

impl Default for CpuAffinity {
    fn default() -> (a: CpuAffinity)
        ensures
            a.mask is None,
            a.description@ == Seq::<char>::empty(),
    {
        CpuAffinity { mask: None, description: String::new() }
    }
}

impl Clone for CpuAffinity {
    fn clone(&self) -> (r: CpuAffinity)
        ensures
            r == *self,
    {
        CpuAffinity { mask: self.mask, description: self.description.clone() }
    }
}

/// Which GPU the game should run on.
#[derive(Clone, Copy, Debug, PartialEq, Eq, Structural)]
pub enum GpuPreference {
    Default,
    PowerSaving,
    HighPerformance,
}

impl Default for GpuPreference {
    fn default() -> (g: GpuPreference)
        ensures
            g == GpuPreference::HighPerformance,
    {
        GpuPreference::HighPerformance
    }
}

impl GpuPreference {
    /// The text shown for the preference.
    pub open spec fn spec_label(self) -> Seq<char> {
        match self {
            GpuPreference::Default => "Default"@,
            GpuPreference::PowerSaving => "Power Saving"@,
            GpuPreference::HighPerformance => "High Performance"@,
        }
    }

    /// The text shown for the preference (its `Display`).
    pub fn label(&self) -> (s: String)
        ensures
            s@ == self.spec_label(),
    {
        match self {
            GpuPreference::Default => owned("Default"),
            GpuPreference::PowerSaving => owned("Power Saving"),
            GpuPreference::HighPerformance => owned("High Performance"),
        }
    }
}

/// A Windows service that a profile stops for the session.
#[derive(Debug)]
pub struct ServiceAction {
    pub service_name: String,
    pub display_name: String,
    pub stop_on_launch: bool,
    pub was_running: Option<bool>,
}

impl Clone for ServiceAction {
    fn clone(&self) -> (r: ServiceAction)
        ensures
            r == *self,
    {
        ServiceAction {
            service_name: self.service_name.clone(),
            display_name: self.display_name.clone(),
            stop_on_launch: self.stop_on_launch,
            was_running: self.was_running,
        }
    }
}

impl ServiceAction {
    /// The entry the profile editor adds for a service typed by the user:
    /// shown under its own name and stopped on launch.
    pub fn stop_on_launch_named(name: &str) -> (a: ServiceAction)
        ensures
            a.service_name@ == name@,
            a.display_name@ == name@,
            a.stop_on_launch,
            a.was_running is None,
    {
        ServiceAction {
            service_name: owned(name),
            display_name: owned(name),
            stop_on_launch: true,
            was_running: None,
        }
    }
}

/// `Option<String>` copied.
pub fn clone_opt_string(o: &Option<String>) -> (r: Option<String>)
    ensures
        r == *o,
{
    match o {
        Some(s) => Some(s.clone()),
        None => None,
    }
}

/// A background program that a profile closes for the session.
#[derive(Debug)]
pub struct ProcessAction {
    pub exe_name: String,
    pub display_name: String,
    pub kill_on_launch: bool,
    pub is_ignored: bool,
    pub relaunch_after: bool,
    pub captured_cmdline: Option<String>,
    pub captured_working_dir: Option<String>,
}

impl Clone for ProcessAction {
    fn clone(&self) -> (r: ProcessAction)
        ensures
            r == *self,
    {
        ProcessAction {
            exe_name: self.exe_name.clone(),
            display_name: self.display_name.clone(),
            kill_on_launch: self.kill_on_launch,
            is_ignored: self.is_ignored,
            relaunch_after: self.relaunch_after,
            captured_cmdline: clone_opt_string(&self.captured_cmdline),
            captured_working_dir: clone_opt_string(&self.captured_working_dir),
        }
    }
}

impl ProcessAction {
    /// The entry the profile editor adds for a program typed by the user:
    /// closed on launch, not ignored, not relaunched.
    pub fn kill_on_launch_named(exe: &str) -> (a: ProcessAction)
        ensures
            a.exe_name@ == exe@,
            a.display_name@ == exe@,
            a.kill_on_launch,
            !a.is_ignored,
            !a.relaunch_after,
            a.captured_cmdline is None,
            a.captured_working_dir is None,
    {
        ProcessAction {
            exe_name: owned(exe),
            display_name: owned(exe),
            kill_on_launch: true,
            is_ignored: false,
            relaunch_after: false,
            captured_cmdline: None,
            captured_working_dir: None,
        }
    }
}

/// A scheduled task that a profile disables for the session.
#[derive(Debug)]
pub struct ScheduledTaskAction {
    pub task_path: String,
    pub display_name: String,
    pub disable_on_launch: bool,
    pub was_enabled: Option<bool>,
}

impl Clone for ScheduledTaskAction {
    fn clone(&self) -> (r: ScheduledTaskAction)
        ensures
            r == *self,
    {
        ScheduledTaskAction {
            task_path: self.task_path.clone(),
            display_name: self.display_name.clone(),
            disable_on_launch: self.disable_on_launch,
            was_enabled: self.was_enabled,
        }
    }
}

/// Working-set options for the game and for the other processes.
#[derive(Clone, Copy, Debug)]
pub struct MemoryOptimization {
    pub trim_other_processes: bool,
    pub target_min_working_set_bytes: Option<u64>,
}

impl Default for MemoryOptimization {
    fn default() -> (m: MemoryOptimization)
        ensures
            !m.trim_other_processes,
            m.target_min_working_set_bytes is None,
    {
        MemoryOptimization { trim_other_processes: false, target_min_working_set_bytes: None }
    }
}

/// The value a missing boolean setting takes.
pub fn default_true() -> (b: bool)
    ensures
        b,
{
    true
}

/// Milliseconds waited after stopping services, when not configured.
pub fn default_after_services() -> (ms: u64)
    ensures
        ms == 1000,
{
    1000
}

/// Milliseconds waited after closing programs, when not configured.
pub fn default_after_processes() -> (ms: u64)
    ensures
        ms == 500,
{
    500
}

/// Milliseconds waited after launching the game, when not configured.
pub fn default_after_launch() -> (ms: u64)
    ensures
        ms == 3000,
{
    3000
}

/// Seconds to wait for a successor process (launcher to game), when not
/// configured.
pub fn default_relaunch_grace_secs() -> (s: u64)
    ensures
        s == 30,
{
    30
}

/// The waits between the phases of a launch.
#[derive(Clone, Copy, Debug)]
pub struct DelayConfig {
    pub after_services_ms: u64,
    pub after_processes_ms: u64,
    pub after_launch_ms: u64,
    /// Seconds to wait after the launched process exits before looking for
    /// a re-launched successor with the same executable name.
    pub relaunch_grace_secs: u64,
}

impl Default for DelayConfig {
    fn default() -> (d: DelayConfig)
        ensures
            d.after_services_ms == 1000,
            d.after_processes_ms == 500,
            d.after_launch_ms == 3000,
            d.relaunch_grace_secs == 30,
    {
        DelayConfig {
            after_services_ms: default_after_services(),
            after_processes_ms: default_after_processes(),
            after_launch_ms: default_after_launch(),
            relaunch_grace_secs: default_relaunch_grace_secs(),
        }
    }
}

/// Everything the optimizer does for one game.
#[derive(Debug)]
pub struct Profile {
    pub id: uuid::Uuid,
    pub name: String,
    pub friendly_name: String,
    pub executable_path: String,
    pub launch_args: Option<String>,
    pub working_directory: Option<String>,
    pub services: Vec<ServiceAction>,
    pub processes: Vec<ProcessAction>,
    pub scheduled_tasks: Vec<ScheduledTaskAction>,
    pub process_priority: ProcessPriority,
    pub cpu_affinity: CpuAffinity,
    pub gpu_preference: GpuPreference,
    pub memory_optimization: MemoryOptimization,
    pub delays: DelayConfig,
    pub notes: String,
    pub created_at: Timestamp,
    pub updated_at: Timestamp,
    pub icon_path: Option<String>,
}

/// `Vec<T>` copied element by element.
pub fn clone_vec<T: Clone>(v: &Vec<T>) -> (r: Vec<T>)
    requires
        forall|a: T, b: T| #[trigger] cloned::<T>(a, b) ==> a == b,
    ensures
        r@ == v@,
{
    let r = v.clone();
    assert(r@ =~= v@);
    r
}

impl Profile {
    /// Two profiles agree on every setting; identity and times aside.
    pub open spec fn same_settings(self, other: Profile) -> bool {
        &&& self.name == other.name
        &&& self.friendly_name == other.friendly_name
        &&& self.executable_path == other.executable_path
        &&& self.launch_args == other.launch_args
        &&& self.working_directory == other.working_directory
        &&& self.services@ == other.services@
        &&& self.processes@ == other.processes@
        &&& self.scheduled_tasks@ == other.scheduled_tasks@
        &&& self.process_priority == other.process_priority
        &&& self.cpu_affinity == other.cpu_affinity
        &&& self.gpu_preference == other.gpu_preference
        &&& self.memory_optimization == other.memory_optimization
        &&& self.delays == other.delays
        &&& self.notes == other.notes
        &&& self.icon_path == other.icon_path
    }

    /// A copy of this profile: same settings, identity and times.
    pub fn copied(&self) -> (p: Profile)
        ensures
            p.same_settings(*self),
            p.id == self.id,
            p.created_at == self.created_at,
            p.updated_at == self.updated_at,
    {
        Profile {
            id: self.id,
            name: self.name.clone(),
            friendly_name: self.friendly_name.clone(),
            executable_path: self.executable_path.clone(),
            launch_args: clone_opt_string(&self.launch_args),
            working_directory: clone_opt_string(&self.working_directory),
            services: clone_vec(&self.services),
            processes: clone_vec(&self.processes),
            scheduled_tasks: clone_vec(&self.scheduled_tasks),
            process_priority: self.process_priority,
            cpu_affinity: self.cpu_affinity.clone(),
            gpu_preference: self.gpu_preference,
            memory_optimization: self.memory_optimization,
            delays: self.delays,
            notes: self.notes.clone(),
            created_at: self.created_at,
            updated_at: self.updated_at,
            icon_path: clone_opt_string(&self.icon_path),
        }
    }

    /// Whether the profile holds the settings of a new profile: empty names
    /// and lists, High priority, high-performance GPU, default waits.
    pub open spec fn has_default_settings(self) -> bool {
        &&& self.friendly_name@ == Seq::<char>::empty()
        &&& self.has_default_settings_but_friendly_name()
    }

    /// Whether the profile holds the settings of a new profile, its friendly
    /// name aside.
    pub open spec fn has_default_settings_but_friendly_name(self) -> bool {
        &&& self.name@ == Seq::<char>::empty()
        &&& self.executable_path@ == Seq::<char>::empty()
        &&& self.launch_args is None
        &&& self.working_directory is None
        &&& self.services@.len() == 0
        &&& self.processes@.len() == 0
        &&& self.scheduled_tasks@.len() == 0
        &&& self.process_priority == ProcessPriority::High
        &&& self.cpu_affinity.mask is None
        &&& self.cpu_affinity.description@ == Seq::<char>::empty()
        &&& self.gpu_preference == GpuPreference::HighPerformance
        &&& !self.memory_optimization.trim_other_processes
        &&& self.memory_optimization.target_min_working_set_bytes is None
        &&& self.delays.after_services_ms == 1000
        &&& self.delays.after_processes_ms == 500
        &&& self.delays.after_launch_ms == 3000
        &&& self.delays.relaunch_grace_secs == 30
        &&& self.notes@ == Seq::<char>::empty()
        &&& self.icon_path is None
    }
}

impl Default for Profile {
    /// A new profile with a fresh random identity, stamped with the current
    /// time.
    fn default() -> (p: Profile)
        ensures
            p.has_default_settings(),
    {
        Profile {
            id: new_profile_id(),
            name: String::new(),
            friendly_name: String::new(),
            executable_path: String::new(),
            launch_args: None,
            working_directory: None,
            services: Vec::new(),
            processes: Vec::new(),
            scheduled_tasks: Vec::new(),
            process_priority: ProcessPriority::High,
            cpu_affinity: CpuAffinity::default(),
            gpu_preference: GpuPreference::HighPerformance,
            memory_optimization: MemoryOptimization::default(),
            delays: DelayConfig::default(),
            notes: String::new(),
            created_at: crate::time::now(),
            updated_at: crate::time::now(),
            icon_path: None,
        }
    }
}

/// Where a session stands.
#[derive(Clone, Copy, Debug, PartialEq, Eq, Structural)]
pub enum SessionPhase {
    Idle,
    PreLaunch,
    Running,
    Restoring,
    Completed,
    Failed,
    Interrupted,
}

impl Default for SessionPhase {
    fn default() -> (p: SessionPhase)
        ensures
            p == SessionPhase::Idle,
    {
        SessionPhase::Idle
    }
}

impl SessionPhase {
    /// The text shown for the phase.
    pub open spec fn spec_label(self) -> Seq<char> {
        match self {
            SessionPhase::Idle => "Idle"@,
            SessionPhase::PreLaunch => "Pre-Launch"@,
            SessionPhase::Running => "Running"@,
            SessionPhase::Restoring => "Restoring"@,
            SessionPhase::Completed => "Completed"@,
            SessionPhase::Failed => "Failed"@,
            SessionPhase::Interrupted => "Interrupted"@,
        }
    }

    /// The text shown for the phase (its `Display`).
    pub fn label(&self) -> (s: String)
        ensures
            s@ == self.spec_label(),
    {
        match self {
            SessionPhase::Idle => owned("Idle"),
            SessionPhase::PreLaunch => owned("Pre-Launch"),
            SessionPhase::Running => owned("Running"),
            SessionPhase::Restoring => owned("Restoring"),
            SessionPhase::Completed => owned("Completed"),
            SessionPhase::Failed => owned("Failed"),
            SessionPhase::Interrupted => owned("Interrupted"),
        }
    }

    /// A session in these phases has changed the system and not yet put it
    /// back: it is under way, and one found at start-up was interrupted.
    pub open spec fn spec_is_active(self) -> bool {
        ||| self == SessionPhase::PreLaunch
        ||| self == SessionPhase::Running
        ||| self == SessionPhase::Restoring
    }

    /// Whether a session in this phase is under way.
    pub fn is_active(&self) -> (b: bool)
        ensures
            b == self.spec_is_active(),
    {
        match self {
            SessionPhase::PreLaunch | SessionPhase::Running | SessionPhase::Restoring => true,
            _ => false,
        }
    }

    /// The order in which a launch goes through the phases.
    pub open spec fn rank(self) -> int {
        match self {
            SessionPhase::Idle => 0,
            SessionPhase::PreLaunch => 1,
            SessionPhase::Running => 2,
            SessionPhase::Restoring => 3,
            SessionPhase::Completed => 4,
            SessionPhase::Failed => 4,
            SessionPhase::Interrupted => 4,
        }
    }
}

/// A program closed for the session, kept so that it can be started again.
#[derive(Debug)]
pub struct KilledProcessRecord {
    pub exe_name: String,
    pub pid: u32,
    pub cmdline: Option<String>,
    pub working_dir: Option<String>,
    pub should_relaunch: bool,
}

impl Clone for KilledProcessRecord {
    fn clone(&self) -> (r: KilledProcessRecord)
        ensures
            r == *self,
    {
        KilledProcessRecord {
            exe_name: self.exe_name.clone(),
            pid: self.pid,
            cmdline: clone_opt_string(&self.cmdline),
            working_dir: clone_opt_string(&self.working_dir),
            should_relaunch: self.should_relaunch,
        }
    }
}

/// The state of the system before a session changed it: which services ran,
/// which programs were closed, and the GPU preference the game had.
/// `services` and `scheduled_tasks` map a name to whether it was running
/// (enabled); each name occurs at most once.
#[derive(Debug)]
pub struct SystemSnapshot {
    pub captured_at: Timestamp,
    pub services: Vec<(String, bool)>,
    pub scheduled_tasks: Vec<(String, bool)>,
    pub killed_processes: Vec<KilledProcessRecord>,
    pub gpu_preference_before: Option<String>,
}

impl Default for SystemSnapshot {
    fn default() -> (s: SystemSnapshot)
        ensures
            s@ == SystemSnapshot::default_view(),
    {
        let s = SystemSnapshot {
            captured_at: Timestamp::unix_epoch(),
            services: Vec::new(),
            scheduled_tasks: Vec::new(),
            killed_processes: Vec::new(),
            gpu_preference_before: None,
        };
        assert(s@.services =~= Seq::<(Seq<char>, bool)>::empty());
        assert(s@.scheduled_tasks =~= Seq::<(Seq<char>, bool)>::empty());
        assert(s@.killed_processes =~= Seq::<KilledProcessRecord>::empty());
        s
    }
}

impl SystemSnapshot {
    /// The empty snapshot, taken at the Unix epoch.
    pub open spec fn default_view() -> SnapshotView {
        SnapshotView {
            captured_at: Timestamp { secs: 0, nanos: 0 },
            services: Seq::empty(),
            scheduled_tasks: Seq::empty(),
            killed_processes: Seq::empty(),
            gpu_preference_before: None,
        }
    }
}

/// The text of an optional string.
pub open spec fn opt_view(o: Option<String>) -> Option<Seq<char>> {
    match o {
        Some(s) => Some(s@),
        None => None,
    }
}

/// A name-to-flag table as text.
pub open spec fn table_view(m: Seq<(String, bool)>) -> Seq<(Seq<char>, bool)> {
    m.map_values(|e: (String, bool)| (e.0@, e.1))
}

/// Where `name` stands in the table, if it is there.
pub open spec fn find_name(m: Seq<(Seq<char>, bool)>, name: Seq<char>) -> Option<int>
    decreases m.len(),
{
    if m.len() == 0 {
        None
    } else if m.last().0 == name {
        Some(m.len() - 1)
    } else {
        find_name(m.drop_last(), name)
    }
}

/// The flag recorded for `name`, if any.
pub open spec fn lookup(m: Seq<(Seq<char>, bool)>, name: Seq<char>) -> Option<bool> {
    match find_name(m, name) {
        Some(i) => Some(m[i].1),
        None => None,
    }
}

/// `m` with `name` mapped to `flag`: an existing entry is updated in place,
/// a new one is appended (`HashMap::insert`).
pub open spec fn table_insert(m: Seq<(Seq<char>, bool)>, name: Seq<char>, flag: bool) -> Seq<(Seq<char>, bool)> {
    match find_name(m, name) {
        Some(i) => m.update(i, (name, flag)),
        None => m.push((name, flag)),
    }
}

/// No name occurs twice in `m`, as in the keys of a map.
pub open spec fn unique_names(m: Seq<(Seq<char>, bool)>) -> bool {
    forall|i: int, j: int| 0 <= i < j < m.len() ==> #[trigger] m[i].0 != #[trigger] m[j].0
}

/// Where `find_name` points, the name is; where it finds nothing, the name
/// is nowhere.
pub proof fn lemma_find_name(m: Seq<(Seq<char>, bool)>, name: Seq<char>)
    ensures
        find_name(m, name) matches Some(i) ==> 0 <= i < m.len() && m[i].0 == name,
        find_name(m, name) is None ==> forall|k: int| 0 <= k < m.len() ==> #[trigger] m[k].0 != name,
    decreases m.len(),
{
    if m.len() > 0 && m.last().0 != name {
        lemma_find_name(m.drop_last(), name);
        if find_name(m, name) is None {
            assert forall|k: int| 0 <= k < m.len() implies #[trigger] m[k].0 != name by {
                if k < m.len() - 1 {
                    assert(m.drop_last()[k] == m[k]);
                }
            }
        }
    }
}

/// Recording a flag keeps the names unique.
pub proof fn lemma_insert_keeps_unique(m: Seq<(Seq<char>, bool)>, name: Seq<char>, flag: bool)
    requires
        unique_names(m),
    ensures
        unique_names(table_insert(m, name, flag)),
{
    lemma_find_name(m, name);
    let r = table_insert(m, name, flag);
    assert forall|i: int, j: int| 0 <= i < j < r.len() implies #[trigger] r[i].0 != #[trigger] r[j].0 by {
        match find_name(m, name) {
            Some(k) => {
                if i != k && j != k {
                    assert(r[i] == m[i] && r[j] == m[j]);
                } else if i == k {
                    assert(r[j] == m[j]);
                    assert(m[k].0 != m[j].0);
                } else {
                    assert(r[i] == m[i]);
                    assert(m[i].0 != m[k].0);
                }
            },
            None => {
                if j == m.len() {
                    assert(r[i] == m[i]);
                } else {
                    assert(r[i] == m[i] && r[j] == m[j]);
                }
            },
        }
    }
}

/// A system snapshot as plain values.
pub ghost struct SnapshotView {
    pub captured_at: Timestamp,
    pub services: Seq<(Seq<char>, bool)>,
    pub scheduled_tasks: Seq<(Seq<char>, bool)>,
    pub killed_processes: Seq<KilledProcessRecord>,
    pub gpu_preference_before: Option<Seq<char>>,
}

impl SnapshotView {
    /// What holds of every snapshot: no service and no scheduled task is
    /// recorded twice (each table maps names to flags).
    pub open spec fn wf(self) -> bool {
        unique_names(self.services) && unique_names(self.scheduled_tasks)
    }
}

impl View for SystemSnapshot {
    type V = SnapshotView;

    open spec fn view(&self) -> SnapshotView {
        SnapshotView {
            captured_at: self.captured_at,
            services: table_view(self.services@),
            scheduled_tasks: table_view(self.scheduled_tasks@),
            killed_processes: self.killed_processes@,
            gpu_preference_before: opt_view(self.gpu_preference_before),
        }
    }
}

/// A copy of a name-to-flag table.
pub fn copy_table(m: &Vec<(String, bool)>) -> (r: Vec<(String, bool)>)
    ensures
        table_view(r@) == table_view(m@),
{
    let mut r: Vec<(String, bool)> = Vec::new();
    let mut i: usize = 0;
    while i < m.len()
        invariant
            i <= m@.len(),
            table_view(r@) == table_view(m@.take(i as int)),
        decreases m@.len() - i,
    {
        let name = m[i].0.clone();
        let e = (name, m[i].1);
        assert(e.0@ == m@[i as int].0@ && e.1 == m@[i as int].1);
        let ghost prev = r@;
        r.push(e);
        assert(table_view(r@) =~= table_view(prev).push((e.0@, e.1)));
        assert(table_view(m@.take(i + 1)) =~= table_view(m@.take(i as int)).push((m@[i as int].0@, m@[i as int].1)));
        i = i + 1;
    }
    assert(m@.take(m@.len() as int) =~= m@);
    r
}

impl SystemSnapshot {
    /// A copy of the snapshot.
    pub fn copy(&self) -> (r: SystemSnapshot)
        ensures
            r@ == self@,
    {
        SystemSnapshot {
            captured_at: self.captured_at,
            services: copy_table(&self.services),
            scheduled_tasks: copy_table(&self.scheduled_tasks),
            killed_processes: clone_vec(&self.killed_processes),
            gpu_preference_before: clone_opt_string(&self.gpu_preference_before),
        }
    }
}

/// A log line kept with a session.
#[derive(Debug)]
pub struct SessionLogEntry {
    pub timestamp: Timestamp,
    pub level: String,
    pub message: String,
}

impl Clone for SessionLogEntry {
    fn clone(&self) -> (r: SessionLogEntry)
        ensures
            r == *self,
    {
        SessionLogEntry {
            timestamp: self.timestamp,
            level: self.level.clone(),
            message: self.message.clone(),
        }
    }
}

/// What is known of the current (or last) session; it is persisted so that
/// an interrupted session can be restored at the next start.
#[derive(Debug)]
pub struct SessionState {
    pub profile_id: Option<uuid::Uuid>,
    pub profile_name: Option<String>,
    pub target_pid: Option<u32>,
    pub phase: SessionPhase,
    pub started_at: Option<Timestamp>,
    pub ended_at: Option<Timestamp>,
    pub pre_session_snapshot: Option<SystemSnapshot>,
    pub session_log: Vec<SessionLogEntry>,
}

/// A session as plain values.
pub ghost struct SessionView {
    pub profile_id: Option<uuid::Uuid>,
    pub profile_name: Option<Seq<char>>,
    pub target_pid: Option<u32>,
    pub phase: SessionPhase,
    pub started_at: Option<Timestamp>,
    pub ended_at: Option<Timestamp>,
    pub pre_session_snapshot: Option<SnapshotView>,
    pub session_log: Seq<SessionLogEntry>,
}

impl View for SessionState {
    type V = SessionView;

    open spec fn view(&self) -> SessionView {
        SessionView {
            profile_id: self.profile_id,
            profile_name: opt_view(self.profile_name),
            target_pid: self.target_pid,
            phase: self.phase,
            started_at: self.started_at,
            ended_at: self.ended_at,
            pre_session_snapshot: match self.pre_session_snapshot {
                Some(s) => Some(s@),
                None => None,
            },
            session_log: self.session_log@,
        }
    }
}

impl SessionState {
    /// A copy of the session.
    pub fn copy(&self) -> (r: SessionState)
        ensures
            r@ == self@,
    {
        SessionState {
            profile_id: self.profile_id,
            profile_name: clone_opt_string(&self.profile_name),
            target_pid: self.target_pid,
            phase: self.phase,
            started_at: self.started_at,
            ended_at: self.ended_at,
            pre_session_snapshot: match &self.pre_session_snapshot {
                Some(s) => Some(s.copy()),
                None => None,
            },
            session_log: clone_vec(&self.session_log),
        }
    }

    /// Whether the session is the empty one: no profile, no process, idle.
    pub open spec fn is_blank(self) -> bool {
        &&& self.profile_id is None
        &&& self.profile_name is None
        &&& self.target_pid is None
        &&& self.phase == SessionPhase::Idle
        &&& self.started_at is None
        &&& self.ended_at is None
        &&& self.pre_session_snapshot is None
        &&& self.session_log@.len() == 0
    }
}

impl Default for SessionState {
    fn default() -> (s: SessionState)
        ensures
            s.is_blank(),
    {
        SessionState {
            profile_id: None,
            profile_name: None,
            target_pid: None,
            phase: SessionPhase::Idle,
            started_at: None,
            ended_at: None,
            pre_session_snapshot: None,
            session_log: Vec::new(),
        }
    }
}

/// Directory of the profiles, when not configured.
pub fn default_profiles_dir() -> (s: String)
    ensures
        s@ == "profiles"@,
{
    owned("profiles")
}

/// Directory of the log files, when not configured.
pub fn default_logs_dir() -> (s: String)
    ensures
        s@ == "logs"@,
{
    owned("logs")
}

/// Application settings.
#[derive(Debug)]
pub struct AppConfig {
    pub profiles_dir: String,
    pub logs_dir: String,
    pub confirm_realtime_priority: bool,
    pub confirm_before_launch: bool,
}

impl Default for AppConfig {
    fn default() -> (c: AppConfig)
        ensures
            c.profiles_dir@ == "profiles"@,
            c.logs_dir@ == "logs"@,
            c.confirm_realtime_priority,
            c.confirm_before_launch,
    {
        AppConfig {
            profiles_dir: default_profiles_dir(),
            logs_dir: default_logs_dir(),
            confirm_realtime_priority: default_true(),
            confirm_before_launch: default_true(),
        }
    }
}

impl Clone for AppConfig {
    fn clone(&self) -> (r: AppConfig)
        ensures
            r == *self,
    {
        AppConfig {
            profiles_dir: self.profiles_dir.clone(),
            logs_dir: self.logs_dir.clone(),
            confirm_realtime_priority: self.confirm_realtime_priority,
            confirm_before_launch: self.confirm_before_launch,
        }
    }
}

} // verus!
