use vstd::prelude::*;
use vstd::string::{StrSliceExecFns, StringExecFns};
use crate::config::{Config, ServiceSpec, SpecConfig, SpecService};
use crate::probe::{ProcessRecord, SpecProcess, spec_is_running};

verus! {

/// Time units waited after launching a service, before the next service is
/// evaluated, so the fresh process can register itself in the process table.
pub const SETTLE_PAUSE_UNITS: u64 = 5;

/// Time units waited between poll cycles.
pub const CYCLE_PAUSE_UNITS: u64 = 10;

/// An ASCII letter, as in a drive prefix such as `C:`.
pub open spec fn spec_is_ascii_letter(c: char) -> bool {
    ('A' as u32 <= c as u32 && c as u32 <= 'Z' as u32)
        || ('a' as u32 <= c as u32 && c as u32 <= 'z' as u32)
}

/// A command beginning with a path separator, or with a drive-letter prefix
/// such as `C:`, is taken as absolute.
pub open spec fn spec_is_absolute(cmd: Seq<char>) -> bool {
    ||| cmd.len() > 0 && (cmd[0] == '/' || cmd[0] == '\\')
    ||| cmd.len() >= 2 && spec_is_ascii_letter(cmd[0]) && cmd[1] == ':'
}

/// An absolute command is used as it stands; a relative one is joined to the
/// installation root as `root/command`.
pub open spec fn spec_resolved_command(root: Seq<char>, cmd: Seq<char>) -> Seq<char> {
    if spec_is_absolute(cmd) {
        cmd
    } else {
        root + seq!['/'] + cmd
    }
}

/// Whether `c` is an ASCII letter.
fn is_ascii_letter(c: char) -> (r: bool)
    ensures
        r == spec_is_ascii_letter(c),
{
    let u = c as u32;
    ('A' as u32 <= u && u <= 'Z' as u32) || ('a' as u32 <= u && u <= 'z' as u32)
}

/// Resolves a service command against the installation root.
pub fn resolved_command(root: &str, cmd: &str) -> (r: String)
    ensures
        r@ == spec_resolved_command(root@, cmd@),
{
    let n = cmd.unicode_len();
    let absolute = if n == 0 {
        false
    } else {
        let c = cmd.get_char(0);
        if c == '/' || c == '\\' {
            true
        } else if n >= 2 && is_ascii_letter(c) {
            cmd.get_char(1) == ':'
        } else {
            false
        }
    };
    if absolute {
        String::from_str(cmd)
    } else {
        let mut s = String::from_str(root);
        s.append("/");
        s.append(cmd);
        proof {
            reveal_strlit("/");
            assert(("/")@ =~= seq!['/']);
            assert(s@ =~= root@ + seq!['/'] + cmd@);
        }
        s
    }
}

/// Everything the environment needs to start one service: the resolved
/// program path, the arguments in order, and the log file that both output
/// streams are redirected into (truncated on every start).
pub struct LaunchCommand {
    pub program: String,
    pub args: Vec<String>,
    pub log_file: String,
}

/// Mathematical image of a [`LaunchCommand`].
pub struct SpecLaunch {
    pub program: Seq<char>,
    pub args: Seq<Seq<char>>,
    pub log_file: Seq<char>,
}

impl View for LaunchCommand {
    type V = SpecLaunch;

    open spec fn view(&self) -> SpecLaunch {
        SpecLaunch {
            program: self.program@,
            args: self.args.deep_view(),
            log_file: self.log_file@,
        }
    }
}

impl DeepView for LaunchCommand {
    type V = SpecLaunch;

    open spec fn deep_view(&self) -> SpecLaunch {
        self.view()
    }
}

/// The launch command a service gets: its command resolved against the root,
/// its own arguments, its own log file.
pub open spec fn spec_launch_for(root: Seq<char>, svc: SpecService) -> SpecLaunch {
    SpecLaunch {
        program: spec_resolved_command(root, svc.command),
        args: svc.args,
        log_file: svc.log_file,
    }
}

/// Clones a vector of strings, keeping its (deep) contents.
fn clone_string_vec(v: &Vec<String>) -> (r: Vec<String>)
    ensures
        r.deep_view() == v.deep_view(),
{
    let r = v.clone();
    proof {
        assert forall|i: int| 0 <= i < v@.len() implies r.deep_view()[i] == v.deep_view()[i] by {
            assert(vstd::pervasive::cloned(v@[i], r@[i]));
        }
        assert(r.deep_view() =~= v.deep_view());
    }
    r
}

/// Builds the launch command for one service.
pub fn build_launch(root: &str, svc: &ServiceSpec) -> (r: LaunchCommand)
    ensures
        r.deep_view() == spec_launch_for(root@, svc@),
{
    LaunchCommand {
        program: resolved_command(root, svc.command.as_str()),
        args: clone_string_vec(&svc.args),
        log_file: svc.log_file.clone(),
    }
}

/// What the environment reports back from one launch attempt. A failure is
/// logged and the service is simply retried on a later cycle.
pub enum LaunchOutcome {
    /// The child process was spawned.
    Started,
    /// The log file could not be created or truncated.
    LogFileUnavailable,
    /// The OS rejected the spawn (missing executable, permission denied, ...).
    SpawnFailed,
}

/// The decision one cycle takes for one service: either it was seen running
/// and is left alone, or it is launched and the settle pause observed before
/// the next service is evaluated.
pub struct ServiceDecision {
    pub name: String,
    pub running: bool,
    pub launch: Option<LaunchCommand>,
    pub settle_pause: u64,
}

/// Mathematical image of a [`ServiceDecision`].
pub struct SpecDecision {
    pub name: Seq<char>,
    pub running: bool,
    pub launch: Option<SpecLaunch>,
    pub settle_pause: u64,
}

impl DeepView for ServiceDecision {
    type V = SpecDecision;

    open spec fn deep_view(&self) -> SpecDecision {
        SpecDecision {
            name: self.name@,
            running: self.running,
            launch: self.launch.deep_view(),
            settle_pause: self.settle_pause,
        }
    }
}

/// The decision for one service is a function of the installation root, that
/// service, and the process-table snapshot alone.
pub open spec fn spec_decision_for(
    root: Seq<char>,
    svc: SpecService,
    table: Seq<SpecProcess>,
) -> SpecDecision {
    if spec_is_running(svc.name, table) {
        SpecDecision { name: svc.name, running: true, launch: None, settle_pause: 0 }
    } else {
        SpecDecision {
            name: svc.name,
            running: false,
            launch: Some(spec_launch_for(root, svc)),
            settle_pause: SETTLE_PAUSE_UNITS,
        }
    }
}

/// One poll cycle's decisions, one per configured service, in configured
/// order.
pub open spec fn spec_cycle_plan(cfg: SpecConfig, table: Seq<SpecProcess>) -> Seq<SpecDecision> {
    Seq::new(cfg.services.len(), |i: int| spec_decision_for(cfg.root, cfg.services[i], table))
}

/// Evaluates the liveness probe for one service and decides whether to launch
/// it: a service seen running is left alone; an absent one gets a launch
/// command and the settle pause.
pub fn decision_for(root: &str, svc: &ServiceSpec, table: &Vec<ProcessRecord>) -> (r: ServiceDecision)
    ensures
        r.deep_view() == spec_decision_for(root@, svc@, table.deep_view()),
{
    if svc.is_running(table) {
        ServiceDecision {
            name: svc.name.clone(),
            running: true,
            launch: None,
            settle_pause: 0,
        }
    } else {
        ServiceDecision {
            name: svc.name.clone(),
            running: false,
            launch: Some(build_launch(root, svc)),
            settle_pause: SETTLE_PAUSE_UNITS,
        }
    }
}

/// Plans one full poll cycle over a fixed snapshot: every configured service
/// is evaluated, in configured order, and each absent one gets exactly one
/// launch command.
pub fn plan_cycle(cfg: &Config, table: &Vec<ProcessRecord>) -> (r: Vec<ServiceDecision>)
    ensures
        r.deep_view() == spec_cycle_plan(cfg@, table.deep_view()),
{
    let n = cfg.services.len();
    let mut r: Vec<ServiceDecision> = Vec::new();
    let mut i: usize = 0;
    while i < n
        invariant
            n == cfg.services@.len(),
            i <= n,
            r@.len() == i,
            forall|m: int|
                0 <= m < i ==> r.deep_view()[m] == spec_cycle_plan(cfg@, table.deep_view())[m],
        decreases n - i,
    {
        let d = decision_for(cfg.root.as_str(), &cfg.services[i], table);
        proof {
            assert(cfg.services.deep_view()[i as int] == cfg.services@[i as int].deep_view());
            assert(d.deep_view() == spec_cycle_plan(cfg@, table.deep_view())[i as int]);
        }
        let ghost r0v = r@;
        let ghost r0d = r.deep_view();
        let ghost dg = d;
        r.push(d);
        proof {
            assert forall|m: int|
                0 <= m < i + 1 implies r.deep_view()[m] == spec_cycle_plan(
                cfg@,
                table.deep_view(),
            )[m] by {
                assert(r.deep_view()[m] == r@[m].deep_view());
                if m < i {
                    assert(r@[m] == r0v[m]);
                    assert(r0d[m] == r0v[m].deep_view());
                } else {
                    assert(r@[m] == dg);
                }
            }
        }
        i += 1;
    }
    proof {
        assert(r.deep_view() =~= spec_cycle_plan(cfg@, table.deep_view()));
    }
    r
}

/// One supervision cycle as a step machine: the environment asks for the next
/// decision, carries it out (spawning the process and observing the settle
/// pause where one is ordered), and reports the launch outcome back on the
/// next call. The outcome parameter is deliberately ignored: a failed launch
/// alters no later decision of the cycle.
pub struct CycleRun {
    pub pos: usize,
}

impl CycleRun {
    /// Begins a cycle at the first configured service.
    pub fn new() -> (r: CycleRun)
        ensures
            r.pos == 0,
    {
        CycleRun { pos: 0 }
    }

    /// Hands out the decision for the next service, or `None` when every
    /// configured service has been evaluated and only the inter-cycle pause
    /// remains. The ensures do not mention `_prev_outcome`: the next decision
    /// is the same whatever the previous launch attempt returned.
    pub fn next_decision(
        &mut self,
        cfg: &Config,
        table: &Vec<ProcessRecord>,
        _prev_outcome: Option<&LaunchOutcome>,
    ) -> (r: Option<ServiceDecision>)
        ensures
            old(self).pos < cfg@.services.len() ==> {
                &&& final(self).pos == old(self).pos + 1
                &&& r.deep_view() == Some(
                    spec_cycle_plan(cfg@, table.deep_view())[old(self).pos as int],
                )
            },
            old(self).pos >= cfg@.services.len() ==> {
                &&& final(self).pos == old(self).pos
                &&& r.deep_view() == None::<SpecDecision>
            },
    {
        if self.pos < cfg.services.len() {
            let d = decision_for(cfg.root.as_str(), &cfg.services[self.pos], table);
            proof {
                assert(cfg.services.deep_view()[self.pos as int]
                    == cfg.services@[self.pos as int].deep_view());
            }
            self.pos = self.pos + 1;
            Some(d)
        } else {
            None
        }
    }
}

/// With no configured service present in the snapshot, one full cycle issues
/// exactly one launch per service, in configured order, each followed by the
/// settle pause.
pub proof fn lemma_all_absent_all_launched(cfg: SpecConfig, table: Seq<SpecProcess>)
    requires
        forall|i: int|
            0 <= i < cfg.services.len() ==> !spec_is_running(#[trigger] cfg.services[i].name, table),
    ensures
        spec_cycle_plan(cfg, table).len() == cfg.services.len(),
        forall|i: int|
            0 <= i < cfg.services.len() ==> {
                let d = #[trigger] spec_cycle_plan(cfg, table)[i];
                &&& d.name == cfg.services[i].name
                &&& d.launch == Some(spec_launch_for(cfg.root, cfg.services[i]))
                &&& d.settle_pause == SETTLE_PAUSE_UNITS
            },
{
}

/// A service already present in the snapshot (matching both the name and the
/// argument-substring filter) gets no launch attempt in that cycle.
pub proof fn lemma_present_service_not_launched(cfg: SpecConfig, table: Seq<SpecProcess>, i: int)
    requires
        0 <= i < cfg.services.len(),
        spec_is_running(cfg.services[i].name, table),
    ensures
        spec_cycle_plan(cfg, table)[i].running,
        spec_cycle_plan(cfg, table)[i].launch is None,
{
}

/// Every decision of a cycle is a function of the installation root, that one
/// service and the shared snapshot alone: a launch failure at any earlier
/// service never aborts the cycle nor changes what is decided for the
/// services after it.
pub proof fn lemma_decisions_pointwise(cfg: SpecConfig, table: Seq<SpecProcess>, i: int)
    requires
        0 <= i < cfg.services.len(),
    ensures
        spec_cycle_plan(cfg, table)[i] == spec_decision_for(cfg.root, cfg.services[i], table),
{
}

} // verus!
