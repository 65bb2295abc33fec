use vstd::prelude::*;
use vstd::string::StringExecFns;
use crate::config::{Config, ServiceSpec, SpecConfig, SpecService};

verus! {

/// The platform the supervisor runs on. Name-based forced termination is
/// implemented only for Windows; everywhere else shutdown reports the attempt
/// as unsupported instead of failing.
#[derive(Clone, Copy)]
pub enum Platform {
    Windows,
    Other,
}

/// A forced kill-by-name request: the kill utility to run and its arguments.
pub struct KillCommand {
    pub program: String,
    pub args: Vec<String>,
}

/// Mathematical image of a [`KillCommand`].
pub struct SpecKill {
    pub program: Seq<char>,
    pub args: Seq<Seq<char>>,
}

impl View for KillCommand {
    type V = SpecKill;

    open spec fn view(&self) -> SpecKill {
        SpecKill { program: self.program@, args: self.args.deep_view() }
    }
}

impl DeepView for KillCommand {
    type V = SpecKill;

    open spec fn deep_view(&self) -> SpecKill {
        self.view()
    }
}

/// What shutdown does for one service: issue a forced kill, or report that
/// the platform offers no kill mechanism.
pub enum TerminationAction {
    Kill(KillCommand),
    ReportUnsupported,
}

/// Mathematical image of a [`TerminationAction`].
pub enum SpecTermination {
    Kill(SpecKill),
    ReportUnsupported,
}

impl DeepView for TerminationAction {
    type V = SpecTermination;

    open spec fn deep_view(&self) -> SpecTermination {
        match self {
            TerminationAction::Kill(k) => SpecTermination::Kill(k.deep_view()),
            TerminationAction::ReportUnsupported => SpecTermination::ReportUnsupported,
        }
    }
}

/// On Windows, the forced kill for a service: the task-kill utility, told to
/// terminate every process whose image matches the service's own command —
/// the installation root plays no part here. On any other platform, an
/// explicit unsupported report.
pub open spec fn spec_termination_for(svc: SpecService, platform: Platform) -> SpecTermination {
    match platform {
        Platform::Windows => SpecTermination::Kill(
            SpecKill { program: "taskkill"@, args: seq!["/IM"@, svc.command, "/F"@] },
        ),
        Platform::Other => SpecTermination::ReportUnsupported,
    }
}

/// Builds the termination action for one service.
pub fn termination_for(svc: &ServiceSpec, platform: Platform) -> (r: TerminationAction)
    ensures
        r.deep_view() == spec_termination_for(svc@, platform),
{
    match platform {
        Platform::Windows => {
            let mut args: Vec<String> = Vec::new();
            args.push(String::from_str("/IM"));
            args.push(svc.command.clone());
            args.push(String::from_str("/F"));
            proof {
                assert(args.deep_view() =~= seq!["/IM"@, svc@.command, "/F"@]);
            }
            TerminationAction::Kill(KillCommand { program: String::from_str("taskkill"), args })
        },
        Platform::Other => TerminationAction::ReportUnsupported,
    }
}

/// What the environment reports back from one termination attempt. Every
/// variant lets the shutdown sequence continue.
pub enum StopOutcome {
    /// The kill request ran and reported success.
    Stopped,
    /// The kill request ran but was rejected (no such process, access
    /// denied, ...).
    KillRejected,
    /// The kill utility itself could not be executed.
    ExecFailed,
    /// The platform offers no kill mechanism.
    Unsupported,
}

/// How a finished kill request is classified: it either could not be run at
/// all, ran and succeeded, or ran and was rejected.
pub open spec fn spec_classify_kill(exec_ok: bool, status_ok: bool) -> StopOutcome {
    if !exec_ok {
        StopOutcome::ExecFailed
    } else if status_ok {
        StopOutcome::Stopped
    } else {
        StopOutcome::KillRejected
    }
}

/// Classifies the result the environment observed for one kill request:
/// whether the kill utility could be executed, and whether its exit status
/// reported success.
pub fn classify_kill_result(exec_ok: bool, status_ok: bool) -> (r: StopOutcome)
    ensures
        r == spec_classify_kill(exec_ok, status_ok),
{
    if !exec_ok {
        StopOutcome::ExecFailed
    } else if status_ok {
        StopOutcome::Stopped
    } else {
        StopOutcome::KillRejected
    }
}

/// One step of the shutdown sequence: which service it is for, and what to do.
pub struct ShutdownStep {
    pub name: String,
    pub action: TerminationAction,
}

/// Mathematical image of a [`ShutdownStep`].
pub struct SpecShutdownStep {
    pub name: Seq<char>,
    pub action: SpecTermination,
}

impl DeepView for ShutdownStep {
    type V = SpecShutdownStep;

    open spec fn deep_view(&self) -> SpecShutdownStep {
        SpecShutdownStep { name: self.name@, action: self.action.deep_view() }
    }
}

/// The shutdown sequence: one termination per configured service, in
/// configured order. It is a function of the configuration and the platform
/// alone — whether a service is actually present plays no part.
pub open spec fn spec_shutdown_plan(cfg: SpecConfig, platform: Platform) -> Seq<SpecShutdownStep> {
    Seq::new(
        cfg.services.len(),
        |i: int| SpecShutdownStep {
            name: cfg.services[i].name,
            action: spec_termination_for(cfg.services[i], platform),
        },
    )
}

/// Builds the whole shutdown sequence: exactly one termination step per
/// configured service, in configured order, without consulting liveness.
pub fn shutdown_plan(cfg: &Config, platform: Platform) -> (r: Vec<ShutdownStep>)
    ensures
        r.deep_view() == spec_shutdown_plan(cfg@, platform),
{
    let n = cfg.services.len();
    let mut r: Vec<ShutdownStep> = Vec::new();
    let mut i: usize = 0;
    while i < n
        invariant
            n == cfg.services@.len(),
            i <= n,
            r@.len() == i,
            forall|m: int|
                0 <= m < i ==> r.deep_view()[m] == spec_shutdown_plan(cfg@, platform)[m],
        decreases n - i,
    {
        let svc = &cfg.services[i];
        let step = ShutdownStep {
            name: svc.name.clone(),
            action: termination_for(svc, platform),
        };
        proof {
            assert(cfg.services.deep_view()[i as int] == cfg.services@[i as int].deep_view());
            assert(step.deep_view() == spec_shutdown_plan(cfg@, platform)[i as int]);
        }
        let ghost r0v = r@;
        let ghost r0d = r.deep_view();
        let ghost stepg = step;
        r.push(step);
        proof {
            assert forall|m: int|
                0 <= m < i + 1 implies r.deep_view()[m] == spec_shutdown_plan(cfg@, platform)[m] by {
                assert(r.deep_view()[m] == r@[m].deep_view());
                if m < i {
                    assert(r@[m] == r0v[m]);
                    assert(r0d[m] == r0v[m].deep_view());
                } else {
                    assert(r@[m] == stepg);
                }
            }
        }
        i += 1;
    }
    proof {
        assert(r.deep_view() =~= spec_shutdown_plan(cfg@, platform));
    }
    r
}

/// The shutdown sequence as a step machine: the environment asks for the next
/// termination, carries it out, and reports the outcome back on the next
/// call. The ensures do not mention `_prev_outcome`: a rejected kill (for
/// instance on a service that was already absent), a kill utility that could
/// not run, or an unsupported platform all leave the rest of the sequence
/// exactly as it was — shutdown always reaches every service.
pub struct ShutdownSequence {
    pub pos: usize,
}

impl ShutdownSequence {
    /// Begins the sequence at the first configured service.
    pub fn new() -> (r: ShutdownSequence)
        ensures
            r.pos == 0,
    {
        ShutdownSequence { pos: 0 }
    }

    /// Hands out the next termination step, or `None` once every configured
    /// service has had its one attempt.
    pub fn next_action(
        &mut self,
        cfg: &Config,
        platform: Platform,
        _prev_outcome: Option<&StopOutcome>,
    ) -> (r: Option<ShutdownStep>)
        ensures
            old(self).pos < cfg@.services.len() ==> {
                &&& final(self).pos == old(self).pos + 1
                &&& r.deep_view() == Some(spec_shutdown_plan(cfg@, platform)[old(self).pos as int])
            },
            old(self).pos >= cfg@.services.len() ==> {
                &&& final(self).pos == old(self).pos
                &&& r.deep_view() == None::<SpecShutdownStep>
            },
    {
        if self.pos < cfg.services.len() {
            let svc = &cfg.services[self.pos];
            let step = ShutdownStep {
                name: svc.name.clone(),
                action: termination_for(svc, platform),
            };
            proof {
                assert(cfg.services.deep_view()[self.pos as int]
                    == cfg.services@[self.pos as int].deep_view());
            }
            self.pos = self.pos + 1;
            Some(step)
        } else {
            None
        }
    }
}

/// Shutdown invokes exactly one termination per configured service: the plan
/// has one step per service, step `i` names service `i`, and — names being
/// unique — no service is named by any other step. The plan takes no
/// process-table snapshot and no earlier outcomes: it is the same whether or
/// not any service was running, and whatever earlier attempts returned.
pub proof fn lemma_shutdown_exactly_once(cfg: SpecConfig, platform: Platform)
    requires
        cfg.wf(),
    ensures
        spec_shutdown_plan(cfg, platform).len() == cfg.services.len(),
        forall|i: int|
            0 <= i < cfg.services.len()
                ==> (#[trigger] spec_shutdown_plan(cfg, platform)[i]).name == cfg.services[i].name,
        forall|i: int, j: int|
            #![trigger spec_shutdown_plan(cfg, platform)[j], cfg.services[i]]
            0 <= i < cfg.services.len() && 0 <= j < cfg.services.len()
                && spec_shutdown_plan(cfg, platform)[j].name == cfg.services[i].name ==> j == i,
{
    assert forall|i: int, j: int|
        #![trigger spec_shutdown_plan(cfg, platform)[j], cfg.services[i]]
        0 <= i < cfg.services.len() && 0 <= j < cfg.services.len()
            && spec_shutdown_plan(cfg, platform)[j].name == cfg.services[i].name implies j == i by {
        if i != j {
            assert(cfg.services[i].name != cfg.services[j].name);
        }
    }
}

} // verus!
