use vstd::prelude::*;
use crate::config::ServiceSpec;
use crate::text::{contains_substring, is_substring};

verus! {

/// One entry of a point-in-time snapshot of the OS process table: the
/// OS-visible process name and the full command line, one argument per entry.
pub struct ProcessRecord {
    pub name: String,
    pub cmd: Vec<String>,
}

/// Mathematical image of a [`ProcessRecord`].
pub struct SpecProcess {
    pub name: Seq<char>,
    pub cmd: Seq<Seq<char>>,
}

impl View for ProcessRecord {
    type V = SpecProcess;

    open spec fn view(&self) -> SpecProcess {
        SpecProcess { name: self.name@, cmd: self.cmd.deep_view() }
    }
}

impl DeepView for ProcessRecord {
    type V = SpecProcess;

    open spec fn deep_view(&self) -> SpecProcess {
        self.view()
    }
}

/// The liveness heuristic on a single process: the service name occurs in the
/// OS-visible process name, and some command-line argument mentions the
/// service name as a substring. Deliberately a heuristic: it can produce both
/// false positives and false negatives.
pub open spec fn spec_process_matches(service_name: Seq<char>, p: SpecProcess) -> bool {
    &&& is_substring(service_name, p.name)
    &&& exists|k: int| 0 <= k < p.cmd.len() && is_substring(service_name, #[trigger] p.cmd[k])
}

/// A service counts as running exactly when some process in the snapshot
/// matches both filters of the heuristic. An empty snapshot (for instance
/// after a failed refresh) conservatively reports every service absent.
pub open spec fn spec_is_running(service_name: Seq<char>, table: Seq<SpecProcess>) -> bool {
    exists|i: int| 0 <= i < table.len() && spec_process_matches(service_name, #[trigger] table[i])
}

/// Whether some argument of `cmd` contains `service_name` as a substring.
fn any_arg_mentions(service_name: &str, cmd: &Vec<String>) -> (r: bool)
    ensures
        r == exists|k: int|
            0 <= k < cmd.deep_view().len() && is_substring(service_name@, #[trigger] cmd.deep_view()[k]),
{
    let n = cmd.len();
    let mut k: usize = 0;
    while k < n
        invariant
            n == cmd@.len(),
            k <= n,
            forall|m: int| 0 <= m < k ==> !is_substring(service_name@, #[trigger] cmd.deep_view()[m]),
        decreases n - k,
    {
        if contains_substring(cmd[k].as_str(), service_name) {
            proof {
                assert(cmd.deep_view()[k as int] == cmd@[k as int]@);
            }
            return true;
        }
        k += 1;
    }
    false
}

/// Whether one process satisfies both filters of the liveness heuristic for
/// the given service name.
pub fn process_matches(service_name: &str, p: &ProcessRecord) -> (r: bool)
    ensures
        r == spec_process_matches(service_name@, p.deep_view()),
{
    if contains_substring(p.name.as_str(), service_name) {
        any_arg_mentions(service_name, &p.cmd)
    } else {
        false
    }
}

impl ServiceSpec {
    /// The liveness probe: scans the snapshot for a process whose name
    /// contains this service's name and whose command line mentions it.
    pub fn is_running(&self, table: &Vec<ProcessRecord>) -> (r: bool)
        ensures
            r == spec_is_running(self@.name, table.deep_view()),
    {
        let n = table.len();
        let mut i: usize = 0;
        while i < n
            invariant
                n == table@.len(),
                i <= n,
                forall|m: int|
                    0 <= m < i ==> !spec_process_matches(self@.name, #[trigger] table.deep_view()[m]),
            decreases n - i,
        {
            if process_matches(self.name.as_str(), &table[i]) {
                proof {
                    assert(table.deep_view()[i as int] == table@[i as int].deep_view());
                }
                return true;
            }
            i += 1;
        }
        false
    }
}

} // verus!
