use vstd::prelude::*;

verus! {

/// Immutable description of one managed service: its unique name, the
/// executable command (absolute, or relative to the installation root), its
/// ordered arguments, and the log file both output streams are redirected to.
pub struct ServiceSpec {
    pub name: String,
    pub command: String,
    pub args: Vec<String>,
    pub log_file: String,
}

/// Mathematical image of a [`ServiceSpec`]: every field as a sequence of
/// characters.
pub struct SpecService {
    pub name: Seq<char>,
    pub command: Seq<char>,
    pub args: Seq<Seq<char>>,
    pub log_file: Seq<char>,
}

impl View for ServiceSpec {
    type V = SpecService;

    open spec fn view(&self) -> SpecService {
        SpecService {
            name: self.name@,
            command: self.command@,
            args: self.args.deep_view(),
            log_file: self.log_file@,
        }
    }
}

impl DeepView for ServiceSpec {
    type V = SpecService;

    open spec fn deep_view(&self) -> SpecService {
        self.view()
    }
}

/// The whole configuration: the installation root that relative commands are
/// resolved against, and the managed services in their configured order.
/// Loaded once at startup and never mutated afterwards.
pub struct Config {
    pub root: String,
    pub services: Vec<ServiceSpec>,
}

/// Mathematical image of a [`Config`].
pub struct SpecConfig {
    pub root: Seq<char>,
    pub services: Seq<SpecService>,
}

impl View for Config {
    type V = SpecConfig;

    open spec fn view(&self) -> SpecConfig {
        SpecConfig { root: self.root@, services: self.services.deep_view() }
    }
}

impl SpecConfig {
    /// Well-formedness: service names are unique across the configured set.
    pub open spec fn wf(self) -> bool {
        forall|i: int, j: int|
            0 <= i < self.services.len() && 0 <= j < self.services.len() && i != j
                ==> self.services[i].name != self.services[j].name
    }
}

impl Config {
    /// Well-formedness of the underlying configuration.
    pub open spec fn wf(&self) -> bool {
        self@.wf()
    }
}

} // verus!
