use vstd::prelude::*;
use crate::probe::ProcessRecord;

verus! {

#[verifier::external_type_specification]
#[verifier::external_body]
pub struct ExSystem(sysinfo::System);

/// Relies on sysinfo::System::new_all: creates a system handle with an
/// initial snapshot of everything it tracks. Nothing is promised of its
/// contents: they mirror whatever the machine was doing at that moment.
#[verifier::external_body]
fn new_system_inner() -> sysinfo::System {
    sysinfo::System::new_all()
}

/// Relies on sysinfo::System::refresh_processes_specifics: re-reads the OS
/// process table into the handle, dropping dead processes. Nothing is
/// promised of the refreshed contents.
#[verifier::external_body]
fn refresh_system_processes(sys: &mut sysinfo::System) {
    sys.refresh_processes_specifics(
        sysinfo::ProcessesToUpdate::All,
        true,
        sysinfo::ProcessRefreshKind::everything(),
    );
}

/// Relies on sysinfo::System::processes: reads the refreshed table out of the
/// handle, converting each process to its OS-visible name and command line as
/// plain strings. Nothing is promised of the contents: the table is whatever
/// the OS reported at the last refresh.
#[verifier::external_body]
fn read_process_table(sys: &sysinfo::System) -> (r: Vec<ProcessRecord>) {
    sys.processes()
        .values()
        .map(|p| ProcessRecord {
            name: p.name().to_string_lossy().into_owned(),
            cmd: p.cmd().iter().map(|a| a.to_string_lossy().into_owned()).collect(),
        })
        .collect()
}

/// Creates the process-table handle the supervisor polls through.
pub fn new_system() -> sysinfo::System {
    new_system_inner()
}

/// Takes a fresh point-in-time snapshot of the OS process table: one record
/// per live process. The snapshot is whatever the OS reports — every
/// downstream decision is proved for all possible snapshot values.
pub fn capture_snapshot(sys: &mut sysinfo::System) -> Vec<ProcessRecord> {
    refresh_system_processes(sys);
    read_process_table(sys)
}

} // verus!
