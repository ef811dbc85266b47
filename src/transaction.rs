//! The order of the disk steps of one install, as a state machine that the
//! caller drives: it performs each action and reports whether it succeeded.
use vstd::prelude::*;

verus! {

/// Where an install stands.
#[derive(Clone, Copy, Debug, PartialEq, Eq, Structural)]
pub enum InstallStage {
    /// Every check has passed; nothing on disk has changed.
    Planned,
    /// The backup root exists.
    RootReady,
    /// The old tree sits under the backup root; the package path is free.
    Moved,
    /// The archive's tree is unpacked beside the backup.
    Unpacked,
    /// The configuration entries are carried over: the install is complete.
    Done,
    /// A step failed; `moved` tells whether the old tree had already moved.
    Failed { moved: bool },
}

/// The disk step that comes next.
#[derive(Clone, Copy, Debug, PartialEq, Eq, Structural)]
pub enum InstallAction {
    /// Create the backup root if it is absent.
    EnsureBackupRoot,
    /// Rename the package directory to its backup entry.
    MoveToBackup,
    /// Unpack the archive beside the backup, unless its target is taken.
    Unpack,
    /// Copy the old configuration entries over the new tree.
    Migrate,
}

pub open spec fn is_terminal(s: InstallStage) -> bool {
    s == InstallStage::Done || s is Failed
}

/// The stage after the current step succeeded or failed.
pub open spec fn step_spec(s: InstallStage, ok: bool) -> InstallStage {
    match s {
        InstallStage::Planned => if ok { InstallStage::RootReady } else { InstallStage::Failed { moved: false } },
        InstallStage::RootReady => if ok { InstallStage::Moved } else { InstallStage::Failed { moved: false } },
        InstallStage::Moved => if ok { InstallStage::Unpacked } else { InstallStage::Failed { moved: true } },
        InstallStage::Unpacked => if ok { InstallStage::Done } else { InstallStage::Failed { moved: true } },
        _ => s,
    }
}

/// The package directory is still at its place.
pub open spec fn live_present(s: InstallStage) -> bool {
    s == InstallStage::Planned || s == InstallStage::RootReady || s == (InstallStage::Failed { moved: false })
}

/// The old tree is kept under the backup root.
pub open spec fn backup_present(s: InstallStage) -> bool {
    s == InstallStage::Moved || s == InstallStage::Unpacked || s == InstallStage::Done || s == (InstallStage::Failed { moved: true })
}

/// The archive's tree is in place.
pub open spec fn fresh_present(s: InstallStage) -> bool {
    s == InstallStage::Unpacked || s == InstallStage::Done
}

/// The stage reached from `s` after steps with these results.
pub open spec fn run_spec(s: InstallStage, results: Seq<bool>) -> InstallStage
    decreases results.len(),
{
    if results.len() == 0 {
        s
    } else {
        run_spec(step_spec(s, results[0]), results.drop_first())
    }
}

/// The action for a stage, none once the install has ended.
pub fn next_action(s: InstallStage) -> (r: Option<InstallAction>)
    ensures
        is_terminal(s) <==> r is None,
        s == InstallStage::Planned ==> r == Some(InstallAction::EnsureBackupRoot),
        s == InstallStage::RootReady ==> r == Some(InstallAction::MoveToBackup),
        s == InstallStage::Moved ==> r == Some(InstallAction::Unpack),
        s == InstallStage::Unpacked ==> r == Some(InstallAction::Migrate),
{
    match s {
        InstallStage::Planned => Some(InstallAction::EnsureBackupRoot),
        InstallStage::RootReady => Some(InstallAction::MoveToBackup),
        InstallStage::Moved => Some(InstallAction::Unpack),
        InstallStage::Unpacked => Some(InstallAction::Migrate),
        _ => None,
    }
}

/// The stage after the current action succeeded (`ok`) or failed.
pub fn advance(s: InstallStage, ok: bool) -> (r: InstallStage)
    ensures
        r == step_spec(s, ok),
{
    match s {
        InstallStage::Planned => if ok { InstallStage::RootReady } else { InstallStage::Failed { moved: false } },
        InstallStage::RootReady => if ok { InstallStage::Moved } else { InstallStage::Failed { moved: false } },
        InstallStage::Moved => if ok { InstallStage::Unpacked } else { InstallStage::Failed { moved: true } },
        InstallStage::Unpacked => if ok { InstallStage::Done } else { InstallStage::Failed { moved: true } },
        _ => s,
    }
}

/// Whatever the steps' results, an install from a checked plan never leaves the
/// package without its tree: the package directory or its backup is there. A
/// failure before the move leaves the package directory in place with no
/// backup; a completed install has both the backup and the new tree.
pub proof fn lemma_install_keeps_a_tree(results: Seq<bool>)
    ensures
        live_present(run_spec(InstallStage::Planned, results)) || backup_present(run_spec(InstallStage::Planned, results)),
        run_spec(InstallStage::Planned, results) == (InstallStage::Failed { moved: false })
            ==> !backup_present(run_spec(InstallStage::Planned, results)),
        run_spec(InstallStage::Planned, results) == InstallStage::Done
            ==> backup_present(run_spec(InstallStage::Planned, results)) && fresh_present(run_spec(InstallStage::Planned, results)),
{
    lemma_run_stays_in_reach(InstallStage::Planned, results);
}

/// The stages that an install can reach.
pub open spec fn reachable(s: InstallStage) -> bool {
    live_present(s) != backup_present(s)
}

proof fn lemma_run_stays_in_reach(s: InstallStage, results: Seq<bool>)
    requires
        reachable(s),
    ensures
        reachable(run_spec(s, results)),
    decreases results.len(),
{
    if results.len() > 0 {
        lemma_run_stays_in_reach(step_spec(s, results[0]), results.drop_first());
    }
}

} // verus!
