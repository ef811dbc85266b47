//! What processing one package came to, and how a run is summed up.
use vstd::prelude::*;
use crate::error::UpdateError;

verus! {

/// The single, final result for one package in a run.
#[derive(Clone, Debug, PartialEq, Eq)]
pub enum UpdateOutcome {
    Updated { new_version: String },
    UpToDate,
    Failed(String),
}

/// The text that a failure is reported with.
pub open spec fn error_text(e: UpdateError) -> Seq<char> {
    match e {
        UpdateError::InvalidFormat => "UpdateKey must contain ':'"@,
        UpdateError::Unsupported(m) => m@,
        UpdateError::Ambiguous(m) => m@,
        UpdateError::AlreadyExists(m) => m@,
        UpdateError::Malformed(m) => m@,
        UpdateError::Transport(m) => m@,
        UpdateError::NotAFileOrDir(m) => m@,
    }
}

impl UpdateError {
    /// The text that this failure is reported with.
    pub fn reason(&self) -> (r: String)
        ensures
            r@ == error_text(*self),
    {
        match self {
            UpdateError::InvalidFormat => String::from_str("UpdateKey must contain ':'"),
            UpdateError::Unsupported(m) => m.clone(),
            UpdateError::Ambiguous(m) => m.clone(),
            UpdateError::AlreadyExists(m) => m.clone(),
            UpdateError::Malformed(m) => m.clone(),
            UpdateError::Transport(m) => m.clone(),
            UpdateError::NotAFileOrDir(m) => m.clone(),
        }
    }
}

/// The outcome for a package whose processing ended in `e`.
pub fn failed(e: &UpdateError) -> (r: UpdateOutcome)
    ensures
        r matches UpdateOutcome::Failed(m) && m@ == error_text(*e),
{
    UpdateOutcome::Failed(e.reason())
}

/// Counts of the outcomes of a run.
#[derive(Clone, Copy, Debug, PartialEq, Eq, Structural)]
pub struct Tally {
    pub updated: u64,
    pub failed: u64,
    pub up_to_date: u64,
}

pub open spec fn count_updated(o: Seq<UpdateOutcome>) -> nat
    decreases o.len(),
{
    if o.len() == 0 {
        0
    } else {
        count_updated(o.drop_last()) + if o.last() is Updated { 1nat } else { 0nat }
    }
}

pub open spec fn count_failed(o: Seq<UpdateOutcome>) -> nat
    decreases o.len(),
{
    if o.len() == 0 {
        0
    } else {
        count_failed(o.drop_last()) + if o.last() is Failed { 1nat } else { 0nat }
    }
}

pub open spec fn count_up_to_date(o: Seq<UpdateOutcome>) -> nat
    decreases o.len(),
{
    if o.len() == 0 {
        0
    } else {
        count_up_to_date(o.drop_last()) + if o.last() is UpToDate { 1nat } else { 0nat }
    }
}

proof fn lemma_counts_bounded(o: Seq<UpdateOutcome>)
    ensures
        count_updated(o) + count_failed(o) + count_up_to_date(o) == o.len(),
    decreases o.len(),
{
    if o.len() > 0 {
        lemma_counts_bounded(o.drop_last());
    }
}

/// Counts the outcomes of each kind.
pub fn tally(outcomes: &Vec<UpdateOutcome>) -> (r: Tally)
    ensures
        r.updated == count_updated(outcomes@),
        r.failed == count_failed(outcomes@),
        r.up_to_date == count_up_to_date(outcomes@),
{
    let mut t = Tally { updated: 0, failed: 0, up_to_date: 0 };
    let mut i: usize = 0;
    while i < outcomes.len()
        invariant
            i <= outcomes@.len(),
            t.updated == count_updated(outcomes@.take(i as int)),
            t.failed == count_failed(outcomes@.take(i as int)),
            t.up_to_date == count_up_to_date(outcomes@.take(i as int)),
        decreases outcomes@.len() - i,
    {
        proof {
            assert(outcomes@.take(i + 1).drop_last() =~= outcomes@.take(i as int));
            lemma_counts_bounded(outcomes@.take(i as int));
        }
        match &outcomes[i] {
            UpdateOutcome::Updated { .. } => t.updated = t.updated + 1,
            UpdateOutcome::UpToDate => t.up_to_date = t.up_to_date + 1,
            UpdateOutcome::Failed(_) => t.failed = t.failed + 1,
        }
        i = i + 1;
    }
    assert(outcomes@.take(outcomes@.len() as int) =~= outcomes@);
    t
}

/// The decimal digit `d`.
pub open spec fn digit_char(d: nat) -> char {
    if d == 0 { '0' } else if d == 1 { '1' } else if d == 2 { '2' } else if d == 3 { '3' }
    else if d == 4 { '4' } else if d == 5 { '5' } else if d == 6 { '6' } else if d == 7 { '7' }
    else if d == 8 { '8' } else { '9' }
}

/// The decimal notation of `n`, without leading zeros.
pub open spec fn decimal_spec(n: nat) -> Seq<char>
    decreases n,
{
    if n < 10 {
        seq![digit_char(n)]
    } else {
        decimal_spec(n / 10) + seq![digit_char(n % 10)]
    }
}

fn digit(d: u64) -> (r: &'static str)
    requires
        d < 10,
    ensures
        r@ == seq![digit_char(d as nat)],
{
    proof {
        reveal_strlit("0");
        reveal_strlit("1");
        reveal_strlit("2");
        reveal_strlit("3");
        reveal_strlit("4");
        reveal_strlit("5");
        reveal_strlit("6");
        reveal_strlit("7");
        reveal_strlit("8");
        reveal_strlit("9");
    }
    let r = if d == 0 { "0" } else if d == 1 { "1" } else if d == 2 { "2" } else if d == 3 { "3" }
    else if d == 4 { "4" } else if d == 5 { "5" } else if d == 6 { "6" } else if d == 7 { "7" }
    else if d == 8 { "8" } else { "9" };
    assert(r@ =~= seq![digit_char(d as nat)]);
    r
}

/// The decimal notation of `n`.
pub fn decimal(n: u64) -> (r: String)
    ensures
        r@ == decimal_spec(n as nat),
    decreases n,
{
    if n < 10 {
        String::from_str(digit(n))
    } else {
        let mut r = decimal(n / 10);
        r.append(digit(n % 10));
        r
    }
}

/// The closing line of a run: the up-to-date count is left out when the check
/// was bypassed.
pub open spec fn summary_spec(t: Tally, force: bool) -> Seq<char> {
    let head = decimal_spec(t.updated as nat) + " updated, "@ + decimal_spec(t.failed as nat) + " failed"@;
    if force {
        head
    } else {
        head + ", "@ + decimal_spec(t.up_to_date as nat) + " already up to date"@
    }
}

/// The closing line of a run.
pub fn summary_line(t: Tally, force: bool) -> (r: String)
    ensures
        r@ == summary_spec(t, force),
{
    let mut r = decimal(t.updated);
    r.append(" updated, ");
    let f = decimal(t.failed);
    r.append(f.as_str());
    r.append(" failed");
    if !force {
        r.append(", ");
        let s = decimal(t.up_to_date);
        r.append(s.as_str());
        r.append(" already up to date");
    }
    r
}

/// The line reporting one package's outcome.
pub open spec fn report_spec(name: Seq<char>, old_version: Option<Seq<char>>, o: UpdateOutcome) -> Seq<char> {
    match o {
        UpdateOutcome::Updated { new_version } => match old_version {
            Some(v) => name + ": "@ + v + " -> "@ + new_version@,
            None => name + ": "@ + new_version@,
        },
        UpdateOutcome::UpToDate => name + ": Already up to date"@,
        UpdateOutcome::Failed(m) => name + ": "@ + m@,
    }
}

/// The line reporting one package's outcome: a version change goes to standard
/// output, anything else to the diagnostics.
pub fn report_line(name: &str, old_version: &Option<String>, o: &UpdateOutcome) -> (r: String)
    ensures
        r@ == report_spec(name@, crate::install::opt_view(*old_version), *o),
{
    let mut r = String::from_str(name);
    match o {
        UpdateOutcome::Updated { new_version } => {
            r.append(": ");
            match old_version {
                Some(v) => {
                    r.append(v.as_str());
                    r.append(" -> ");
                },
                None => {},
            }
            r.append(new_version.as_str());
        },
        UpdateOutcome::UpToDate => r.append(": Already up to date"),
        UpdateOutcome::Failed(m) => {
            r.append(": ");
            r.append(m.as_str());
        },
    }
    r
}

} // verus!
