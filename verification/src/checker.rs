//! The validity checker for one candidate path.
//!
//! The check needs up to three filesystem answers: what an `lstat`-style
//! query says of the path itself, the link's target text, and whether a
//! resolution of that target exists.  The library holds no filesystem
//! access, so the check is a small state machine: `query_of` names the
//! question pending in a state, the caller asks the filesystem and feeds the
//! answer back through `step`, and the machine ends in `Done` with the
//! outcome and, for a broken link, the diagnostic line.
//!
//! The spec-level model ties every complete run to `decide`, the ideal
//! outcome as a function of the filesystem facts alone.

use vstd::prelude::*;

use crate::diag::diagnostic_line;
use crate::diag::diagnostic_spec;
use crate::outcome::CheckOutcome;
use crate::pathops::abs_spec;
use crate::pathops::is_absolute;
use crate::pathops::join;
use crate::pathops::join_spec;
use crate::pathops::parent_of;
use crate::pathops::parent_spec;

verus! {

/// What an `lstat`-style metadata query said of the candidate path itself.
#[derive(Clone, Copy, Debug, PartialEq, Eq, Structural)]
pub enum PathKind {
    /// The path exists and is not a symbolic link.
    NotSymlink,
    /// The path is a symbolic link.
    Symlink,
    /// The path's own metadata could not be read.
    Unreadable,
}

/// A filesystem question the checker needs answered.
#[derive(Debug)]
pub enum Query {
    /// Read the candidate path's own metadata without following links.
    Lstat,
    /// Read the candidate path's link target text.
    ReadLink,
    /// Does the named path exist, following links transitively?
    Exists(String),
}

/// A filesystem answer handed back to the checker.
#[derive(Debug)]
pub enum Event {
    /// The answer to `Query::Lstat`.
    Lstat(PathKind),
    /// The answer to `Query::ReadLink`: the target text, or `None` when the
    /// link could not be read.
    Link(Option<String>),
    /// The answer to `Query::Exists`.
    Exists(bool),
}

/// The state of one check.
#[derive(Debug)]
pub enum CheckState {
    /// Nothing asked yet.
    Start,
    /// The path is a symlink; its target text is pending.
    ReadTarget,
    /// The target is absolute; its direct existence probe is pending.
    ProbeAbsolute { target: String },
    /// The existence probe of the target joined to the candidate path's
    /// parent directory is pending.
    ProbeResolved { target: String },
    /// The check is complete.  The diagnostic line is present exactly when
    /// the outcome is `Fail`.
    Done { outcome: CheckOutcome, diagnostic: Option<String> },
}

/// The spec-level image of `CheckState`, over character sequences.
pub enum StateModel {
    Start,
    ReadTarget,
    ProbeAbsolute { target: Seq<char> },
    ProbeResolved { target: Seq<char> },
    Done { outcome: CheckOutcome, diagnostic: Option<Seq<char>> },
}

/// The spec-level image of `Event`, over character sequences.
pub enum EventModel {
    Lstat { kind: PathKind },
    Link { target: Option<Seq<char>> },
    Exists { found: bool },
}

impl CheckState {
    /// The spec-level image of this state.
    pub open spec fn model(self) -> StateModel {
        match self {
            CheckState::Start => StateModel::Start,
            CheckState::ReadTarget => StateModel::ReadTarget,
            CheckState::ProbeAbsolute { target } => StateModel::ProbeAbsolute {
                target: target@,
            },
            CheckState::ProbeResolved { target } => StateModel::ProbeResolved {
                target: target@,
            },
            CheckState::Done { outcome, diagnostic } => StateModel::Done {
                outcome,
                diagnostic: match diagnostic {
                    Option::None => Option::None,
                    Option::Some(d) => Option::Some(d@),
                },
            },
        }
    }
}

impl Event {
    /// The spec-level image of this event.
    pub open spec fn model(self) -> EventModel {
        match self {
            Event::Lstat(kind) => EventModel::Lstat { kind },
            Event::Link(target) => EventModel::Link {
                target: match target {
                    Option::None => Option::None,
                    Option::Some(t) => Option::Some(t@),
                },
            },
            Event::Exists(found) => EventModel::Exists { found },
        }
    }
}

/// One transition of the check on a filesystem answer.  An answer that does
/// not fit the pending question leaves the state unchanged.
pub open spec fn spec_step(path: Seq<char>, s: StateModel, e: EventModel) -> StateModel {
    match (s, e) {
        (StateModel::Start, EventModel::Lstat { kind }) => match kind {
            PathKind::Unreadable => StateModel::Done {
                outcome: CheckOutcome::Error,
                diagnostic: Option::None,
            },
            PathKind::NotSymlink => StateModel::Done {
                outcome: CheckOutcome::Pass,
                diagnostic: Option::None,
            },
            PathKind::Symlink => StateModel::ReadTarget,
        },
        (StateModel::ReadTarget, EventModel::Link { target }) => match target {
            Option::None => StateModel::Done {
                outcome: CheckOutcome::Fail,
                diagnostic: Option::Some(diagnostic_spec(path)),
            },
            Option::Some(t) => if abs_spec(t) {
                StateModel::ProbeAbsolute { target: t }
            } else {
                StateModel::ProbeResolved { target: t }
            },
        },
        (StateModel::ProbeAbsolute { target }, EventModel::Exists { found }) => if found {
            StateModel::Done { outcome: CheckOutcome::Pass, diagnostic: Option::None }
        } else {
            StateModel::ProbeResolved { target }
        },
        (StateModel::ProbeResolved { target }, EventModel::Exists { found }) => if found {
            StateModel::Done { outcome: CheckOutcome::Pass, diagnostic: Option::None }
        } else {
            StateModel::Done {
                outcome: CheckOutcome::Fail,
                diagnostic: Option::Some(diagnostic_spec(path)),
            }
        },
        (other, _) => other,
    }
}

/// Advance the check one step on a filesystem answer.
pub fn step(path: &String, state: CheckState, event: Event) -> (next: CheckState)
    ensures
        next.model() == spec_step(path@, state.model(), event.model()),
{
    match (state, event) {
        (CheckState::Start, Event::Lstat(kind)) => match kind {
            PathKind::Unreadable => CheckState::Done {
                outcome: CheckOutcome::Error,
                diagnostic: None,
            },
            PathKind::NotSymlink => CheckState::Done {
                outcome: CheckOutcome::Pass,
                diagnostic: None,
            },
            PathKind::Symlink => CheckState::ReadTarget,
        },
        (CheckState::ReadTarget, Event::Link(target)) => match target {
            None => CheckState::Done {
                outcome: CheckOutcome::Fail,
                diagnostic: Some(diagnostic_line(path)),
            },
            Some(t) => if is_absolute(&t) {
                CheckState::ProbeAbsolute { target: t }
            } else {
                CheckState::ProbeResolved { target: t }
            },
        },
        (CheckState::ProbeAbsolute { target }, Event::Exists(found)) => if found {
            CheckState::Done { outcome: CheckOutcome::Pass, diagnostic: None }
        } else {
            CheckState::ProbeResolved { target }
        },
        (CheckState::ProbeResolved { target: _ }, Event::Exists(found)) => if found {
            CheckState::Done { outcome: CheckOutcome::Pass, diagnostic: None }
        } else {
            CheckState::Done {
                outcome: CheckOutcome::Fail,
                diagnostic: Some(diagnostic_line(path)),
            }
        },
        (other, _) => other,
    }
}

/// The filesystem question pending in the given state, or `None` when the
/// check is done.  The absolute probe asks about the target itself; the
/// resolved probe asks about the target joined to the candidate path's
/// parent directory.
pub fn query_of(path: &String, state: &CheckState) -> (q: Option<Query>)
    ensures
        state is Start ==> q matches Some(Query::Lstat),
        state is ReadTarget ==> q matches Some(Query::ReadLink),
        state matches CheckState::ProbeAbsolute { target } ==> (q matches Some(
            Query::Exists(probe),
        ) && probe@ == target@),
        state matches CheckState::ProbeResolved { target } ==> (q matches Some(
            Query::Exists(probe),
        ) && probe@ == join_spec(parent_spec(path@), target@)),
        state is Done ==> q is None,
{
    match state {
        CheckState::Start => Some(Query::Lstat),
        CheckState::ReadTarget => Some(Query::ReadLink),
        CheckState::ProbeAbsolute { target } => Some(Query::Exists(target.clone())),
        CheckState::ProbeResolved { target } => {
            let dir = parent_of(path);
            Some(Query::Exists(join(&dir, target)))
        },
        CheckState::Done { .. } => None,
    }
}

/// The ideal outcome of one check as a function of the filesystem facts:
/// what the metadata query said, the link target if one was read, and
/// whether each resolution of the target exists.
pub open spec fn decide(
    kind: PathKind,
    target: Option<Seq<char>>,
    abs_exists: bool,
    resolved_exists: bool,
) -> CheckOutcome {
    match kind {
        PathKind::Unreadable => CheckOutcome::Error,
        PathKind::NotSymlink => CheckOutcome::Pass,
        PathKind::Symlink => match target {
            Option::None => CheckOutcome::Fail,
            Option::Some(t) => if abs_spec(t) && abs_exists {
                CheckOutcome::Pass
            } else if resolved_exists {
                CheckOutcome::Pass
            } else {
                CheckOutcome::Fail
            },
        },
    }
}

/// The final state of a whole check: `spec_step` driven from `Start` by the
/// filesystem's answers, each probe answered by the facts.
pub open spec fn run(
    path: Seq<char>,
    kind: PathKind,
    target: Option<Seq<char>>,
    abs_exists: bool,
    resolved_exists: bool,
) -> StateModel {
    let s1 = spec_step(path, StateModel::Start, EventModel::Lstat { kind });
    let s2 = if s1 is ReadTarget {
        spec_step(path, s1, EventModel::Link { target })
    } else {
        s1
    };
    let s3 = if s2 is ProbeAbsolute {
        spec_step(path, s2, EventModel::Exists { found: abs_exists })
    } else {
        s2
    };
    if s3 is ProbeResolved {
        spec_step(path, s3, EventModel::Exists { found: resolved_exists })
    } else {
        s3
    }
}

/// Whatever the filesystem answered, a complete check ends in `Done`, its
/// outcome is `decide` of the facts, and the diagnostic line naming the
/// path is present exactly when the outcome is `Fail`.
pub proof fn lemma_check_decides(
    path: Seq<char>,
    kind: PathKind,
    target: Option<Seq<char>>,
    abs_exists: bool,
    resolved_exists: bool,
)
    ensures
        run(path, kind, target, abs_exists, resolved_exists) == (StateModel::Done {
            outcome: decide(kind, target, abs_exists, resolved_exists),
            diagnostic: if decide(kind, target, abs_exists, resolved_exists) is Fail {
                Option::Some(diagnostic_spec(path))
            } else {
                Option::None
            },
        }),
{
}

/// A path that is not a symlink always passes, whatever the other probes
/// would have answered, and no diagnostic is produced.
pub proof fn lemma_regular_file_passes(
    path: Seq<char>,
    target: Option<Seq<char>>,
    abs_exists: bool,
    resolved_exists: bool,
)
    ensures
        run(path, PathKind::NotSymlink, target, abs_exists, resolved_exists) == (StateModel::Done {
            outcome: CheckOutcome::Pass,
            diagnostic: Option::None,
        }),
{
}

/// A symlink whose target exists — directly when the target is absolute, or
/// joined to the link's parent directory — passes, and no diagnostic is
/// produced.  The existence probes follow links, so a target reachable only
/// through a further chain of links is covered by the same fact.
pub proof fn lemma_valid_symlink_passes(
    path: Seq<char>,
    t: Seq<char>,
    abs_exists: bool,
    resolved_exists: bool,
)
    requires
        (abs_spec(t) && abs_exists) || resolved_exists,
    ensures
        run(path, PathKind::Symlink, Option::Some(t), abs_exists, resolved_exists)
            == (StateModel::Done { outcome: CheckOutcome::Pass, diagnostic: Option::None }),
{
}

/// A symlink whose target exists under neither resolution fails, and the
/// one diagnostic line naming the path is produced.
pub proof fn lemma_broken_symlink_fails(
    path: Seq<char>,
    t: Seq<char>,
    abs_exists: bool,
    resolved_exists: bool,
)
    requires
        !(abs_spec(t) && abs_exists),
        !resolved_exists,
    ensures
        run(path, PathKind::Symlink, Option::Some(t), abs_exists, resolved_exists)
            == (StateModel::Done {
            outcome: CheckOutcome::Fail,
            diagnostic: Option::Some(diagnostic_spec(path)),
        }),
{
}

/// The facts one filesystem inspection of a single candidate path yields:
/// everything the outcome of its check depends on.
pub struct PathFacts {
    pub kind: PathKind,
    pub target: Option<Seq<char>>,
    pub abs_exists: bool,
    pub resolved_exists: bool,
}

/// The final state of the check of every path in a run.
pub open spec fn run_all(paths: Seq<Seq<char>>, facts: Seq<PathFacts>) -> Seq<StateModel>
    recommends
        paths.len() == facts.len(),
{
    Seq::new(
        paths.len(),
        |i: int|
            run(
                paths[i],
                facts[i].kind,
                facts[i].target,
                facts[i].abs_exists,
                facts[i].resolved_exists,
            ),
    )
}

/// The outcome of every check in a run.
pub open spec fn outcomes_of(facts: Seq<PathFacts>) -> Seq<CheckOutcome> {
    Seq::new(
        facts.len(),
        |i: int|
            decide(facts[i].kind, facts[i].target, facts[i].abs_exists, facts[i].resolved_exists),
    )
}

/// Checking an unchanged tree twice — the same candidate paths and the same
/// filesystem answers — ends every per-path check in the same state, yields
/// the same outcomes and diagnostics, and reduces to the same exit status:
/// a run depends on nothing but its inputs.
pub proof fn lemma_rerun_identical(
    paths1: Seq<Seq<char>>,
    facts1: Seq<PathFacts>,
    paths2: Seq<Seq<char>>,
    facts2: Seq<PathFacts>,
)
    requires
        paths1 == paths2,
        facts1 == facts2,
    ensures
        run_all(paths1, facts1) == run_all(paths2, facts2),
        outcomes_of(facts1) == outcomes_of(facts2),
        crate::outcome::spec_exit_status(outcomes_of(facts1)) == crate::outcome::spec_exit_status(
            outcomes_of(facts2),
        ),
{
}

} // verus!
