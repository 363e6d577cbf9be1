//! The stages of one install run and the order they come in: every stage
//! either hands over to the next or ends the run in failure.
use vstd::prelude::*;

verus! {

#[derive(Debug, Clone, Copy, PartialEq, Eq, Structural)]
pub enum Stage {
    ResolvingVersion,
    ResolvingAsset,
    FetchingChecksum,
    Downloading,
    Verifying,
    Extracting,
    Installing,
    RegisteringPath,
}

#[derive(Debug, Clone, Copy, PartialEq, Eq, Structural)]
pub enum PipelineState {
    Idle,
    Running(Stage),
    Done,
    Failed(Stage),
}

/// Position of a stage in the run.
pub open spec fn stage_index(s: Stage) -> nat {
    match s {
        Stage::ResolvingVersion => 0,
        Stage::ResolvingAsset => 1,
        Stage::FetchingChecksum => 2,
        Stage::Downloading => 3,
        Stage::Verifying => 4,
        Stage::Extracting => 5,
        Stage::Installing => 6,
        Stage::RegisteringPath => 7,
    }
}

/// The stage after `s`, none after the last.
pub open spec fn following(s: Stage) -> Option<Stage> {
    match s {
        Stage::ResolvingVersion => Some(Stage::ResolvingAsset),
        Stage::ResolvingAsset => Some(Stage::FetchingChecksum),
        Stage::FetchingChecksum => Some(Stage::Downloading),
        Stage::Downloading => Some(Stage::Verifying),
        Stage::Verifying => Some(Stage::Extracting),
        Stage::Extracting => Some(Stage::Installing),
        Stage::Installing => Some(Stage::RegisteringPath),
        Stage::RegisteringPath => None,
    }
}

/// The state after the current stage reports `ok`; an idle run starts, and
/// a finished or failed run stays as it is.
pub open spec fn next_state(st: PipelineState, ok: bool) -> PipelineState {
    match st {
        PipelineState::Idle => PipelineState::Running(Stage::ResolvingVersion),
        PipelineState::Running(s) => if !ok {
            PipelineState::Failed(s)
        } else {
            match following(s) {
                Some(n) => PipelineState::Running(n),
                None => PipelineState::Done,
            }
        },
        PipelineState::Done => PipelineState::Done,
        PipelineState::Failed(s) => PipelineState::Failed(s),
    }
}

/// The state after the stages report the given outcomes in turn.
pub open spec fn run(st: PipelineState, outcomes: Seq<bool>) -> PipelineState
    decreases outcomes.len(),
{
    if outcomes.len() == 0 {
        st
    } else {
        next_state(run(st, outcomes.drop_last()), outcomes.last())
    }
}

pub fn next_stage(s: Stage) -> (r: Option<Stage>)
    ensures
        r == following(s),
{
    match s {
        Stage::ResolvingVersion => Some(Stage::ResolvingAsset),
        Stage::ResolvingAsset => Some(Stage::FetchingChecksum),
        Stage::FetchingChecksum => Some(Stage::Downloading),
        Stage::Downloading => Some(Stage::Verifying),
        Stage::Verifying => Some(Stage::Extracting),
        Stage::Extracting => Some(Stage::Installing),
        Stage::Installing => Some(Stage::RegisteringPath),
        Stage::RegisteringPath => None,
    }
}

impl PipelineState {
    /// Moves the run on once the current stage has reported `ok`.
    pub fn advance(self, ok: bool) -> (r: PipelineState)
        ensures
            r == next_state(self, ok),
    {
        match self {
            PipelineState::Idle => PipelineState::Running(Stage::ResolvingVersion),
            PipelineState::Running(s) => if !ok {
                PipelineState::Failed(s)
            } else {
                match next_stage(s) {
                    Some(n) => PipelineState::Running(n),
                    None => PipelineState::Done,
                }
            },
            PipelineState::Done => PipelineState::Done,
            PipelineState::Failed(s) => PipelineState::Failed(s),
        }
    }

    /// Whether the run has ended, well or not.
    pub fn is_terminal(self) -> (r: bool)
        ensures
            r == (self is Done || self is Failed),
    {
        match self {
            PipelineState::Done | PipelineState::Failed(_) => true,
            _ => false,
        }
    }
}

/// A failed run stays failed at the stage that failed, whatever comes after.
pub proof fn lemma_failure_is_final(s: Stage, outcomes: Seq<bool>)
    ensures
        run(PipelineState::Failed(s), outcomes) == PipelineState::Failed(s),
    decreases outcomes.len(),
{
    if outcomes.len() > 0 {
        lemma_failure_is_final(s, outcomes.drop_last());
    }
}

/// When the download fails, the run ends there: no later stage (extraction,
/// installation, PATH registration) is ever entered, and the run never
/// reaches the end of installation where the staging directory is removed.
pub proof fn lemma_download_failure_stops(outcomes: Seq<bool>)
    ensures
        forall|k: int|
            0 <= k <= outcomes.len() ==> #[trigger] run(
                next_state(PipelineState::Running(Stage::Downloading), false),
                outcomes.take(k),
            ) == PipelineState::Failed(Stage::Downloading),
{
    assert forall|k: int| 0 <= k <= outcomes.len() implies #[trigger] run(
        next_state(PipelineState::Running(Stage::Downloading), false),
        outcomes.take(k),
    ) == PipelineState::Failed(Stage::Downloading) by {
        lemma_failure_is_final(Stage::Downloading, outcomes.take(k));
    }
}

/// Each successful stage hands over to the one just after it, so stages are
/// entered in order and none twice.
pub proof fn lemma_stages_in_order(s: Stage)
    ensures
        next_state(PipelineState::Running(s), true) matches PipelineState::Running(n) ==> stage_index(n)
            == stage_index(s) + 1,
        next_state(PipelineState::Running(s), true) is Done <==> s == Stage::RegisteringPath,
{
}

} // verus!
