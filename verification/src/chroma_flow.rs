//! The randomized chroma-selection workflow.
//!
//! Probe reachability, fetch the summoner identity, the champion-select
//! session, and the skin inventory of the champion found on the caller's
//! roster seat; then pick one owned chroma uniformly at random, commit
//! it, and report its first color as a 24-bit RGB value. The candidates
//! come from the skin whose chroma list contains the currently selected
//! id (a chroma is selected), falling back to the skin whose own id is
//! selected (a base skin is selected).
//!
//! As with skins, the single write is issued only after all data is
//! gathered and is never retried or rolled back: a color that fails to
//! parse is reported as `InvalidColorFormat` even though the commit has
//! already succeeded.

use vstd::prelude::*;

verus! {

use crate::candidates::{
    ChromaChoice,
    chroma_candidates,
    roster_selection,
    spec_chroma_candidates,
    spec_roster_selection,
};
use crate::color::{parse_hex_color, spec_parse_color};
use crate::errors::{CallError, SelectError};
use crate::models::{ChampSelectSession, CurrentSummonerAccountAndSummonerIds};
use crate::random::pick_index;

/// Where the chroma workflow stands.
#[derive(Debug)]
pub enum ChromaStep {
    /// Nothing has happened yet.
    Start,
    /// The reachability probe is out.
    AwaitReachable,
    /// The summoner-identity fetch is out.
    AwaitSummoner,
    /// The champion-select session fetch is out.
    AwaitSession { summoner_id: i64 },
    /// The inventory fetch is out.
    AwaitInventory { selected_skin_id: i64 },
    /// The commit of the chosen chroma is out.
    AwaitSubmit { chroma_id: i64, first_color: Option<String> },
    /// The chosen chroma was committed and its color parsed.
    Done { color: u32 },
    /// The workflow ended without a committed, well-colored pick.
    Failed { error: SelectError },
}

/// The outcome of the remote call the workflow last asked for.
#[derive(Debug)]
pub enum ChromaEvent {
    /// Start the workflow.
    Begin,
    /// Whether the reachability probe got any response.
    Reachable(bool),
    /// The summoner identity, or the call's failure.
    Summoner(Result<CurrentSummonerAccountAndSummonerIds, CallError>),
    /// The champion-select session, or the call's failure.
    Session(Result<ChampSelectSession, CallError>),
    /// The champion's skin inventory, or the call's failure.
    Inventory(Result<Vec<crate::models::ChampionsCollectionsChampionSkin>, CallError>),
    /// Whether the selection commit succeeded.
    SubmitResult(bool),
}

/// The remote call the workflow asks for next.
#[derive(Debug)]
pub enum ChromaAction {
    /// Probe reachability.
    Probe,
    /// Fetch the current summoner identity.
    FetchSummoner,
    /// Fetch the champion-select session.
    FetchSession,
    /// Fetch the skin inventory of `(summoner_id, champion_id)`.
    FetchInventory { summoner_id: i64, champion_id: i64 },
    /// Commit `skin_id` (a chroma id; the id spaces coincide).
    Submit { skin_id: i64 },
    /// The workflow is over; no further call.
    Stop,
}

/// The transition relation of the chroma workflow; deterministic in
/// everything but the random pick among the candidates.
pub open spec fn chroma_transition(
    s: ChromaStep,
    e: ChromaEvent,
    s2: ChromaStep,
    a: ChromaAction,
) -> bool {
    match (s, e) {
        (ChromaStep::Start, ChromaEvent::Begin) => s2 == ChromaStep::AwaitReachable && a
            == ChromaAction::Probe,
        (ChromaStep::AwaitReachable, ChromaEvent::Reachable(up)) => if up {
            s2 == ChromaStep::AwaitSummoner && a == ChromaAction::FetchSummoner
        } else {
            s2 == (ChromaStep::Failed { error: SelectError::ClientOffline }) && a
                == ChromaAction::Stop
        },
        (ChromaStep::AwaitSummoner, ChromaEvent::Summoner(res)) => match res {
            Ok(ids) => s2 == (ChromaStep::AwaitSession { summoner_id: ids.summoner_id }) && a
                == ChromaAction::FetchSession,
            Err(_) => s2 == (ChromaStep::Failed { error: SelectError::IdentityUnavailable }) && a
                == ChromaAction::Stop,
        },
        (ChromaStep::AwaitSession { summoner_id }, ChromaEvent::Session(res)) => match res {
            Ok(sess) => {
                let sel = spec_roster_selection(sess.my_team@, summoner_id);
                if sel.1 == 0 {
                    s2 == (ChromaStep::Failed { error: SelectError::NothingPicked }) && a
                        == ChromaAction::Stop
                } else {
                    s2 == (ChromaStep::AwaitInventory { selected_skin_id: sel.0 }) && a
                        == (ChromaAction::FetchInventory { summoner_id, champion_id: sel.1 })
                }
            },
            Err(_) => s2 == (ChromaStep::Failed { error: SelectError::NothingPicked }) && a
                == ChromaAction::Stop,
        },
        (ChromaStep::AwaitInventory { selected_skin_id }, ChromaEvent::Inventory(res)) => match res {
            Ok(inv) => {
                let cands = spec_chroma_candidates(inv@, selected_skin_id);
                if cands.len() == 0 {
                    s2 == (ChromaStep::Failed { error: SelectError::NoCandidates }) && a
                        == ChromaAction::Stop
                } else {
                    exists|k: int|
                        0 <= k < cands.len() && s2 == (ChromaStep::AwaitSubmit {
                            chroma_id: (#[trigger] cands[k]).id,
                            first_color: cands[k].first_color,
                        }) && a == (ChromaAction::Submit { skin_id: cands[k].id })
                }
            },
            Err(_) => s2 == (ChromaStep::Failed { error: SelectError::NotInChampSelect }) && a
                == ChromaAction::Stop,
        },
        (ChromaStep::AwaitSubmit { chroma_id: _, first_color }, ChromaEvent::SubmitResult(ok)) => if !ok {
            s2 == (ChromaStep::Failed { error: SelectError::SubmitFailed }) && a
                == ChromaAction::Stop
        } else {
            a == ChromaAction::Stop && match first_color {
                Some(col) => match spec_parse_color(col@) {
                    Some(v) => s2 == (ChromaStep::Done { color: v }),
                    None => s2 == (ChromaStep::Failed { error: SelectError::InvalidColorFormat }),
                },
                None => s2 == (ChromaStep::Failed { error: SelectError::InvalidColorFormat }),
            }
        },
        (s1, _) => s2 == s1 && a == ChromaAction::Stop,
    }
}

/// Advances the chroma workflow by one remote-call outcome.
pub fn chroma_step(state: ChromaStep, event: ChromaEvent) -> (r: (ChromaStep, ChromaAction))
    ensures
        chroma_transition(state, event, r.0, r.1),
{
    match (state, event) {
        (ChromaStep::Start, ChromaEvent::Begin) => (ChromaStep::AwaitReachable, ChromaAction::Probe),
        (ChromaStep::AwaitReachable, ChromaEvent::Reachable(up)) => if up {
            (ChromaStep::AwaitSummoner, ChromaAction::FetchSummoner)
        } else {
            (ChromaStep::Failed { error: SelectError::ClientOffline }, ChromaAction::Stop)
        },
        (ChromaStep::AwaitSummoner, ChromaEvent::Summoner(res)) => match res {
            Ok(ids) => (
                ChromaStep::AwaitSession { summoner_id: ids.summoner_id },
                ChromaAction::FetchSession,
            ),
            Err(_) => (
                ChromaStep::Failed { error: SelectError::IdentityUnavailable },
                ChromaAction::Stop,
            ),
        },
        (ChromaStep::AwaitSession { summoner_id }, ChromaEvent::Session(res)) => match res {
            Ok(sess) => {
                let sel = roster_selection(&sess.my_team, summoner_id);
                if sel.1 == 0 {
                    (ChromaStep::Failed { error: SelectError::NothingPicked }, ChromaAction::Stop)
                } else {
                    (
                        ChromaStep::AwaitInventory { selected_skin_id: sel.0 },
                        ChromaAction::FetchInventory { summoner_id, champion_id: sel.1 },
                    )
                }
            },
            Err(_) => (ChromaStep::Failed { error: SelectError::NothingPicked }, ChromaAction::Stop),
        },
        (ChromaStep::AwaitInventory { selected_skin_id }, ChromaEvent::Inventory(res)) => match res {
            Ok(inv) => {
                let cands = chroma_candidates(&inv, selected_skin_id);
                if cands.len() == 0 {
                    (ChromaStep::Failed { error: SelectError::NoCandidates }, ChromaAction::Stop)
                } else {
                    let k = pick_index(cands.len());
                    let chroma_id = cands[k].id;
                    let first_color = match &cands[k].first_color {
                        Some(col) => Some(col.clone()),
                        None => None,
                    };
                    (
                        ChromaStep::AwaitSubmit { chroma_id, first_color },
                        ChromaAction::Submit { skin_id: chroma_id },
                    )
                }
            },
            Err(_) => (
                ChromaStep::Failed { error: SelectError::NotInChampSelect },
                ChromaAction::Stop,
            ),
        },
        (ChromaStep::AwaitSubmit { chroma_id: _, first_color }, ChromaEvent::SubmitResult(ok)) => if !ok {
            (ChromaStep::Failed { error: SelectError::SubmitFailed }, ChromaAction::Stop)
        } else {
            match first_color {
                Some(col) => match parse_hex_color(col.as_str()) {
                    Some(v) => (ChromaStep::Done { color: v }, ChromaAction::Stop),
                    None => (
                        ChromaStep::Failed { error: SelectError::InvalidColorFormat },
                        ChromaAction::Stop,
                    ),
                },
                None => (
                    ChromaStep::Failed { error: SelectError::InvalidColorFormat },
                    ChromaAction::Stop,
                ),
            }
        },
        (s1, _) => (s1, ChromaAction::Stop),
    }
}

/// Law: the only step that ever asks for a commit is the reaction to a
/// successfully fetched inventory — no other state and no failed call
/// leads to a write.
pub proof fn lemma_submit_only_after_chroma_inventory(
    s: ChromaStep,
    e: ChromaEvent,
    s2: ChromaStep,
    a: ChromaAction,
)
    requires
        chroma_transition(s, e, s2, a),
        a matches ChromaAction::Submit { .. },
    ensures
        s matches ChromaStep::AwaitInventory { .. },
        e matches ChromaEvent::Inventory(res) && res is Ok,
{
}

/// Law: a chroma is committed only when it is owned — whenever the
/// workflow reacts to a fetched inventory by asking for a commit, the
/// committed id is an owned chroma of some inventory skin.
pub proof fn lemma_chroma_pick_is_owned(
    selected_skin_id: i64,
    inv: Vec<crate::models::ChampionsCollectionsChampionSkin>,
    s2: ChromaStep,
    a: ChromaAction,
)
    requires
        chroma_transition(
            ChromaStep::AwaitInventory { selected_skin_id },
            ChromaEvent::Inventory(Ok(inv)),
            s2,
            a,
        ),
        a matches ChromaAction::Submit { .. },
    ensures
        a matches ChromaAction::Submit { skin_id } ==> exists|i: int, j: int|
            0 <= i < inv@.len() && 0 <= j < (#[trigger] inv@[i]).chromas@.len()
                && (#[trigger] inv@[i].chromas@[j]).id == skin_id
                && inv@[i].chromas@[j].ownership.owned,
{
    let cands = spec_chroma_candidates(inv@, selected_skin_id);
    if cands.len() > 0 {
        let k = choose|k: int|
            0 <= k < cands.len() && s2 == (ChromaStep::AwaitSubmit {
                chroma_id: (#[trigger] cands[k]).id,
                first_color: cands[k].first_color,
            }) && a == (ChromaAction::Submit { skin_id: cands[k].id });
        crate::candidates::lemma_chroma_candidates_owned(inv@, selected_skin_id, k);
    }
}

} // verus!
