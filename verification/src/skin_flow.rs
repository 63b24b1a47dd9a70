//! The randomized skin-selection workflow.
//!
//! The workflow is a fixed pipeline of sequential remote calls: probe
//! reachability, fetch the summoner identity, the eligibility set, the
//! locked champion, and the champion's skin inventory; then pick one
//! eligible skin uniformly at random and commit it. The pipeline is
//! modeled as a state machine: `skin_step` consumes the current state
//! and the outcome of the last remote call, and returns the next state
//! together with the next call to issue. The surrounding application
//! performs the calls; every decision in between is verified here.
//!
//! Reads are best-effort and ordered; the single write (the commit) is
//! issued only after all data is gathered and is never retried: a failed
//! commit ends the workflow with `SubmitFailed`.

use vstd::prelude::*;

verus! {

use crate::candidates::{SkinChoice, skin_candidates, spec_skin_candidates};
use crate::errors::{CallError, SelectError};
use crate::models::CurrentSummonerAccountAndSummonerIds;
use crate::random::pick_index;

/// Where the skin workflow stands.
#[derive(Debug)]
pub enum SkinStep {
    /// Nothing has happened yet.
    Start,
    /// The reachability probe is out.
    AwaitReachable,
    /// The summoner-identity fetch is out.
    AwaitSummoner,
    /// The eligibility-set fetch is out.
    AwaitEligibility { summoner_id: i64 },
    /// The locked-champion fetch is out.
    AwaitChampion { summoner_id: i64, eligible: Vec<i64> },
    /// The inventory fetch is out.
    AwaitInventory { eligible: Vec<i64> },
    /// The commit of the chosen skin is out.
    AwaitSubmit { skin_id: i64, skin_name: String },
    /// The chosen skin was committed.
    Done { skin_name: String },
    /// The workflow ended without a committed pick.
    Failed { error: SelectError },
}

/// The outcome of the remote call the workflow last asked for.
#[derive(Debug)]
pub enum SkinEvent {
    /// Start the workflow.
    Begin,
    /// Whether the reachability probe got any response.
    Reachable(bool),
    /// The summoner identity, or the call's failure.
    Summoner(Result<CurrentSummonerAccountAndSummonerIds, CallError>),
    /// The currently pickable skin ids, or the call's failure.
    Eligibility(Result<Vec<i64>, CallError>),
    /// The locked-in champion id, or the call's failure.
    Champion(Result<i64, CallError>),
    /// The champion's skin inventory, or the call's failure.
    Inventory(Result<Vec<crate::models::ChampionsCollectionsChampionSkin>, CallError>),
    /// Whether the selection commit succeeded.
    SubmitResult(bool),
}

/// The remote call the workflow asks for next.
#[derive(Debug)]
pub enum SkinAction {
    /// Probe reachability.
    Probe,
    /// Fetch the current summoner identity.
    FetchSummoner,
    /// Fetch the eligibility set.
    FetchEligibility,
    /// Fetch the locked champion id.
    FetchChampion,
    /// Fetch the skin inventory of `(summoner_id, champion_id)`.
    FetchInventory { summoner_id: i64, champion_id: i64 },
    /// Commit `skin_id` as the selection.
    Submit { skin_id: i64 },
    /// The workflow is over; no further call.
    Stop,
}

/// The transition relation of the skin workflow. It is deterministic in
/// everything but the random pick: there, the successor commits some
/// candidate, and which one is the only freedom.
pub open spec fn skin_transition(s: SkinStep, e: SkinEvent, s2: SkinStep, a: SkinAction) -> bool {
    match (s, e) {
        (SkinStep::Start, SkinEvent::Begin) => s2 == SkinStep::AwaitReachable && a
            == SkinAction::Probe,
        (SkinStep::AwaitReachable, SkinEvent::Reachable(up)) => if up {
            s2 == SkinStep::AwaitSummoner && a == SkinAction::FetchSummoner
        } else {
            s2 == (SkinStep::Failed { error: SelectError::ClientOffline }) && a == SkinAction::Stop
        },
        (SkinStep::AwaitSummoner, SkinEvent::Summoner(res)) => match res {
            Ok(ids) => s2 == (SkinStep::AwaitEligibility { summoner_id: ids.summoner_id }) && a
                == SkinAction::FetchEligibility,
            Err(_) => s2 == (SkinStep::Failed { error: SelectError::IdentityUnavailable }) && a
                == SkinAction::Stop,
        },
        (SkinStep::AwaitEligibility { summoner_id }, SkinEvent::Eligibility(res)) => match res {
            Ok(ids) => s2 == (SkinStep::AwaitChampion { summoner_id, eligible: ids }) && a
                == SkinAction::FetchChampion,
            Err(_) => s2 == (SkinStep::Failed { error: SelectError::NotInChampSelect }) && a
                == SkinAction::Stop,
        },
        (SkinStep::AwaitChampion { summoner_id, eligible }, SkinEvent::Champion(res)) => match res {
            Ok(champion_id) => s2 == (SkinStep::AwaitInventory { eligible }) && a
                == (SkinAction::FetchInventory { summoner_id, champion_id }),
            Err(_) => s2 == (SkinStep::Failed { error: SelectError::NotInChampSelect }) && a
                == SkinAction::Stop,
        },
        (SkinStep::AwaitInventory { eligible }, SkinEvent::Inventory(res)) => match res {
            Ok(inv) => {
                let cands = spec_skin_candidates(inv@, eligible@);
                if cands.len() == 0 {
                    s2 == (SkinStep::Failed { error: SelectError::NoCandidates }) && a
                        == SkinAction::Stop
                } else {
                    exists|k: int|
                        0 <= k < cands.len() && s2 == (SkinStep::AwaitSubmit {
                            skin_id: (#[trigger] cands[k]).id,
                            skin_name: cands[k].name,
                        }) && a == (SkinAction::Submit { skin_id: cands[k].id })
                }
            },
            Err(_) => s2 == (SkinStep::Failed { error: SelectError::ChampionNotPicked }) && a
                == SkinAction::Stop,
        },
        (SkinStep::AwaitSubmit { skin_id, skin_name }, SkinEvent::SubmitResult(ok)) => if ok {
            s2 == (SkinStep::Done { skin_name }) && a == SkinAction::Stop
        } else {
            s2 == (SkinStep::Failed { error: SelectError::SubmitFailed }) && a == SkinAction::Stop
        },
        (s1, _) => s2 == s1 && a == SkinAction::Stop,
    }
}

/// Advances the skin workflow by one remote-call outcome.
pub fn skin_step(state: SkinStep, event: SkinEvent) -> (r: (SkinStep, SkinAction))
    ensures
        skin_transition(state, event, r.0, r.1),
{
    match (state, event) {
        (SkinStep::Start, SkinEvent::Begin) => (SkinStep::AwaitReachable, SkinAction::Probe),
        (SkinStep::AwaitReachable, SkinEvent::Reachable(up)) => if up {
            (SkinStep::AwaitSummoner, SkinAction::FetchSummoner)
        } else {
            (SkinStep::Failed { error: SelectError::ClientOffline }, SkinAction::Stop)
        },
        (SkinStep::AwaitSummoner, SkinEvent::Summoner(res)) => match res {
            Ok(ids) => (
                SkinStep::AwaitEligibility { summoner_id: ids.summoner_id },
                SkinAction::FetchEligibility,
            ),
            Err(_) => (
                SkinStep::Failed { error: SelectError::IdentityUnavailable },
                SkinAction::Stop,
            ),
        },
        (SkinStep::AwaitEligibility { summoner_id }, SkinEvent::Eligibility(res)) => match res {
            Ok(ids) => (
                SkinStep::AwaitChampion { summoner_id, eligible: ids },
                SkinAction::FetchChampion,
            ),
            Err(_) => (SkinStep::Failed { error: SelectError::NotInChampSelect }, SkinAction::Stop),
        },
        (SkinStep::AwaitChampion { summoner_id, eligible }, SkinEvent::Champion(res)) => match res {
            Ok(champion_id) => (
                SkinStep::AwaitInventory { eligible },
                SkinAction::FetchInventory { summoner_id, champion_id },
            ),
            Err(_) => (SkinStep::Failed { error: SelectError::NotInChampSelect }, SkinAction::Stop),
        },
        (SkinStep::AwaitInventory { eligible }, SkinEvent::Inventory(res)) => match res {
            Ok(inv) => {
                let cands = skin_candidates(&inv, &eligible);
                if cands.len() == 0 {
                    (SkinStep::Failed { error: SelectError::NoCandidates }, SkinAction::Stop)
                } else {
                    let k = pick_index(cands.len());
                    let skin_id = cands[k].id;
                    let skin_name = cands[k].name.clone();
                    (SkinStep::AwaitSubmit { skin_id, skin_name }, SkinAction::Submit { skin_id })
                }
            },
            Err(_) => (
                SkinStep::Failed { error: SelectError::ChampionNotPicked },
                SkinAction::Stop,
            ),
        },
        (SkinStep::AwaitSubmit { skin_id: _, skin_name }, SkinEvent::SubmitResult(ok)) => if ok {
            (SkinStep::Done { skin_name }, SkinAction::Stop)
        } else {
            (SkinStep::Failed { error: SelectError::SubmitFailed }, SkinAction::Stop)
        },
        (s1, _) => (s1, SkinAction::Stop),
    }
}

/// Law: a skin is committed only when it is eligible — whenever the
/// workflow reacts to a fetched inventory by asking for a commit, the
/// committed id is in the eligibility set and belongs to some inventory
/// entry, whose name the workflow reports.
pub proof fn lemma_skin_pick_is_eligible(
    eligible: Vec<i64>,
    inv: Vec<crate::models::ChampionsCollectionsChampionSkin>,
    s2: SkinStep,
    a: SkinAction,
)
    requires
        skin_transition(
            SkinStep::AwaitInventory { eligible },
            SkinEvent::Inventory(Ok(inv)),
            s2,
            a,
        ),
        a matches SkinAction::Submit { .. },
    ensures
        s2 matches SkinStep::AwaitSubmit { .. },
        s2 matches SkinStep::AwaitSubmit { skin_id, skin_name } ==> {
            &&& (a matches SkinAction::Submit { skin_id: sid } && sid == skin_id)
            &&& eligible@.contains(skin_id)
            &&& exists|j: int|
                0 <= j < inv@.len() && (#[trigger] inv@[j]).id == skin_id && inv@[j].name
                    == skin_name
        },
{
    let cands = spec_skin_candidates(inv@, eligible@);
    if cands.len() > 0 {
        let k = choose|k: int|
            0 <= k < cands.len() && s2 == (SkinStep::AwaitSubmit {
                skin_id: (#[trigger] cands[k]).id,
                skin_name: cands[k].name,
            }) && a == (SkinAction::Submit { skin_id: cands[k].id });
        crate::candidates::lemma_skin_candidates_sound(inv@, eligible@, k);
    }
}

/// Law: the only step that ever asks for a commit is the reaction to a
/// successfully fetched inventory — no other state and no failed call
/// leads to a write, and the committed id is then eligible.
pub proof fn lemma_submit_only_after_inventory(s: SkinStep, e: SkinEvent, s2: SkinStep, a: SkinAction)
    requires
        skin_transition(s, e, s2, a),
        a matches SkinAction::Submit { .. },
    ensures
        s matches SkinStep::AwaitInventory { .. },
        e matches SkinEvent::Inventory(res) && res is Ok,
        s matches SkinStep::AwaitInventory { eligible } ==> (a matches SkinAction::Submit {
            skin_id,
        } ==> eligible@.contains(skin_id)),
{
    match (s, e) {
        (SkinStep::AwaitInventory { eligible }, SkinEvent::Inventory(res)) => match res {
            Ok(inv) => {
                lemma_skin_pick_is_eligible(eligible, inv, s2, a);
            },
            Err(_) => {},
        },
        _ => {},
    }
}

/// Law: an empty candidate list never reaches the commit — the workflow
/// ends with `NoCandidates` and asks for no further call.
pub proof fn lemma_no_candidates_no_submit(
    eligible: Vec<i64>,
    inv: Vec<crate::models::ChampionsCollectionsChampionSkin>,
    s2: SkinStep,
    a: SkinAction,
)
    requires
        skin_transition(
            SkinStep::AwaitInventory { eligible },
            SkinEvent::Inventory(Ok(inv)),
            s2,
            a,
        ),
        spec_skin_candidates(inv@, eligible@).len() == 0,
    ensures
        s2 == (SkinStep::Failed { error: SelectError::NoCandidates }),
        a == SkinAction::Stop,
{
}

} // verus!
