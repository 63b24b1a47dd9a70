use skin_randomizer::candidates::{chroma_candidates, roster_selection, skin_candidates};
use skin_randomizer::chroma_flow::chroma_step;
use skin_randomizer::models::{
    Bans, ChampSelectSession, ChampionsCollectionsChampionSkin, ChatDetails, Chroma,
    CurrentSummonerAccountAndSummonerIds, MucJwtDto, Ownership, Player, Timer,
};
use skin_randomizer::skin_flow::skin_step;
use skin_randomizer::{
    CallError, ChromaAction, ChromaEvent, ChromaStep, SelectError, SkinAction, SkinEvent, SkinStep,
};

fn chroma(id: i64, owned: bool, colors: Vec<&str>) -> Chroma {
    Chroma {
        champion_id: 5,
        chroma_path: String::new(),
        colors: colors.into_iter().map(|c| c.to_string()).collect(),
        disabled: false,
        id,
        last_selected: false,
        name: String::new(),
        ownership: Ownership {
            loyalty_reward: false,
            free_to_play_reward: None,
            owned,
            xbox_g_p_reward: false,
        },
        still_obtainable: false,
    }
}

fn skin(id: i64, name: &str, chromas: Vec<Chroma>) -> ChampionsCollectionsChampionSkin {
    ChampionsCollectionsChampionSkin {
        champion_id: 5,
        chroma_path: None,
        chromas,
        disabled: false,
        features_text: None,
        id,
        is_base: false,
        last_selected: false,
        load_screen_path: String::new(),
        name: name.to_string(),
        rarity_gem_path: String::new(),
        skin_type: String::new(),
        splash_path: String::new(),
        splash_video_path: None,
        still_obtainable: true,
        tile_path: String::new(),
        uncentered_splash_path: String::new(),
    }
}

fn player(summoner_id: i64, champion_id: i64, selected_skin_id: i64) -> Player {
    Player {
        cell_id: 0,
        champion_id,
        selected_skin_id,
        ward_skin_id: 0,
        spell1_id: 0,
        spell2_id: 0,
        team: 1,
        assigned_position: String::new(),
        champion_pick_intent: 0,
        player_type: String::new(),
        summoner_id,
        game_name: String::new(),
        tag_line: String::new(),
        puuid: String::new(),
        is_humanoid: true,
        name_visibility_type: String::new(),
        player_alias: String::new(),
        obfuscated_summoner_id: 0,
        obfuscated_puuid: String::new(),
        internal_name: String::new(),
        pick_mode: 0,
        pick_turn: 0,
    }
}

fn session(my_team: Vec<Player>) -> ChampSelectSession {
    ChampSelectSession {
        id: String::new(),
        game_id: 0,
        queue_id: 0,
        timer: Timer {
            adjusted_time_left_in_phase: 0,
            total_time_in_phase: 0,
            phase: String::new(),
            is_infinite: false,
            internal_now_in_epoch_ms: 0,
        },
        chat_details: ChatDetails {
            multi_user_chat_id: String::new(),
            multi_user_chat_password: String::new(),
            muc_jwt_dto: MucJwtDto {
                jwt: String::new(),
                channel_claim: String::new(),
                domain: String::new(),
                target_region: String::new(),
            },
        },
        my_team,
        their_team: Vec::new(),
        trades: Vec::new(),
        pick_order_swaps: Vec::new(),
        position_swaps: Vec::new(),
        bans: Bans { my_team_bans: Vec::new(), their_team_bans: Vec::new(), num_bans: 0 },
        local_player_cell_id: 0,
        is_spectating: false,
        allow_skin_selection: true,
        allow_subset_champion_picks: false,
        allow_duplicate_picks: false,
        allow_battle_boost: false,
        boostable_skin_count: 0,
        allow_rerolling: false,
        rerolls_remaining: 0,
        allow_locked_events: false,
        locked_event_index: 0,
        bench_enabled: false,
        bench_champions: Vec::new(),
        counter: 0,
        skip_champion_select: false,
        has_simultaneous_bans: false,
        has_simultaneous_picks: false,
        show_quit_button: true,
        is_legacy_champ_select: false,
        is_custom_game: false,
    }
}

fn ids() -> CurrentSummonerAccountAndSummonerIds {
    CurrentSummonerAccountAndSummonerIds { account_id: 70, summoner_id: 7 }
}

/// Runs the skin workflow against a scripted server; returns the final
/// state and how many commit calls were issued.
fn drive_skin(
    reachable: bool,
    eligibility: Result<Vec<i64>, CallError>,
    champion: Result<i64, CallError>,
    inventory: Result<Vec<ChampionsCollectionsChampionSkin>, CallError>,
    submit_ok: bool,
) -> (SkinStep, usize) {
    let mut state = SkinStep::Start;
    let mut event = SkinEvent::Begin;
    let mut submits: usize = 0;
    loop {
        let (next, action) = skin_step(state, event);
        state = next;
        event = match action {
            SkinAction::Probe => SkinEvent::Reachable(reachable),
            SkinAction::FetchSummoner => SkinEvent::Summoner(Ok(ids())),
            SkinAction::FetchEligibility => SkinEvent::Eligibility(eligibility.clone()),
            SkinAction::FetchChampion => SkinEvent::Champion(champion.clone()),
            SkinAction::FetchInventory { summoner_id, champion_id } => {
                assert_eq!(summoner_id, 7);
                assert_eq!(Ok(champion_id), champion);
                SkinEvent::Inventory(inventory.clone())
            }
            SkinAction::Submit { .. } => {
                submits += 1;
                SkinEvent::SubmitResult(submit_ok)
            }
            SkinAction::Stop => break,
        };
    }
    (state, submits)
}

fn drive_chroma(
    reachable: bool,
    sess: Result<ChampSelectSession, CallError>,
    inventory: Result<Vec<ChampionsCollectionsChampionSkin>, CallError>,
    submit_ok: bool,
) -> (ChromaStep, usize, Vec<i64>) {
    let mut state = ChromaStep::Start;
    let mut event = ChromaEvent::Begin;
    let mut submits: usize = 0;
    let mut submitted_ids: Vec<i64> = Vec::new();
    loop {
        let (next, action) = chroma_step(state, event);
        state = next;
        event = match action {
            ChromaAction::Probe => ChromaEvent::Reachable(reachable),
            ChromaAction::FetchSummoner => ChromaEvent::Summoner(Ok(ids())),
            ChromaAction::FetchSession => ChromaEvent::Session(sess.clone()),
            ChromaAction::FetchInventory { summoner_id, .. } => {
                assert_eq!(summoner_id, 7);
                ChromaEvent::Inventory(inventory.clone())
            }
            ChromaAction::Submit { skin_id } => {
                submits += 1;
                submitted_ids.push(skin_id);
                ChromaEvent::SubmitResult(submit_ok)
            }
            ChromaAction::Stop => break,
        };
    }
    (state, submits, submitted_ids)
}

#[test]
fn skin_candidates_are_the_eligible_inventory() {
    let inv = vec![skin(10, "A", vec![]), skin(11, "B", vec![]), skin(12, "C", vec![])];
    let c = skin_candidates(&inv, &vec![10, 11]);
    assert_eq!(c.len(), 2);
    assert_eq!((c[0].id, c[0].name.as_str()), (10, "A"));
    assert_eq!((c[1].id, c[1].name.as_str()), (11, "B"));
}

#[test]
fn skin_pick_is_always_eligible() {
    let inv = vec![skin(10, "A", vec![]), skin(11, "B", vec![]), skin(12, "C", vec![])];
    for _ in 0..50 {
        let (state, submits) = drive_skin(
            true,
            Ok(vec![10, 11]),
            Ok(5),
            Ok(inv.clone()),
            true,
        );
        assert_eq!(submits, 1);
        match state {
            SkinStep::Done { skin_name } => {
                assert!(skin_name == "A" || skin_name == "B");
            }
            other => panic!("workflow did not finish: {:?}", other),
        }
    }
}

#[test]
fn empty_intersection_fails_without_submit() {
    let inv = vec![skin(10, "A", vec![]), skin(11, "B", vec![])];
    let (state, submits) = drive_skin(true, Ok(vec![99]), Ok(5), Ok(inv), true);
    assert!(matches!(state, SkinStep::Failed { error: SelectError::NoCandidates }));
    assert_eq!(submits, 0);
}

#[test]
fn single_candidate_is_always_chosen() {
    let inv = vec![skin(10, "Only", vec![]), skin(12, "C", vec![])];
    let (state, submits) = drive_skin(true, Ok(vec![10]), Ok(5), Ok(inv), true);
    assert_eq!(submits, 1);
    match state {
        SkinStep::Done { skin_name } => assert_eq!(skin_name, "Only"),
        other => panic!("workflow did not finish: {:?}", other),
    }
}

#[test]
fn offline_client_fails_immediately() {
    let (state, submits) = drive_skin(false, Ok(vec![]), Ok(5), Ok(vec![]), true);
    assert!(matches!(state, SkinStep::Failed { error: SelectError::ClientOffline }));
    assert_eq!(submits, 0);
}

#[test]
fn eligibility_failure_means_not_in_champ_select() {
    let (state, _) = drive_skin(true, Err(CallError::Transport), Ok(5), Ok(vec![]), true);
    assert!(matches!(state, SkinStep::Failed { error: SelectError::NotInChampSelect }));
}

#[test]
fn inventory_failure_means_champion_not_picked() {
    let (state, _) = drive_skin(true, Ok(vec![10]), Ok(5), Err(CallError::Decode), true);
    assert!(matches!(state, SkinStep::Failed { error: SelectError::ChampionNotPicked }));
}

#[test]
fn failed_submit_is_reported_and_not_retried() {
    let inv = vec![skin(10, "A", vec![])];
    let (state, submits) = drive_skin(true, Ok(vec![10]), Ok(5), Ok(inv), false);
    assert!(matches!(state, SkinStep::Failed { error: SelectError::SubmitFailed }));
    assert_eq!(submits, 1);
}

#[test]
fn summoner_failure_is_identity_unavailable() {
    let (state, action) = skin_step(
        SkinStep::AwaitSummoner,
        SkinEvent::Summoner(Err(CallError::Transport)),
    );
    assert!(matches!(state, SkinStep::Failed { error: SelectError::IdentityUnavailable }));
    assert!(matches!(action, SkinAction::Stop));
}

#[test]
fn out_of_protocol_event_changes_nothing() {
    let (state, action) = skin_step(SkinStep::Start, SkinEvent::SubmitResult(true));
    assert!(matches!(state, SkinStep::Start));
    assert!(matches!(action, SkinAction::Stop));
    let (state, action) = chroma_step(ChromaStep::AwaitSummoner, ChromaEvent::Begin);
    assert!(matches!(state, ChromaStep::AwaitSummoner));
    assert!(matches!(action, ChromaAction::Stop));
}

#[test]
fn roster_selection_finds_own_seat() {
    let team = vec![player(1, 2, 3), player(7, 5, 20), player(9, 9, 9)];
    assert_eq!(roster_selection(&team, 7), (20, 5));
    assert_eq!(roster_selection(&team, 42), (0, 0));
}

#[test]
fn chroma_of_selected_chroma_id_comes_from_its_skin() {
    // The seat's selected id 20 is a chroma of skin 10: the candidates
    // are skin 10's owned chromas, here exactly id 20.
    let inv = vec![
        skin(10, "A", vec![chroma(20, true, vec!["#AABBCC"]), chroma(25, false, vec!["#000000"])]),
        skin(20, "B", vec![chroma(21, true, vec![]), chroma(22, true, vec![])]),
    ];
    let c = chroma_candidates(&inv, 20);
    assert_eq!(c.len(), 1);
    assert_eq!(c[0].id, 20);
    let sess = session(vec![player(7, 5, 20)]);
    let (state, submits, submitted) = drive_chroma(true, Ok(sess), Ok(inv), true);
    assert_eq!(submits, 1);
    assert_eq!(submitted, vec![20]);
    match state {
        ChromaStep::Done { color } => assert_eq!(color, 0xAABBCC),
        other => panic!("workflow did not finish: {:?}", other),
    }
}

#[test]
fn chroma_falls_back_to_directly_selected_skin() {
    // No skin's chroma list contains 20, but skin 20 itself exists with
    // owned chromas 21 and 22: they are exactly the candidates.
    let inv = vec![
        skin(10, "A", vec![chroma(30, true, vec!["#111111"])]),
        skin(20, "B", vec![chroma(21, true, vec!["#222222"]), chroma(22, true, vec!["#333333"])]),
    ];
    let c = chroma_candidates(&inv, 20);
    let ids: Vec<i64> = c.iter().map(|x| x.id).collect();
    assert_eq!(ids, vec![21, 22]);
}

#[test]
fn unowned_chromas_are_never_candidates() {
    let inv = vec![skin(20, "B", vec![chroma(21, false, vec![]), chroma(22, true, vec![])])];
    let c = chroma_candidates(&inv, 20);
    let ids: Vec<i64> = c.iter().map(|x| x.id).collect();
    assert_eq!(ids, vec![22]);
}

#[test]
fn malformed_color_is_reported_after_successful_submit() {
    let inv = vec![skin(10, "A", vec![chroma(20, true, vec!["zzzzzz"])])];
    let sess = session(vec![player(7, 5, 20)]);
    let (state, submits, _) = drive_chroma(true, Ok(sess), Ok(inv), true);
    assert_eq!(submits, 1);
    assert!(matches!(state, ChromaStep::Failed { error: SelectError::InvalidColorFormat }));
}

#[test]
fn chroma_without_colors_is_invalid_color_format() {
    let inv = vec![skin(10, "A", vec![chroma(20, true, vec![])])];
    let sess = session(vec![player(7, 5, 20)]);
    let (state, _, _) = drive_chroma(true, Ok(sess), Ok(inv), true);
    assert!(matches!(state, ChromaStep::Failed { error: SelectError::InvalidColorFormat }));
}

#[test]
fn absent_seat_or_no_champion_is_nothing_picked() {
    let sess = session(vec![player(1, 2, 3)]);
    let (state, submits, _) = drive_chroma(true, Ok(sess), Ok(vec![]), true);
    assert!(matches!(state, ChromaStep::Failed { error: SelectError::NothingPicked }));
    assert_eq!(submits, 0);
    let sess = session(vec![player(7, 0, 20)]);
    let (state, _, _) = drive_chroma(true, Ok(sess), Ok(vec![]), true);
    assert!(matches!(state, ChromaStep::Failed { error: SelectError::NothingPicked }));
}

#[test]
fn session_failure_is_nothing_picked() {
    let (state, _, _) = drive_chroma(true, Err(CallError::Transport), Ok(vec![]), true);
    assert!(matches!(state, ChromaStep::Failed { error: SelectError::NothingPicked }));
}

#[test]
fn chroma_inventory_failure_is_not_in_champ_select() {
    let sess = session(vec![player(7, 5, 20)]);
    let (state, _, _) = drive_chroma(true, Ok(sess), Err(CallError::Decode), true);
    assert!(matches!(state, ChromaStep::Failed { error: SelectError::NotInChampSelect }));
}

#[test]
fn no_chroma_candidates_fails_without_submit() {
    let inv = vec![skin(10, "A", vec![chroma(30, false, vec![])])];
    let sess = session(vec![player(7, 5, 20)]);
    let (state, submits, _) = drive_chroma(true, Ok(sess), Ok(inv), true);
    assert!(matches!(state, ChromaStep::Failed { error: SelectError::NoCandidates }));
    assert_eq!(submits, 0);
}

#[test]
fn failed_chroma_submit_is_submit_failed() {
    let inv = vec![skin(10, "A", vec![chroma(20, true, vec!["#AABBCC"])])];
    let sess = session(vec![player(7, 5, 20)]);
    let (state, submits, _) = drive_chroma(true, Ok(sess), Ok(inv), false);
    assert!(matches!(state, ChromaStep::Failed { error: SelectError::SubmitFailed }));
    assert_eq!(submits, 1);
}
