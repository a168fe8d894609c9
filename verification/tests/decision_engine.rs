use overseer_core::actors::{
    mutation_for_ban, mutation_for_hover, mutation_for_pick, ActionMutation, ChampionBanner,
    ChampionHoverer, ChampionPicker,
};
use overseer_core::decision::{choose_champion, no_decision};
use overseer_core::engine::{find_active_action, find_pick_action, resolve_role};
use overseer_core::models::{ChampSelectSessionPayload, CsAction, CsPlayer, CsTimer};
use overseer_core::preferences::{BanPreferences, ChampionPreferences};
use overseer_core::request::BanPickRequest;
use overseer_core::strategy::{BanStrategy, PickingStrategy, PriorityBanStrategy, PriorityPickStrategy};
use overseer_core::subscriber::AutoPickBanSubscriber;

fn act(id: i64, actor: i64, champ: i64, completed: bool, in_progress: bool, kind: &str) -> CsAction {
    CsAction {
        id,
        actor_cell_id: actor,
        champion_id: champ,
        completed,
        is_in_progress: in_progress,
        action_type: kind.to_string(),
    }
}

fn player(cell: i64, champ: i64, pos: Option<&str>) -> CsPlayer {
    CsPlayer {
        cell_id: cell,
        champion_id: champ,
        assigned_position: pos.map(|s| s.to_string()),
    }
}

fn session(
    actions: Vec<Vec<CsAction>>,
    my_team: Vec<CsPlayer>,
    their_team: Vec<CsPlayer>,
    local: i64,
    queue: i64,
    phase: &str,
) -> ChampSelectSessionPayload {
    ChampSelectSessionPayload {
        actions,
        my_team,
        their_team,
        local_player_cell_id: local,
        queue_id: queue,
        timer: CsTimer {
            phase: phase.to_string(),
            adjusted_time_left_in_phase: Some(30000),
            total_time_in_phase: Some(60000),
        },
    }
}

fn draft_session(phase: &str) -> ChampSelectSessionPayload {
    session(
        vec![
            vec![
                act(1, 0, 64, true, false, "ban"),
                act(2, 5, 103, true, false, "ban"),
            ],
            vec![
                act(3, 0, 157, false, true, "pick"),
                act(4, 1, 24, true, false, "pick"),
                act(5, 5, 11, true, false, "pick"),
                act(6, 2, 99, false, false, "pick"),
            ],
        ],
        vec![player(0, 0, Some("MIDDLE")), player(1, 24, Some("TOP")), player(2, 0, Some("BOTTOM"))],
        vec![player(5, 11, None), player(6, 0, None)],
        0,
        420,
        phase,
    )
}

#[test]
fn request_from_session_collects_context() {
    let s = draft_session("BAN_PICK");
    let req = BanPickRequest::from_session(&s, "middle");
    assert_eq!(req.role, "middle");
    assert_eq!(req.queue_id, 420);
    assert_eq!(req.banned, vec![64, 103]);
    assert_eq!(req.my_team, vec![24]);
    assert_eq!(req.their_team, vec![11]);
    assert_eq!(req.intended_picks, vec![157, 99]);
    assert_eq!(req.my_pick, Some(157));
}

#[test]
fn request_ignores_zero_champion_actions() {
    let s = session(
        vec![vec![act(1, 0, 0, true, false, "ban"), act(2, 0, 0, false, true, "pick")]],
        vec![player(0, 0, Some("TOP"))],
        vec![],
        0,
        420,
        "BAN_PICK",
    );
    let req = BanPickRequest::from_session(&s, "top");
    assert!(req.banned.is_empty());
    assert!(req.intended_picks.is_empty());
    assert_eq!(req.my_pick, None);
}

#[test]
fn resolve_role_lowercases_assigned_position() {
    let s = draft_session("PLANNING");
    assert_eq!(resolve_role(&s).as_deref(), Some("middle"));
}

#[test]
fn resolve_role_defaults_to_support_in_practice_tool() {
    // queueId 3140 with an empty assigned position resolves to "support"
    let s = session(
        vec![],
        vec![player(0, 0, Some(""))],
        vec![],
        0,
        3140,
        "PLANNING",
    );
    assert_eq!(resolve_role(&s).as_deref(), Some("support"));
}

#[test]
fn resolve_role_fails_on_empty_position_outside_practice_tool() {
    let s = session(vec![], vec![player(0, 0, None)], vec![], 0, 420, "PLANNING");
    assert_eq!(resolve_role(&s), None);
}

#[test]
fn resolve_role_fails_without_roster_entry() {
    let s = session(vec![], vec![player(1, 0, Some("TOP"))], vec![], 0, 420, "PLANNING");
    assert_eq!(resolve_role(&s), None);
}

#[test]
fn find_active_action_picks_first_in_progress_group() {
    let s = draft_session("BAN_PICK");
    let a = find_active_action(&s).expect("active action");
    assert_eq!(a.id, 3);
}

#[test]
fn find_active_action_requires_local_uncompleted_action() {
    // the first in-progress group holds no uncompleted local action
    let s = session(
        vec![vec![act(1, 5, 64, false, true, "ban")], vec![act(2, 0, 0, false, false, "pick")]],
        vec![player(0, 0, Some("TOP"))],
        vec![player(5, 0, None)],
        0,
        420,
        "BAN_PICK",
    );
    assert!(find_active_action(&s).is_none());
}

#[test]
fn find_pick_action_finds_local_pick_anywhere() {
    let s = draft_session("PLANNING");
    let a = find_pick_action(&s).expect("pick action");
    assert_eq!(a.id, 3);
}

fn prefs_for(role: &str, ids: Vec<i64>) -> ChampionPreferences {
    let mut p = ChampionPreferences::new();
    p.set_role(role, ids);
    p
}

fn ban_prefs_for(role: &str, ids: Vec<i64>) -> BanPreferences {
    let mut p = BanPreferences::new();
    p.set_for_role(role, ids);
    p
}

fn req(
    role: &str,
    banned: Vec<i64>,
    my_team: Vec<i64>,
    their_team: Vec<i64>,
    intended: Vec<i64>,
    my_pick: Option<i64>,
) -> BanPickRequest {
    BanPickRequest {
        role: role.to_string(),
        banned,
        my_team,
        their_team,
        intended_picks: intended,
        queue_id: 420,
        my_pick,
    }
}

#[test]
fn pick_strategy_takes_first_open_candidate() {
    let s = PriorityPickStrategy::new(prefs_for("top", vec![64, 12, 55]));
    let d = s.decide(&req("top", vec![64], vec![], vec![], vec![], None));
    assert!(d.has_choice());
    assert_eq!(d.champion_id(), 12);
}

#[test]
fn pick_strategy_skips_locked_champions() {
    let s = PriorityPickStrategy::new(prefs_for("top", vec![64, 12, 55]));
    let d = s.decide(&req("top", vec![], vec![64], vec![12], vec![], None));
    assert_eq!(d.champion_id(), 55);
}

#[test]
fn pick_strategy_keeps_current_pick_even_when_banned() {
    // stability: the candidate equal to the current pick wins at its
    // position even though it is banned
    let s = PriorityPickStrategy::new(prefs_for("top", vec![64, 12]));
    let d = s.decide(&req("top", vec![64, 12], vec![], vec![], vec![], Some(12)));
    assert_eq!(d.champion_id(), 12);
}

#[test]
fn pick_strategy_returns_no_choice_when_all_filtered() {
    let s = PriorityPickStrategy::new(prefs_for("top", vec![64, 12]));
    let d = s.decide(&req("top", vec![64], vec![], vec![12], vec![], None));
    assert!(!d.has_choice());
    assert_eq!(d.champion_id(), 0);
}

#[test]
fn pick_strategy_reads_role_case_insensitively() {
    let s = PriorityPickStrategy::new(prefs_for("ToP", vec![7]));
    let d = s.decide(&req("TOP", vec![], vec![], vec![], vec![], None));
    assert_eq!(d.champion_id(), 7);
}

#[test]
fn ban_strategy_skips_banned_then_chooses() {
    // preference list [64, 12] with 64 already banned decides Choice(12)
    let s = PriorityBanStrategy::new(ban_prefs_for("top", vec![64, 12]));
    let d = s.decide(&req("top", vec![64], vec![], vec![], vec![], None));
    assert!(d.has_choice());
    assert_eq!(d.champion_id(), 12);
}

#[test]
fn ban_strategy_respects_ally_intent() {
    let s = PriorityBanStrategy::new(ban_prefs_for("top", vec![64, 12]));
    let d = s.decide(&req("top", vec![], vec![], vec![], vec![64, 12], None));
    assert!(!d.has_choice());
}

#[test]
fn hover_mutation_sets_champion_without_completing() {
    let s = draft_session("PLANNING");
    let m = mutation_for_hover(&s, &choose_champion(103)).expect("mutation");
    assert_eq!(
        m,
        ActionMutation { action_id: 3, champion_id: 103, completed: false }
    );
}

#[test]
fn hover_is_idempotent_once_snapshot_reflects_choice() {
    // first call issues the mutation; once the snapshot shows the
    // chosen champion on the pick action, the same choice issues none
    let before = draft_session("PLANNING");
    let d = choose_champion(103);
    let m = mutation_for_hover(&before, &d).expect("mutation");
    let mut after = draft_session("PLANNING");
    after.actions[1][0].champion_id = m.champion_id;
    assert_eq!(mutation_for_hover(&after, &d), None);
}

#[test]
fn hover_does_nothing_without_choice_or_action() {
    let s = draft_session("PLANNING");
    assert_eq!(mutation_for_hover(&s, &no_decision()), None);
    let empty = session(vec![], vec![], vec![], 0, 420, "PLANNING");
    assert_eq!(mutation_for_hover(&empty, &choose_champion(1)), None);
}

#[test]
fn hover_skips_completed_pick_action() {
    let mut s = draft_session("PLANNING");
    s.actions[1][0].completed = true;
    assert_eq!(mutation_for_hover(&s, &choose_champion(103)), None);
}

#[test]
fn picker_requires_action_in_progress() {
    // the pick guard: no mutation while the action is not in progress
    let idle = act(9, 0, 0, false, false, "pick");
    assert_eq!(mutation_for_pick(&idle, &choose_champion(64)), None);
    let live = act(9, 0, 0, false, true, "pick");
    let m = mutation_for_pick(&live, &choose_champion(64)).expect("mutation");
    assert_eq!(m, ActionMutation { action_id: 9, champion_id: 64, completed: true });
}

#[test]
fn banner_fires_regardless_of_in_progress() {
    // the ban actor needs no in-progress check
    let idle = act(9, 0, 0, false, false, "ban");
    let m = mutation_for_ban(&idle, &choose_champion(64)).expect("mutation");
    assert_eq!(m, ActionMutation { action_id: 9, champion_id: 64, completed: true });
    assert_eq!(mutation_for_ban(&idle, &no_decision()), None);
}

fn subscriber_with(
    pick_list: Vec<i64>,
    ban_list: Vec<i64>,
) -> AutoPickBanSubscriber<
    ChampionHoverer<PriorityPickStrategy>,
    ChampionPicker<PriorityPickStrategy>,
    ChampionBanner<PriorityBanStrategy>,
> {
    AutoPickBanSubscriber::new(
        ChampionHoverer::new(PriorityPickStrategy::new(prefs_for("middle", pick_list.clone()))),
        ChampionPicker::new(PriorityPickStrategy::new(prefs_for("middle", pick_list))),
        ChampionBanner::new(PriorityBanStrategy::new(ban_prefs_for("middle", ban_list))),
    )
}

#[test]
fn subscriber_hovers_in_planning() {
    let sub = subscriber_with(vec![103, 517], vec![]);
    let s = draft_session("PLANNING");
    // 103 is already banned in this draft, so the strategy settles on 517
    let m = sub.handle_session(&s).expect("hover mutation");
    assert_eq!(m, ActionMutation { action_id: 3, champion_id: 517, completed: false });
}

#[test]
fn subscriber_picks_in_ban_pick_phase() {
    let sub = subscriber_with(vec![517], vec![]);
    let s = draft_session("BAN_PICK");
    let m = sub.handle_session(&s).expect("pick mutation");
    assert_eq!(m, ActionMutation { action_id: 3, champion_id: 517, completed: true });
}

#[test]
fn subscriber_bans_on_ban_action() {
    let sub = subscriber_with(vec![], vec![201]);
    let s = session(
        vec![vec![act(7, 0, 0, false, true, "ban")]],
        vec![player(0, 0, Some("MIDDLE"))],
        vec![],
        0,
        420,
        "BAN_PICK",
    );
    let m = sub.handle_session(&s).expect("ban mutation");
    assert_eq!(m, ActionMutation { action_id: 7, champion_id: 201, completed: true });
}

#[test]
fn subscriber_ignores_other_phases() {
    let sub = subscriber_with(vec![103], vec![201]);
    let s = draft_session("FINALIZATION");
    assert_eq!(sub.handle_session(&s), None);
}

#[test]
fn subscriber_does_nothing_without_role() {
    let sub = subscriber_with(vec![103], vec![201]);
    let mut s = draft_session("PLANNING");
    s.my_team[0].assigned_position = None;
    assert_eq!(sub.handle_session(&s), None);
}
