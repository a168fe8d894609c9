use overseer_core::catalog::ChampionCatalog;
use overseer_core::models::{ChampSelectSessionPayload, CsPlayer, CsTimer};
use overseer_core::preferences::ChampionPreferences;
use overseer_core::runes::{
    plan_rune_sync, rune_sync_phase_gate, same_page, ActiveLoadout, RunePage, RunePageManager,
    RunePickRequest, RuneSyncPlan,
};

fn page(id: &str, name: &str, champions: &[&str], role: Option<&str>) -> RunePage {
    RunePage {
        id: id.to_string(),
        name: name.to_string(),
        champions: champions.iter().map(|c| c.to_string()).collect(),
        role: role.map(|r| r.to_string()),
        primary_tree_id: Some(8100),
        primary_picks: vec![Some(8112), Some(8143), Some(8138), Some(8135)],
        secondary_tree_id: Some(8300),
        secondary_picks: vec![Some(8345), Some(8347)],
        shards: vec![Some(5008), Some(5008), Some(5002)],
    }
}

#[test]
fn collect_perk_ids_keeps_fixed_slot_order() {
    let p = page("p1", "Assassin", &["Zed"], None);
    assert_eq!(
        p.collect_perk_ids(),
        vec![8112, 8143, 8138, 8135, 8345, 8347, 5008, 5008, 5002]
    );
}

#[test]
fn collect_perk_ids_skips_unset_slots() {
    let mut p = page("p1", "Assassin", &["Zed"], None);
    p.primary_picks = vec![Some(8112), None, Some(8138)];
    p.secondary_picks = vec![None, Some(8347)];
    p.shards = vec![Some(5008)];
    assert_eq!(p.collect_perk_ids(), vec![8112, 8138, 8347, 5008]);
}

fn live_for(p: &RunePage) -> ActiveLoadout {
    ActiveLoadout {
        id: Some(77),
        primary_style: 8100,
        sub_style: 8300,
        perk_ids: p.collect_perk_ids(),
    }
}

#[test]
fn same_page_ignores_perk_order() {
    let p = page("p1", "Assassin", &["Zed"], None);
    let mut live = live_for(&p);
    live.perk_ids.reverse();
    assert!(same_page(&p, &live));
}

#[test]
fn same_page_counts_duplicates() {
    let p = page("p1", "Assassin", &["Zed"], None);
    let mut live = live_for(&p);
    // swap one of the duplicated shards for the other id: the sets as
    // plain sets would agree, the multisets do not
    live.perk_ids = vec![8112, 8143, 8138, 8135, 8345, 8347, 5008, 5002, 5002];
    assert!(!same_page(&p, &live));
}

#[test]
fn same_page_requires_style_match() {
    let p = page("p1", "Assassin", &["Zed"], None);
    let mut live = live_for(&p);
    live.sub_style = 8400;
    assert!(!same_page(&p, &live));
}

#[test]
fn identical_live_loadout_is_kept() {
    // the rune diff no-op: equal perk sets and equal style ids mean no
    // delete and no create
    let p = page("p1", "Assassin", &["Zed"], None);
    let mut live = live_for(&p);
    live.perk_ids.reverse();
    assert!(matches!(plan_rune_sync(&p, &Some(live)), RuneSyncPlan::Keep));
}

#[test]
fn divergent_live_loadout_is_replaced() {
    let p = page("p1", "Assassin", &["Zed"], None);
    let mut live = live_for(&p);
    live.perk_ids[0] = 9999;
    match plan_rune_sync(&p, &Some(live)) {
        RuneSyncPlan::Keep => panic!("expected a replacement"),
        RuneSyncPlan::Replace { delete_id, name, primary_style, sub_style, perk_ids } => {
            assert_eq!(delete_id, Some(77));
            assert_eq!(name, "Assassin");
            assert_eq!(primary_style, 8100);
            assert_eq!(sub_style, 8300);
            assert_eq!(perk_ids, p.collect_perk_ids());
        },
    }
}

#[test]
fn unreadable_live_loadout_is_replaced_without_delete() {
    let p = page("p1", "Assassin", &["Zed"], None);
    match plan_rune_sync(&p, &None) {
        RuneSyncPlan::Keep => panic!("expected a replacement"),
        RuneSyncPlan::Replace { delete_id, .. } => assert_eq!(delete_id, None),
    }
}

#[test]
fn find_best_page_matches_champion_and_role() {
    let mgr = RunePageManager::new(vec![
        page("p1", "Top page", &["Garen"], Some("top")),
        page("p2", "Mid page", &["Zed", "Ahri"], Some("MID")),
        page("p3", "Any role", &["Zed"], None),
    ]);
    let best = mgr.find_best_page("Zed", Some("mid")).expect("page");
    assert_eq!(best.id, "p2");
    // a page without a role serves any requested role
    let best = mgr.find_best_page("Zed", Some("top")).expect("page");
    assert_eq!(best.id, "p3");
    assert!(mgr.find_best_page("Lux", Some("mid")).is_none());
}

#[test]
fn find_pages_returns_matching_indices_in_order() {
    let mgr = RunePageManager::new(vec![
        page("p1", "A", &["Zed"], None),
        page("p2", "B", &["Garen"], None),
        page("p3", "C", &["Zed"], Some("mid")),
    ]);
    assert_eq!(mgr.find_pages("Zed", Some("mid")), vec![0, 2]);
    assert_eq!(mgr.find_pages("Zed", None), vec![0, 2]);
    assert_eq!(mgr.find_pages("Garen", Some("top")), vec![1]);
}

#[test]
fn save_replaces_page_with_same_id() {
    let mut mgr = RunePageManager::new(vec![page("p1", "Old", &["Zed"], None)]);
    assert!(mgr.save(page("p1", "New", &["Zed"], None)).is_ok());
    assert_eq!(mgr.list().len(), 1);
    assert_eq!(mgr.list()[0].name, "New");
    assert!(mgr.save(page("p2", "Other", &["Ahri"], None)).is_ok());
    assert_eq!(mgr.list().len(), 2);
}

#[test]
fn delete_removes_pages_by_id() {
    let mut mgr = RunePageManager::new(vec![
        page("p1", "A", &["Zed"], None),
        page("p2", "B", &["Ahri"], None),
    ]);
    assert!(mgr.delete("p1").is_ok());
    assert_eq!(mgr.list().len(), 1);
    assert_eq!(mgr.list()[0].id, "p2");
    assert!(mgr.delete("p9").is_ok());
    assert_eq!(mgr.list().len(), 1);
}

#[test]
fn plan_for_champion_without_matching_page_is_noop() {
    let mgr = RunePageManager::new(vec![page("p1", "Top page", &["Garen"], Some("top"))]);
    assert!(mgr.plan_for_champion("Zed", "mid", &None).is_none());
}

fn catalog() -> ChampionCatalog {
    ChampionCatalog::new(vec![
        ("Zed".to_string(), 238),
        ("Miss Fortune".to_string(), 21),
        ("Ahri".to_string(), 103),
    ])
}

#[test]
fn catalog_resolves_ids_case_insensitively() {
    let c = catalog();
    assert_eq!(c.resolve_id("zed"), Some(238));
    assert_eq!(c.resolve_id("MISS FORTUNE"), Some(21));
    assert_eq!(c.resolve_id("Teemo"), None);
}

#[test]
fn catalog_resolves_names_by_id() {
    let c = catalog();
    assert_eq!(c.resolve_name(103).as_deref(), Some("Ahri"));
    assert_eq!(c.resolve_name(999), None);
}

#[test]
fn preferences_resolve_names_through_catalog() {
    let c = catalog();
    let mut p = ChampionPreferences::new();
    let role_map = vec![(
        "MID".to_string(),
        vec!["zed".to_string(), "Nobody".to_string(), "Ahri".to_string()],
    )];
    p.resolve_from_names(&role_map, &c);
    // the unknown name is skipped; the role key is matched case-insensitively
    assert_eq!(p.get_for_role("mid"), vec![238, 103]);
    assert_eq!(p.get_for_role("top"), Vec::<i64>::new());
}

#[test]
fn preferences_set_role_overwrites_only_that_role() {
    let mut p = ChampionPreferences::new();
    p.set_role("top", vec![1, 2]);
    p.set_role("mid", vec![3]);
    p.set_role("TOP", vec![9]);
    assert_eq!(p.get_for_role("top"), vec![9]);
    assert_eq!(p.get_for_role("mid"), vec![3]);
}

fn rune_session(pos: Option<&str>, champ: i64, queue: i64) -> ChampSelectSessionPayload {
    ChampSelectSessionPayload {
        actions: vec![],
        my_team: vec![CsPlayer {
            cell_id: 2,
            champion_id: champ,
            assigned_position: pos.map(|s| s.to_string()),
        }],
        their_team: vec![],
        local_player_cell_id: 2,
        queue_id: queue,
        timer: CsTimer {
            phase: "BAN_PICK".to_string(),
            adjusted_time_left_in_phase: None,
            total_time_in_phase: None,
        },
    }
}

#[test]
fn rune_request_normalizes_roles() {
    let c = catalog();
    let req = RunePickRequest::from_session(&rune_session(Some("UTILITY"), 238, 420), &c).unwrap();
    assert_eq!(req.role, "support");
    assert_eq!(req.champion_name, "Zed");
    assert_eq!(req.champion_id, 238);
    let req = RunePickRequest::from_session(&rune_session(Some("MIDDLE"), 238, 420), &c).unwrap();
    assert_eq!(req.role, "mid");
    let req = RunePickRequest::from_session(&rune_session(Some("JUNGLE"), 238, 420), &c).unwrap();
    assert_eq!(req.role, "jungle");
}

#[test]
fn rune_request_defaults_by_queue_on_empty_position() {
    let c = catalog();
    let req = RunePickRequest::from_session(&rune_session(None, 238, 3140), &c).unwrap();
    assert_eq!(req.role, "support");
    let req = RunePickRequest::from_session(&rune_session(None, 238, 420), &c).unwrap();
    assert_eq!(req.role, "unknown");
}

#[test]
fn rune_request_requires_locked_known_champion() {
    let c = catalog();
    assert!(RunePickRequest::from_session(&rune_session(Some("TOP"), 0, 420), &c).is_none());
    assert!(RunePickRequest::from_session(&rune_session(Some("TOP"), 555, 420), &c).is_none());
}

#[test]
fn rune_sync_skips_planning_phase() {
    assert!(!rune_sync_phase_gate("PLANNING"));
    assert!(rune_sync_phase_gate("BAN_PICK"));
    assert!(rune_sync_phase_gate("FINALIZATION"));
}
