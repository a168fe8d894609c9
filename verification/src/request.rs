use vstd::prelude::*;
use crate::models::{is_ban, is_pick, team_has_cell, team_contains, ChampSelectSessionPayload, CsAction, CsPlayer};
use crate::text::str_eq;

verus! {

/// Per-decision context derived from one champ-select snapshot and a
/// role string: everything the pick and ban strategies read. It is
/// recomputed every time a decision is needed and never persisted.
#[derive(Debug)]
pub struct BanPickRequest {
    pub role: String,
    pub banned: Vec<i64>,
    pub my_team: Vec<i64>,
    pub their_team: Vec<i64>,
    pub intended_picks: Vec<i64>,
    pub queue_id: i64,
    pub my_pick: Option<i64>,
}

/// Ghost summary of scanning a prefix of a snapshot's actions: the
/// champion-id lists and the local player's current pick collected so
/// far, in scan order.
pub struct DraftSummary {
    pub banned: Seq<i64>,
    pub my_locked: Seq<i64>,
    pub their_locked: Seq<i64>,
    pub intended: Seq<i64>,
    pub my_pick: Option<i64>,
}

pub open spec fn empty_summary() -> DraftSummary {
    DraftSummary {
        banned: Seq::empty(),
        my_locked: Seq::empty(),
        their_locked: Seq::empty(),
        intended: Seq::empty(),
        my_pick: None,
    }
}

/// How one action changes the summary. Actions with champion id 0 are
/// ignored; completed bans are recorded; every pick by the local actor
/// (completed or not) overwrites the current pick; completed picks are
/// classified by the acting cell's team; uncompleted picks count as
/// stated intent.
pub open spec fn summary_step(
    p: DraftSummary,
    a: CsAction,
    my: Seq<CsPlayer>,
    their: Seq<CsPlayer>,
    local: i64,
) -> DraftSummary {
    if a.champion_id == 0 {
        p
    } else if is_ban(&a) {
        if a.completed {
            DraftSummary { banned: p.banned.push(a.champion_id), ..p }
        } else {
            p
        }
    } else if is_pick(&a) {
        let q = if a.actor_cell_id == local {
            DraftSummary { my_pick: Some(a.champion_id), ..p }
        } else {
            p
        };
        if a.completed {
            if team_has_cell(my, a.actor_cell_id) {
                DraftSummary { my_locked: q.my_locked.push(a.champion_id), ..q }
            } else if team_has_cell(their, a.actor_cell_id) {
                DraftSummary { their_locked: q.their_locked.push(a.champion_id), ..q }
            } else {
                q
            }
        } else {
            DraftSummary { intended: q.intended.push(a.champion_id), ..q }
        }
    } else {
        p
    }
}

pub open spec fn group_summary(
    p: DraftSummary,
    g: Seq<CsAction>,
    my: Seq<CsPlayer>,
    their: Seq<CsPlayer>,
    local: i64,
) -> DraftSummary
    decreases g.len(),
{
    if g.len() == 0 {
        p
    } else {
        summary_step(group_summary(p, g.drop_last(), my, their, local), g.last(), my, their, local)
    }
}

pub open spec fn groups_summary(
    p: DraftSummary,
    gs: Seq<Vec<CsAction>>,
    my: Seq<CsPlayer>,
    their: Seq<CsPlayer>,
    local: i64,
) -> DraftSummary
    decreases gs.len(),
{
    if gs.len() == 0 {
        p
    } else {
        group_summary(groups_summary(p, gs.drop_last(), my, their, local), gs.last()@, my, their, local)
    }
}

/// The summary of a whole snapshot, scanning every action of every
/// group in wire order.
pub open spec fn session_summary(s: &ChampSelectSessionPayload) -> DraftSummary {
    groups_summary(
        empty_summary(),
        s.actions@,
        s.my_team@,
        s.their_team@,
        s.local_player_cell_id,
    )
}

/// The summary after the first `i` whole groups.
pub open spec fn outer_summary(s: &ChampSelectSessionPayload, i: int) -> DraftSummary {
    groups_summary(
        empty_summary(),
        s.actions@.take(i),
        s.my_team@,
        s.their_team@,
        s.local_player_cell_id,
    )
}

/// The summary after the first `i` whole groups and the first `j`
/// actions of group `i`.
pub open spec fn prefix_summary(s: &ChampSelectSessionPayload, i: int, j: int) -> DraftSummary {
    group_summary(
        outer_summary(s, i),
        s.actions@[i]@.take(j),
        s.my_team@,
        s.their_team@,
        s.local_player_cell_id,
    )
}

impl BanPickRequest {
    /// Derives the decision context from a snapshot, scanning every
    /// action of every group in order.
    #[verifier::loop_isolation(false)]
    pub fn from_session(session: &ChampSelectSessionPayload, role: &str) -> (r: Self)
        ensures
            r.role@ == role@,
            r.queue_id == session.queue_id,
            r.banned@ == session_summary(session).banned,
            r.my_team@ == session_summary(session).my_locked,
            r.their_team@ == session_summary(session).their_locked,
            r.intended_picks@ == session_summary(session).intended,
            r.my_pick == session_summary(session).my_pick,
    {
        let mut banned: Vec<i64> = Vec::new();
        let mut my_team_locked: Vec<i64> = Vec::new();
        let mut their_team_locked: Vec<i64> = Vec::new();
        let mut intended: Vec<i64> = Vec::new();
        let mut my_pick: Option<i64> = None;

        let mut i: usize = 0;
        while i < session.actions.len()
            invariant
                i <= session.actions@.len(),
                banned@ == outer_summary(session, i as int).banned,
                my_team_locked@ == outer_summary(session, i as int).my_locked,
                their_team_locked@ == outer_summary(session, i as int).their_locked,
                intended@ == outer_summary(session, i as int).intended,
                my_pick == outer_summary(session, i as int).my_pick,
            decreases session.actions@.len() - i,
        {
            let group = &session.actions[i];
            proof {
                assert(session.actions@[i as int]@.take(0) =~= Seq::<CsAction>::empty());
            }
            let mut j: usize = 0;
            while j < group.len()
                invariant
                    i < session.actions@.len(),
                    j <= group@.len(),
                    group@ == session.actions@[i as int]@,
                    banned@ == prefix_summary(session, i as int, j as int).banned,
                    my_team_locked@ == prefix_summary(session, i as int, j as int).my_locked,
                    their_team_locked@ == prefix_summary(session, i as int, j as int).their_locked,
                    intended@ == prefix_summary(session, i as int, j as int).intended,
                    my_pick == prefix_summary(session, i as int, j as int).my_pick,
                decreases group@.len() - j,
            {
                let action = &group[j];
                let ghost pre = prefix_summary(session, i as int, j as int);

                if action.champion_id != 0 {
                    if str_eq(action.action_type.as_str(), "ban") {
                        if action.completed {
                            banned.push(action.champion_id);
                        }
                    } else if str_eq(action.action_type.as_str(), "pick") {
                        if action.actor_cell_id == session.local_player_cell_id {
                            my_pick = Some(action.champion_id);
                        }
                        if action.completed {
                            if team_contains(&session.my_team, action.actor_cell_id) {
                                my_team_locked.push(action.champion_id);
                            } else if team_contains(&session.their_team, action.actor_cell_id) {
                                their_team_locked.push(action.champion_id);
                            }
                        } else {
                            intended.push(action.champion_id);
                        }
                    }
                }

                proof {
                    let g = session.actions@[i as int]@;
                    assert(g.take(j as int + 1).drop_last() =~= g.take(j as int));
                    assert(g.take(j as int + 1).last() == g[j as int]);
                    assert(prefix_summary(session, i as int, j as int + 1) == summary_step(
                        pre,
                        g[j as int],
                        session.my_team@,
                        session.their_team@,
                        session.local_player_cell_id,
                    ));
                }
                j += 1;
            }
            proof {
                let gs = session.actions@;
                assert(gs[i as int]@.take(group@.len() as int) =~= gs[i as int]@);
                assert(gs.take(i as int + 1).drop_last() =~= gs.take(i as int));
                assert(gs.take(i as int + 1).last() == gs[i as int]);
            }
            i += 1;
        }
        proof {
            assert(session.actions@.take(session.actions@.len() as int) =~= session.actions@);
        }

        Self {
            role: role.to_owned(),
            banned,
            my_team: my_team_locked,
            their_team: their_team_locked,
            intended_picks: intended,
            queue_id: session.queue_id,
            my_pick,
        }
    }
}

} // verus!
