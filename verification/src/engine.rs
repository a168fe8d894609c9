use vstd::prelude::*;
use crate::models::{is_pick, ChampSelectSessionPayload, CsAction, CsPlayer};
use crate::text::{lower_of, lowercase, str_eq};

verus! {

/// The first pick action of one group owned by the local player,
/// completed or not.
pub open spec fn first_pick_in_group(g: Seq<CsAction>, local: i64) -> Option<CsAction>
    decreases g.len(),
{
    if g.len() == 0 {
        None
    } else if is_pick(&g[0]) && g[0].actor_cell_id == local {
        Some(g[0])
    } else {
        first_pick_in_group(g.skip(1), local)
    }
}

/// The first pick action owned by the local player, scanning the
/// groups in wire order.
pub open spec fn spec_find_pick_action(gs: Seq<Vec<CsAction>>, local: i64) -> Option<CsAction>
    decreases gs.len(),
{
    if gs.len() == 0 {
        None
    } else {
        match first_pick_in_group(gs[0]@, local) {
            Some(a) => Some(a),
            None => spec_find_pick_action(gs.skip(1), local),
        }
    }
}

/// Finds the local player's own pick action (the hover target), if the
/// snapshot holds one.
pub fn find_pick_action(session: &ChampSelectSessionPayload) -> (r: Option<&CsAction>)
    ensures
        match r {
            Some(a) => spec_find_pick_action(session.actions@, session.local_player_cell_id)
                == Some(*a),
            None => spec_find_pick_action(session.actions@, session.local_player_cell_id) is None,
        },
{
    let ghost gs = session.actions@;
    let ghost local = session.local_player_cell_id;
    let mut i: usize = 0;
    proof {
        assert(gs.skip(0) =~= gs);
    }
    while i < session.actions.len()
        invariant
            i <= gs.len(),
            gs == session.actions@,
            local == session.local_player_cell_id,
            spec_find_pick_action(gs, local) == spec_find_pick_action(gs.skip(i as int), local),
        decreases gs.len() - i,
    {
        let group = &session.actions[i];
        let mut j: usize = 0;
        proof {
            assert(gs.skip(i as int)[0] == gs[i as int]);
            assert(group@.skip(0) =~= group@);
            assert(gs.skip(i as int).skip(1) =~= gs.skip(i as int + 1));
        }
        while j < group.len()
            invariant
                i < gs.len(),
                j <= group@.len(),
                gs == session.actions@,
                local == session.local_player_cell_id,
                group@ == gs[i as int]@,
                spec_find_pick_action(gs, local) == match first_pick_in_group(
                    group@.skip(j as int),
                    local,
                ) {
                    Some(a) => Some(a),
                    None => spec_find_pick_action(gs.skip(i as int + 1), local),
                },
            decreases group@.len() - j,
        {
            let action = &group[j];
            proof {
                assert(group@.skip(j as int)[0] == group@[j as int]);
            }
            if str_eq(action.action_type.as_str(), "pick")
                && action.actor_cell_id == session.local_player_cell_id {
                return Some(action);
            }
            proof {
                assert(group@.skip(j as int).skip(1) =~= group@.skip(j as int + 1));
            }
            j += 1;
        }
        proof {
            assert(group@.skip(group@.len() as int) =~= Seq::<CsAction>::empty());
        }
        i += 1;
    }
    None
}

/// Whether any action of the group is in progress.
pub open spec fn group_in_progress(g: Seq<CsAction>) -> bool {
    exists|k: int| 0 <= k < g.len() && g[k].is_in_progress
}

/// The first uncompleted action of a group owned by the local actor,
/// of any kind.
pub open spec fn first_uncompleted_local(g: Seq<CsAction>, local: i64) -> Option<CsAction>
    decreases g.len(),
{
    if g.len() == 0 {
        None
    } else if g[0].actor_cell_id == local && !g[0].completed {
        Some(g[0])
    } else {
        first_uncompleted_local(g.skip(1), local)
    }
}

/// The active action of a snapshot: the first group holding any
/// in-progress action is selected; within it, the first uncompleted
/// action of the local actor; none found there means no action this
/// tick.
pub open spec fn spec_find_active_action(gs: Seq<Vec<CsAction>>, local: i64) -> Option<CsAction>
    decreases gs.len(),
{
    if gs.len() == 0 {
        None
    } else if group_in_progress(gs[0]@) {
        first_uncompleted_local(gs[0]@, local)
    } else {
        spec_find_active_action(gs.skip(1), local)
    }
}

fn any_in_progress(g: &Vec<CsAction>) -> (r: bool)
    ensures
        r == group_in_progress(g@),
{
    let mut k: usize = 0;
    while k < g.len()
        invariant
            k <= g@.len(),
            forall|t: int| 0 <= t < k ==> !g@[t].is_in_progress,
        decreases g@.len() - k,
    {
        if g[k].is_in_progress {
            proof {
                assert(g@[k as int].is_in_progress);
            }
            return true;
        }
        k += 1;
    }
    false
}

/// Finds the snapshot's active action, as `spec_find_active_action`
/// describes it.
pub fn find_active_action(session: &ChampSelectSessionPayload) -> (r: Option<&CsAction>)
    ensures
        match r {
            Some(a) => spec_find_active_action(session.actions@, session.local_player_cell_id)
                == Some(*a),
            None => spec_find_active_action(
                session.actions@,
                session.local_player_cell_id,
            ) is None,
        },
{
    let ghost gs = session.actions@;
    let ghost local = session.local_player_cell_id;
    let mut i: usize = 0;
    proof {
        assert(gs.skip(0) =~= gs);
    }
    while i < session.actions.len()
        invariant
            i <= gs.len(),
            gs == session.actions@,
            local == session.local_player_cell_id,
            spec_find_active_action(gs, local) == spec_find_active_action(
                gs.skip(i as int),
                local,
            ),
        decreases gs.len() - i,
    {
        let group = &session.actions[i];
        proof {
            assert(gs.skip(i as int)[0] == gs[i as int]);
            assert(gs.skip(i as int).skip(1) =~= gs.skip(i as int + 1));
        }
        if any_in_progress(group) {
            let mut j: usize = 0;
            proof {
                assert(group@.skip(0) =~= group@);
            }
            while j < group.len()
                invariant
                    i < gs.len(),
                    j <= group@.len(),
                    gs == session.actions@,
                    local == session.local_player_cell_id,
                    group@ == gs[i as int]@,
                    spec_find_active_action(gs, local) == first_uncompleted_local(group@, local),
                    first_uncompleted_local(group@, local) == first_uncompleted_local(
                        group@.skip(j as int),
                        local,
                    ),
                decreases group@.len() - j,
            {
                let action = &group[j];
                proof {
                    assert(group@.skip(j as int)[0] == group@[j as int]);
                }
                if action.actor_cell_id == session.local_player_cell_id && !action.completed {
                    return Some(action);
                }
                proof {
                    assert(group@.skip(j as int).skip(1) =~= group@.skip(j as int + 1));
                }
                j += 1;
            }
            proof {
                assert(group@.skip(group@.len() as int) =~= Seq::<CsAction>::empty());
            }
            return None;
        }
        i += 1;
    }
    None
}

/// The first entry of the team roster holding the given cell.
pub open spec fn first_player(team: Seq<CsPlayer>, cell: i64) -> Option<CsPlayer>
    decreases team.len(),
{
    if team.len() == 0 {
        None
    } else if team[0].cell_id == cell {
        Some(team[0])
    } else {
        first_player(team.skip(1), cell)
    }
}

/// The local player's resolved role: the lowercased assigned position;
/// an empty position resolves to "support" in the practice-tool queue
/// (3140) and fails otherwise; a missing roster entry fails.
pub open spec fn spec_resolve_role(s: &ChampSelectSessionPayload) -> Option<Seq<char>> {
    match first_player(s.my_team@, s.local_player_cell_id) {
        None => None,
        Some(p) => {
            let low = lower_of(
                match p.assigned_position {
                    Some(pos) => pos@,
                    None => Seq::empty(),
                },
            );
            if low.len() == 0 {
                if s.queue_id == 3140 {
                    Some("support"@)
                } else {
                    None
                }
            } else {
                Some(low)
            }
        },
    }
}

/// Resolves the local player's role from the snapshot, as
/// `spec_resolve_role` describes it.
pub fn resolve_role(session: &ChampSelectSessionPayload) -> (r: Option<String>)
    ensures
        match r {
            Some(role) => spec_resolve_role(session) == Some(role@),
            None => spec_resolve_role(session) is None,
        },
{
    let ghost team = session.my_team@;
    let ghost local = session.local_player_cell_id;
    let mut i: usize = 0;
    proof {
        assert(team.skip(0) =~= team);
    }
    while i < session.my_team.len()
        invariant
            i <= team.len(),
            team == session.my_team@,
            local == session.local_player_cell_id,
            first_player(team, local) == first_player(team.skip(i as int), local),
        decreases team.len() - i,
    {
        let player = &session.my_team[i];
        proof {
            assert(team.skip(i as int)[0] == team[i as int]);
        }
        if player.cell_id == session.local_player_cell_id {
            let low = match &player.assigned_position {
                Some(pos) => lowercase(pos.as_str()),
                None => {
                    proof {
                        reveal_strlit("");
                        assert(""@ =~= Seq::<char>::empty());
                    }
                    lowercase("")
                },
            };
            if low.as_str().is_empty() {
                if session.queue_id == 3140 {
                    return Some("support".to_owned());
                } else {
                    return None;
                }
            }
            return Some(low);
        }
        proof {
            assert(team.skip(i as int).skip(1) =~= team.skip(i as int + 1));
        }
        i += 1;
    }
    None
}

} // verus!
