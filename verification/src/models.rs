use vstd::prelude::*;

verus! {

/// One pick or ban slot of the draft, as carried inside a
/// champ-select snapshot's action groups.
#[derive(Debug)]
pub struct CsAction {
    pub id: i64,
    pub actor_cell_id: i64,
    pub champion_id: i64,
    pub completed: bool,
    pub is_in_progress: bool,
    pub action_type: String,
}

/// The phase timer of a champ-select snapshot.
#[derive(Debug)]
pub struct CsTimer {
    pub phase: String,
    pub adjusted_time_left_in_phase: Option<i64>,
    pub total_time_in_phase: Option<i64>,
}

/// One player entry of a team in a champ-select snapshot.
#[derive(Debug)]
pub struct CsPlayer {
    pub cell_id: i64,
    pub champion_id: i64,
    pub assigned_position: Option<String>,
}

/// One full picture of the draft session at one point in time. It is
/// rebuilt fresh from every champ-select event; nothing is diffed
/// incrementally.
#[derive(Debug)]
pub struct ChampSelectSessionPayload {
    pub actions: Vec<Vec<CsAction>>,
    pub my_team: Vec<CsPlayer>,
    pub their_team: Vec<CsPlayer>,
    pub local_player_cell_id: i64,
    pub queue_id: i64,
    pub timer: CsTimer,
}

pub open spec fn is_pick(a: &CsAction) -> bool {
    a.action_type@ == "pick"@
}

pub open spec fn is_ban(a: &CsAction) -> bool {
    a.action_type@ == "ban"@
}

/// Whether some player of `team` sits in cell `cell`.
pub open spec fn team_has_cell(team: Seq<CsPlayer>, cell: i64) -> bool {
    exists|i: int| 0 <= i < team.len() && team[i].cell_id == cell
}

/// Linear scan deciding team membership by cell id.
pub fn team_contains(team: &Vec<CsPlayer>, cell: i64) -> (r: bool)
    ensures
        r == team_has_cell(team@, cell),
{
    let mut k: usize = 0;
    while k < team.len()
        invariant
            k <= team.len(),
            forall|t: int| 0 <= t < k ==> team@[t].cell_id != cell,
        decreases team.len() - k,
    {
        if team[k].cell_id == cell {
            proof {
                assert(team@[k as int].cell_id == cell);
            }
            return true;
        }
        k += 1;
    }
    false
}

} // verus!
