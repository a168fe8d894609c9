use vstd::prelude::*;
use crate::decision::{choose_champion, no_decision, spec_choice, Decision};
use crate::preferences::{spec_role_lookup, BanPreferences, ChampionPreferences};
use crate::request::BanPickRequest;
use crate::text::lower_of;

verus! {

/// A pick or ban strategy: one method turning a decision context into
/// a decision.
pub trait PickingStrategy {
    fn decide(&self, request: &BanPickRequest) -> Decision;
}

/// A ban strategy: one method turning a decision context into a
/// decision.
pub trait BanStrategy {
    fn decide(&self, request: &BanPickRequest) -> Decision;
}

/// What the priority pick strategy decides for a preference list: the
/// first candidate that equals the local player's current pick
/// (stability — never fight an already-set pick), or the first
/// candidate that is neither banned nor locked by either team; no
/// qualifying candidate means no choice.
pub open spec fn spec_pick_decision(
    prefs: Seq<i64>,
    banned: Seq<i64>,
    their_locked: Seq<i64>,
    my_locked: Seq<i64>,
    my_pick: Option<i64>,
) -> Decision
    decreases prefs.len(),
{
    if prefs.len() == 0 {
        Decision::NoChoice
    } else if my_pick == Some(prefs[0]) {
        spec_choice(prefs[0])
    } else if banned.contains(prefs[0]) || their_locked.contains(prefs[0]) || my_locked.contains(
        prefs[0],
    ) {
        spec_pick_decision(prefs.skip(1), banned, their_locked, my_locked, my_pick)
    } else {
        spec_choice(prefs[0])
    }
}

/// What the priority ban strategy decides for a preference list: the
/// first candidate that is neither already banned nor the stated
/// intent of an ally; no qualifying candidate means no choice.
pub open spec fn spec_ban_decision(
    prefs: Seq<i64>,
    banned: Seq<i64>,
    intended: Seq<i64>,
) -> Decision
    decreases prefs.len(),
{
    if prefs.len() == 0 {
        Decision::NoChoice
    } else if banned.contains(prefs[0]) || intended.contains(prefs[0]) {
        spec_ban_decision(prefs.skip(1), banned, intended)
    } else {
        spec_choice(prefs[0])
    }
}

fn ids_contain(v: &Vec<i64>, x: i64) -> (r: bool)
    ensures
        r == v@.contains(x),
{
    let mut k: usize = 0;
    while k < v.len()
        invariant
            k <= v@.len(),
            forall|t: int| 0 <= t < k ==> v@[t] != x,
        decreases v@.len() - k,
    {
        if v[k] == x {
            proof {
                assert(v@[k as int] == x);
            }
            return true;
        }
        k += 1;
    }
    false
}

/// The priority pick strategy over a set of role-keyed preference
/// lists.
pub struct PriorityPickStrategy {
    pub prefs: ChampionPreferences,
}

impl PriorityPickStrategy {
    pub fn new(prefs: ChampionPreferences) -> (r: Self)
        ensures
            r.prefs == prefs,
    {
        Self { prefs }
    }
}

impl PickingStrategy for PriorityPickStrategy {
    fn decide(&self, request: &BanPickRequest) -> (r: Decision)
        ensures
            r == spec_pick_decision(
                spec_role_lookup(self.prefs.entries@, lower_of(request.role@)),
                request.banned@,
                request.their_team@,
                request.my_team@,
                request.my_pick,
            ),
    {
        let role_prefs = self.prefs.get_for_role(request.role.as_str());
        let ghost full = role_prefs@;
        let mut i: usize = 0;
        proof {
            assert(full.skip(0) =~= full);
        }
        while i < role_prefs.len()
            invariant
                i <= full.len(),
                full == role_prefs@,
                full == spec_role_lookup(self.prefs.entries@, lower_of(request.role@)),
                spec_pick_decision(
                    full,
                    request.banned@,
                    request.their_team@,
                    request.my_team@,
                    request.my_pick,
                ) == spec_pick_decision(
                    full.skip(i as int),
                    request.banned@,
                    request.their_team@,
                    request.my_team@,
                    request.my_pick,
                ),
            decreases full.len() - i,
        {
            let cid = role_prefs[i];
            proof {
                assert(full.skip(i as int)[0] == full[i as int]);
            }
            if let Some(my) = request.my_pick {
                if my == cid {
                    return choose_champion(cid);
                }
            }
            let skipped = ids_contain(&request.banned, cid) || ids_contain(
                &request.their_team,
                cid,
            ) || ids_contain(&request.my_team, cid);
            if !skipped {
                return choose_champion(cid);
            }
            proof {
                assert(full.skip(i as int).skip(1) =~= full.skip(i as int + 1));
            }
            i += 1;
        }
        no_decision()
    }
}

/// The priority ban strategy over a set of role-keyed preference
/// lists.
pub struct PriorityBanStrategy {
    pub prefs: BanPreferences,
}

impl PriorityBanStrategy {
    pub fn new(prefs: BanPreferences) -> (r: Self)
        ensures
            r.prefs == prefs,
    {
        Self { prefs }
    }
}

impl BanStrategy for PriorityBanStrategy {
    fn decide(&self, request: &BanPickRequest) -> (r: Decision)
        ensures
            r == spec_ban_decision(
                spec_role_lookup(self.prefs.entries@, lower_of(request.role@)),
                request.banned@,
                request.intended_picks@,
            ),
    {
        let role_prefs = self.prefs.get_for_role(request.role.as_str());
        let ghost full = role_prefs@;
        let mut i: usize = 0;
        proof {
            assert(full.skip(0) =~= full);
        }
        while i < role_prefs.len()
            invariant
                i <= full.len(),
                full == role_prefs@,
                full == spec_role_lookup(self.prefs.entries@, lower_of(request.role@)),
                spec_ban_decision(full, request.banned@, request.intended_picks@)
                    == spec_ban_decision(
                    full.skip(i as int),
                    request.banned@,
                    request.intended_picks@,
                ),
            decreases full.len() - i,
        {
            let cid = role_prefs[i];
            proof {
                assert(full.skip(i as int)[0] == full[i as int]);
            }
            let skipped = ids_contain(&request.banned, cid) || ids_contain(
                &request.intended_picks,
                cid,
            );
            if !skipped {
                return choose_champion(cid);
            }
            proof {
                assert(full.skip(i as int).skip(1) =~= full.skip(i as int + 1));
            }
            i += 1;
        }
        no_decision()
    }
}

/// Priority-strategy stability: when the local player's current pick
/// `p` stands at position `k` of the preference list and every
/// earlier candidate is banned, locked by a team, or `p` itself, the
/// pick strategy returns `Choice(p)` — even where `p` itself is
/// banned or locked.
pub proof fn lemma_pick_stability(
    prefs: Seq<i64>,
    banned: Seq<i64>,
    their_locked: Seq<i64>,
    my_locked: Seq<i64>,
    p: i64,
    k: int,
)
    requires
        0 <= k < prefs.len(),
        prefs[k] == p,
        forall|t: int|
            0 <= t < k ==> prefs[t] == p || banned.contains(#[trigger] prefs[t])
                || their_locked.contains(prefs[t]) || my_locked.contains(prefs[t]),
    ensures
        spec_pick_decision(prefs, banned, their_locked, my_locked, Some(p)) == spec_choice(p),
    decreases k,
{
    if prefs[0] == p {
    } else {
        assert(k > 0);
        assert(banned.contains(prefs[0]) || their_locked.contains(prefs[0]) || my_locked.contains(
            prefs[0],
        ));
        assert(forall|j: int| 0 <= j < prefs.skip(1).len() ==> prefs.skip(1)[j] == prefs[j + 1]);
        lemma_pick_stability(prefs.skip(1), banned, their_locked, my_locked, p, k - 1);
    }
}

} // verus!
