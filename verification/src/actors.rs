use vstd::prelude::*;
use crate::decision::Decision;
use crate::engine::{spec_find_active_action, spec_find_pick_action, find_pick_action};
use crate::models::{ChampSelectSessionPayload, CsAction};
use crate::request::BanPickRequest;
use crate::strategy::{BanStrategy, PickingStrategy};

verus! {

/// One mutation against the shared champ-select session: set this
/// action's champion, and complete (lock) it or not. The caller sends
/// it as a PATCH of the action; a `NoChoice` decision issues none.
#[derive(Debug, Clone, Copy, PartialEq, Eq, Structural)]
pub struct ActionMutation {
    pub action_id: i64,
    pub champion_id: i64,
    pub completed: bool,
}

/// What the hoverer sends for a decision: nothing without a choice;
/// nothing without a local pick action; nothing once the action is
/// completed or already shows the chosen champion (the idempotency
/// guard against redundant mutation traffic); otherwise the champion
/// is set without completing the action.
pub open spec fn spec_hover_mutation(s: &ChampSelectSessionPayload, d: Decision) -> Option<
    ActionMutation,
> {
    match d {
        Decision::NoChoice => None,
        Decision::Choice(c) => match spec_find_pick_action(s.actions@, s.local_player_cell_id) {
            None => None,
            Some(a) => if a.completed {
                None
            } else if a.champion_id == c.champion_id {
                None
            } else {
                Some(ActionMutation { action_id: a.id, champion_id: c.champion_id, completed: false })
            },
        },
    }
}

/// What the picker sends for a decision on the active action: nothing
/// without a choice, nothing unless the action is in progress (it must
/// actually be the player's turn); otherwise the champion is set and
/// the action completed.
pub open spec fn spec_pick_mutation(action: &CsAction, d: Decision) -> Option<ActionMutation> {
    match d {
        Decision::NoChoice => None,
        Decision::Choice(c) => if !action.is_in_progress {
            None
        } else {
            Some(ActionMutation { action_id: action.id, champion_id: c.champion_id, completed: true })
        },
    }
}

/// What the banner sends for a decision on the active action: nothing
/// without a choice; otherwise the champion is set and the action
/// completed — no in-progress check is required for bans.
pub open spec fn spec_ban_mutation(action: &CsAction, d: Decision) -> Option<ActionMutation> {
    match d {
        Decision::NoChoice => None,
        Decision::Choice(c) => Some(
            ActionMutation { action_id: action.id, champion_id: c.champion_id, completed: true },
        ),
    }
}

pub fn mutation_for_hover(session: &ChampSelectSessionPayload, decision: &Decision) -> (r: Option<
    ActionMutation,
>)
    ensures
        r == spec_hover_mutation(session, *decision),
{
    if !decision.has_choice() {
        return None;
    }
    let action = match find_pick_action(session) {
        Some(a) => a,
        None => {
            return None;
        },
    };
    if action.completed {
        return None;
    }
    let cid = decision.champion_id();
    if action.champion_id == cid {
        return None;
    }
    Some(ActionMutation { action_id: action.id, champion_id: cid, completed: false })
}

pub fn mutation_for_pick(action: &CsAction, decision: &Decision) -> (r: Option<ActionMutation>)
    ensures
        r == spec_pick_mutation(action, *decision),
        !action.is_in_progress ==> r is None,
{
    if !decision.has_choice() {
        return None;
    }
    if !action.is_in_progress {
        return None;
    }
    Some(ActionMutation { action_id: action.id, champion_id: decision.champion_id(), completed: true })
}

pub fn mutation_for_ban(action: &CsAction, decision: &Decision) -> (r: Option<ActionMutation>)
    ensures
        r == spec_ban_mutation(action, *decision),
        decision is Choice ==> r is Some,
{
    if !decision.has_choice() {
        return None;
    }
    Some(ActionMutation { action_id: action.id, champion_id: decision.champion_id(), completed: true })
}

/// Idempotent hover: a hover mutation is issued only while the local
/// pick action shows a different champion, so a snapshot that already
/// reflects the issued mutation — with the choice unchanged — makes a
/// second invocation issue nothing.
pub proof fn lemma_hover_idempotent(
    s1: &ChampSelectSessionPayload,
    s2: &ChampSelectSessionPayload,
    d: Decision,
)
    requires
        spec_hover_mutation(s1, d) matches Some(m) && (spec_find_pick_action(
            s2.actions@,
            s2.local_player_cell_id,
        ) matches Some(a2) && a2.champion_id == m.champion_id),
    ensures
        spec_hover_mutation(s2, d) is None,
{
}

/// Computes hover mutations: derives the decision context, asks the
/// pick strategy, and applies the hover guards.
pub trait HovererPort {
    fn hover(&self, session: &ChampSelectSessionPayload, role: &str) -> Option<ActionMutation>;
}

/// Computes pick (lock-in) mutations for the active action.
pub trait PickerPort {
    fn pick(&self, session: &ChampSelectSessionPayload, action: &CsAction, role: &str) -> Option<
        ActionMutation,
    >;
}

/// Computes ban mutations for the active action.
pub trait BannerPort {
    fn ban(&self, session: &ChampSelectSessionPayload, action: &CsAction, role: &str) -> Option<
        ActionMutation,
    >;
}

/// The hover actor: one pick strategy, applied to a fresh decision
/// context each call.
pub struct ChampionHoverer<S: PickingStrategy> {
    pub strategy: S,
}

impl<S: PickingStrategy> ChampionHoverer<S> {
    pub fn new(strategy: S) -> (r: Self)
        ensures
            r.strategy == strategy,
    {
        Self { strategy }
    }
}

impl<S: PickingStrategy> HovererPort for ChampionHoverer<S> {
    fn hover(&self, session: &ChampSelectSessionPayload, role: &str) -> (r: Option<ActionMutation>)
        ensures
            spec_find_pick_action(session.actions@, session.local_player_cell_id) is None ==> r
                is None,
            r matches Some(m) ==> (spec_find_pick_action(
                session.actions@,
                session.local_player_cell_id,
            ) matches Some(a) && m.action_id == a.id && !a.completed && a.champion_id
                != m.champion_id && m.completed == false),
    {
        let request = BanPickRequest::from_session(session, role);
        let decision = self.strategy.decide(&request);
        mutation_for_hover(session, &decision)
    }
}

/// The pick actor: locks the chosen champion in, but only while the
/// target action is actually in progress.
pub struct ChampionPicker<S: PickingStrategy> {
    pub strategy: S,
}

impl<S: PickingStrategy> ChampionPicker<S> {
    pub fn new(strategy: S) -> (r: Self)
        ensures
            r.strategy == strategy,
    {
        Self { strategy }
    }
}

impl<S: PickingStrategy> PickerPort for ChampionPicker<S> {
    fn pick(&self, session: &ChampSelectSessionPayload, action: &CsAction, role: &str) -> (r:
        Option<ActionMutation>)
        ensures
            !action.is_in_progress ==> r is None,
            r matches Some(m) ==> m.action_id == action.id && m.completed && action.is_in_progress,
    {
        let request = BanPickRequest::from_session(session, role);
        let decision = self.strategy.decide(&request);
        mutation_for_pick(action, &decision)
    }
}

/// The ban actor: completes the target action with the chosen
/// champion; no in-progress check is required for bans.
pub struct ChampionBanner<S: BanStrategy> {
    pub strategy: S,
}

impl<S: BanStrategy> ChampionBanner<S> {
    pub fn new(strategy: S) -> (r: Self)
        ensures
            r.strategy == strategy,
    {
        Self { strategy }
    }
}

impl<S: BanStrategy> BannerPort for ChampionBanner<S> {
    fn ban(&self, session: &ChampSelectSessionPayload, action: &CsAction, role: &str) -> (r: Option<
        ActionMutation,
    >)
        ensures
            r matches Some(m) ==> m.action_id == action.id && m.completed,
    {
        let request = BanPickRequest::from_session(session, role);
        let decision = self.strategy.decide(&request);
        mutation_for_ban(action, &decision)
    }
}

} // verus!
