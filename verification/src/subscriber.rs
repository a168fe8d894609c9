use vstd::prelude::*;
use crate::actors::{ActionMutation, BannerPort, HovererPort, PickerPort};
use crate::engine::{
    find_active_action, resolve_role, spec_find_active_action, spec_resolve_role,
};
use crate::models::{is_ban, is_pick, ChampSelectSessionPayload};
use crate::text::str_eq;

verus! {

/// The champ-select reactor: a phase-driven dispatcher over the three
/// mutation actors. It keeps no state between events — every decision
/// is recomputed from the fresh snapshot it is handed.
pub struct AutoPickBanSubscriber<H: HovererPort, P: PickerPort, B: BannerPort> {
    pub hoverer: H,
    pub picker: P,
    pub banner: B,
}

impl<H: HovererPort, P: PickerPort, B: BannerPort> AutoPickBanSubscriber<H, P, B> {
    pub fn new(hoverer: H, picker: P, banner: B) -> (r: Self)
        ensures
            r.hoverer == hoverer,
            r.picker == picker,
            r.banner == banner,
    {
        Self { hoverer, picker, banner }
    }

    /// One tick of the phase state machine, on one snapshot. PLANNING
    /// hands the resolved role to the hoverer; BAN_PICK finds the
    /// active action, resolves the role, and dispatches to the picker
    /// or banner by the action's kind; every other phase — and every
    /// failed resolution — takes no action.
    pub fn handle_session(&self, session: &ChampSelectSessionPayload) -> (r: Option<
        ActionMutation,
    >)
        ensures
            session.timer.phase@ != "PLANNING"@ && session.timer.phase@ != "BAN_PICK"@ ==> r
                is None,
            session.timer.phase@ == "PLANNING"@ && spec_resolve_role(session) is None ==> r
                is None,
            session.timer.phase@ == "BAN_PICK"@ && (spec_find_active_action(
                session.actions@,
                session.local_player_cell_id,
            ) is None || spec_resolve_role(session) is None) ==> r is None,
            session.timer.phase@ == "BAN_PICK"@ && (spec_find_active_action(
                session.actions@,
                session.local_player_cell_id,
            ) matches Some(a) && !is_pick(&a) && !is_ban(&a)) ==> r is None,
    {
        proof {
            reveal_strlit("PLANNING");
            reveal_strlit("BAN_PICK");
            assert("PLANNING"@[0] != "BAN_PICK"@[0]);
        }
        if str_eq(session.timer.phase.as_str(), "PLANNING") {
            match resolve_role(session) {
                Some(role) => self.hoverer.hover(session, role.as_str()),
                None => None,
            }
        } else if str_eq(session.timer.phase.as_str(), "BAN_PICK") {
            match find_active_action(session) {
                Some(action) => match resolve_role(session) {
                    Some(role) => {
                        if str_eq(action.action_type.as_str(), "pick") {
                            self.picker.pick(session, action, role.as_str())
                        } else if str_eq(action.action_type.as_str(), "ban") {
                            self.banner.ban(session, action, role.as_str())
                        } else {
                            None
                        }
                    },
                    None => None,
                },
                None => None,
            }
        } else {
            None
        }
    }
}

} // verus!
