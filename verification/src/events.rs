use vstd::prelude::*;
use crate::text::str_eq;

verus! {

/// The kind of a domain event, derived deterministically from the
/// wire topic via a fixed, total mapping.
#[derive(Debug, Clone, Copy, PartialEq, Eq, Hash, Structural)]
pub enum EventType {
    All,
    ChampSelectSession,
    GameflowPhase,
    GameflowSession,
    PartiesNotification,
    TeambuilderTBDGame,
    Unknown,
}

/// The default mapping from wire topics to typed domain events.
pub struct EventRegistry;

/// The fixed, total topic mapping: unmapped topics yield `Unknown`
/// and are never dropped.
pub open spec fn spec_map_uri(uri: Seq<char>) -> EventType {
    if uri == "/lol-gameflow/v1/session"@ {
        EventType::GameflowSession
    } else if uri == "/lol-gameflow/v1/gameflow-phase"@ {
        EventType::GameflowPhase
    } else if uri == "/lol-champ-select/v1/session"@ {
        EventType::ChampSelectSession
    } else if uri == "/riot-messaging-service/v1/message/parties/v1/notifications"@ {
        EventType::PartiesNotification
    } else if uri == "/riot-messaging-service/v1/message/teambuilder/v1/tbdGameDtoV1"@ {
        EventType::TeambuilderTBDGame
    } else {
        EventType::Unknown
    }
}

impl EventRegistry {
    pub fn map_uri(uri: &str) -> (r: EventType)
        ensures
            r == spec_map_uri(uri@),
    {
        if str_eq(uri, "/lol-gameflow/v1/session") {
            EventType::GameflowSession
        } else if str_eq(uri, "/lol-gameflow/v1/gameflow-phase") {
            EventType::GameflowPhase
        } else if str_eq(uri, "/lol-champ-select/v1/session") {
            EventType::ChampSelectSession
        } else if str_eq(uri, "/riot-messaging-service/v1/message/parties/v1/notifications") {
            EventType::PartiesNotification
        } else if str_eq(uri, "/riot-messaging-service/v1/message/teambuilder/v1/tbdGameDtoV1") {
            EventType::TeambuilderTBDGame
        } else {
            EventType::Unknown
        }
    }
}

} // verus!
