use vstd::prelude::*;
use crate::text::str_eq;

verus! {

/// Every distinct runtime-togglable feature.
#[derive(Debug, Clone, Copy, PartialEq, Eq, Hash, Structural)]
pub enum FeatureId {
    IngameLog,
    LeagueLog,
    MatchReady,
    AutoPickBan,
    RunePicker,
}

/// What a feature looks like to the display surface.
#[derive(Debug)]
pub struct FeatureInfo {
    pub id: String,
    pub name: String,
    pub enabled: bool,
}

/// The wire name of each feature id.
pub open spec fn spec_feature_name(id: FeatureId) -> Seq<char> {
    match id {
        FeatureId::IngameLog => "IngameLog"@,
        FeatureId::LeagueLog => "LeagueLog"@,
        FeatureId::MatchReady => "MatchReady"@,
        FeatureId::AutoPickBan => "AutoPickBan"@,
        FeatureId::RunePicker => "RunePicker"@,
    }
}

/// The feature a wire name denotes, if any.
pub open spec fn spec_feature_parse(s: Seq<char>) -> Option<FeatureId> {
    if s == "IngameLog"@ {
        Some(FeatureId::IngameLog)
    } else if s == "LeagueLog"@ {
        Some(FeatureId::LeagueLog)
    } else if s == "MatchReady"@ {
        Some(FeatureId::MatchReady)
    } else if s == "AutoPickBan"@ {
        Some(FeatureId::AutoPickBan)
    } else if s == "RunePicker"@ {
        Some(FeatureId::RunePicker)
    } else {
        None
    }
}

impl FeatureId {
    pub fn name(&self) -> (r: String)
        ensures
            r@ == spec_feature_name(*self),
    {
        match self {
            FeatureId::IngameLog => "IngameLog".to_owned(),
            FeatureId::LeagueLog => "LeagueLog".to_owned(),
            FeatureId::MatchReady => "MatchReady".to_owned(),
            FeatureId::AutoPickBan => "AutoPickBan".to_owned(),
            FeatureId::RunePicker => "RunePicker".to_owned(),
        }
    }

    pub fn parse(s: &str) -> (r: Option<FeatureId>)
        ensures
            r == spec_feature_parse(s@),
    {
        if str_eq(s, "IngameLog") {
            Some(FeatureId::IngameLog)
        } else if str_eq(s, "LeagueLog") {
            Some(FeatureId::LeagueLog)
        } else if str_eq(s, "MatchReady") {
            Some(FeatureId::MatchReady)
        } else if str_eq(s, "AutoPickBan") {
            Some(FeatureId::AutoPickBan)
        } else if str_eq(s, "RunePicker") {
            Some(FeatureId::RunePicker)
        } else {
            None
        }
    }
}

/// The shared auto-accept / rune-evaluation delay, in milliseconds.
pub struct DelayState {
    pub value: u64,
}

impl DelayState {
    pub fn new() -> (r: Self)
        ensures
            r.value == 0,
    {
        Self { value: 0 }
    }

    pub fn get(&self) -> (r: u64)
        ensures
            r == self.value,
    {
        self.value
    }

    pub fn set(&mut self, v: u64)
        ensures
            final(self).value == v,
    {
        self.value = v;
    }
}

} // verus!
