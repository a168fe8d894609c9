use vstd::prelude::*;

verus! {

/// A concrete champion choice.
#[derive(Clone, Copy, PartialEq, Eq, Structural, Debug)]
pub struct ChampionChoice {
    pub champion_id: i64,
}

/// Base decision result used by pick and ban strategies: either a
/// champion to act on, or the statement that no candidate qualified.
#[derive(Clone, Copy, PartialEq, Eq, Structural, Debug)]
pub enum Decision {
    Choice(ChampionChoice),
    NoChoice,
}

impl ChampionChoice {
    pub fn new(champion_id: i64) -> (r: Self)
        ensures
            r.champion_id == champion_id,
    {
        Self { champion_id }
    }

    pub fn champion_id(&self) -> (r: i64)
        ensures
            r == self.champion_id,
    {
        self.champion_id
    }
}

/// The decision that picks `champion_id`.
pub open spec fn spec_choice(champion_id: i64) -> Decision {
    Decision::Choice(ChampionChoice { champion_id })
}

/// Constructs a `ChampionChoice` wrapped as a `Decision`.
pub fn choose_champion(champion_id: i64) -> (r: Decision)
    ensures
        r matches Decision::Choice(c) && c.champion_id == champion_id,
{
    Decision::Choice(ChampionChoice::new(champion_id))
}

/// Constructs the "no decision" value.
pub fn no_decision() -> (r: Decision)
    ensures
        r is NoChoice,
{
    Decision::NoChoice
}

impl Decision {
    /// The champion id this decision carries, with 0 standing for
    /// "no choice".
    pub open spec fn spec_champion_id(&self) -> i64 {
        match self {
            Decision::Choice(c) => c.champion_id,
            Decision::NoChoice => 0,
        }
    }

    pub fn has_choice(&self) -> (r: bool)
        ensures
            r == (self is Choice),
    {
        matches!(self, Decision::Choice(_))
    }

    pub fn champion_id(&self) -> (r: i64)
        ensures
            r == self.spec_champion_id(),
    {
        match self {
            Decision::Choice(c) => c.champion_id(),
            Decision::NoChoice => 0,
        }
    }
}

} // verus!
