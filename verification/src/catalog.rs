use vstd::prelude::*;
use crate::text::{lower_of, lowercase, str_eq};

verus! {

/// The static champion catalog: (name, numeric id) pairs read from
/// the static-data service once per process lifetime and handed in as
/// plain values.
pub struct ChampionCatalog {
    pub entries: Vec<(String, i64)>,
}

/// The id of the first catalog entry whose lowercased name is `key`.
pub open spec fn spec_resolve_id(entries: Seq<(String, i64)>, key: Seq<char>) -> Option<i64>
    decreases entries.len(),
{
    if entries.len() == 0 {
        None
    } else if lower_of(entries[0].0@) == key {
        Some(entries[0].1)
    } else {
        spec_resolve_id(entries.skip(1), key)
    }
}

/// The name of the first catalog entry with id `id`.
pub open spec fn spec_resolve_name(entries: Seq<(String, i64)>, id: i64) -> Option<Seq<char>>
    decreases entries.len(),
{
    if entries.len() == 0 {
        None
    } else if entries[0].1 == id {
        Some(entries[0].0@)
    } else {
        spec_resolve_name(entries.skip(1), id)
    }
}

impl ChampionCatalog {
    pub fn new(entries: Vec<(String, i64)>) -> (r: Self)
        ensures
            r.entries@ == entries@,
    {
        Self { entries }
    }

    /// Case-insensitive lookup of a champion's numeric id by name.
    pub fn resolve_id(&self, name: &str) -> (r: Option<i64>)
        ensures
            r == spec_resolve_id(self.entries@, lower_of(name@)),
    {
        let key = lowercase(name);
        let mut i: usize = 0;
        proof {
            assert(self.entries@.skip(0) =~= self.entries@);
        }
        while i < self.entries.len()
            invariant
                i <= self.entries@.len(),
                key@ == lower_of(name@),
                spec_resolve_id(self.entries@, lower_of(name@)) == spec_resolve_id(
                    self.entries@.skip(i as int),
                    lower_of(name@),
                ),
            decreases self.entries@.len() - i,
        {
            let low = lowercase(self.entries[i].0.as_str());
            proof {
                assert(self.entries@.skip(i as int)[0] == self.entries@[i as int]);
            }
            if str_eq(low.as_str(), key.as_str()) {
                proof {
                    assert(lower_of(self.entries@.skip(i as int)[0].0@) == lower_of(name@));
                    assert(spec_resolve_id(self.entries@.skip(i as int), lower_of(name@)) == Some(
                        self.entries@[i as int].1,
                    ));
                }
                return Some(self.entries[i].1);
            }
            proof {
                assert(self.entries@.skip(i as int).skip(1) =~= self.entries@.skip(i as int + 1));
            }
            i += 1;
        }
        None
    }

    /// Lookup of a champion's display name by numeric id.
    pub fn resolve_name(&self, champ_id: i64) -> (r: Option<String>)
        ensures
            match r {
                Some(n) => spec_resolve_name(self.entries@, champ_id) == Some(n@),
                None => spec_resolve_name(self.entries@, champ_id) is None,
            },
    {
        let mut i: usize = 0;
        proof {
            assert(self.entries@.skip(0) =~= self.entries@);
        }
        while i < self.entries.len()
            invariant
                i <= self.entries@.len(),
                spec_resolve_name(self.entries@, champ_id) == spec_resolve_name(
                    self.entries@.skip(i as int),
                    champ_id,
                ),
            decreases self.entries@.len() - i,
        {
            proof {
                assert(self.entries@.skip(i as int)[0] == self.entries@[i as int]);
            }
            if self.entries[i].1 == champ_id {
                return Some(self.entries[i].0.clone());
            }
            proof {
                assert(self.entries@.skip(i as int).skip(1) =~= self.entries@.skip(i as int + 1));
            }
            i += 1;
        }
        None
    }
}

} // verus!
