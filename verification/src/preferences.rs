use vstd::prelude::*;
use vstd::pervasive::VecAdditionalExecFns;
use crate::catalog::{spec_resolve_id, ChampionCatalog};
use crate::text::{lower_of, lowercase, str_eq};

verus! {

/// The preference list stored under `key`: the ids of the first entry
/// whose (lowercased) role equals `key`, or the empty list.
pub open spec fn spec_role_lookup(entries: Seq<(String, Vec<i64>)>, key: Seq<char>) -> Seq<i64>
    decreases entries.len(),
{
    if entries.len() == 0 {
        Seq::empty()
    } else if entries[0].0@ == key {
        entries[0].1@
    } else {
        spec_role_lookup(entries.skip(1), key)
    }
}

/// The ids that a list of champion names resolves to through the
/// catalog, in order; names the catalog does not know are skipped.
pub open spec fn spec_resolved_ids(cat: Seq<(String, i64)>, names: Seq<String>) -> Seq<i64>
    decreases names.len(),
{
    if names.len() == 0 {
        Seq::empty()
    } else {
        let rest = spec_resolved_ids(cat, names.drop_last());
        match spec_resolve_id(cat, lower_of(names.last()@)) {
            Some(id) => rest.push(id),
            None => rest,
        }
    }
}

proof fn lemma_lookup_update(
    entries: Seq<(String, Vec<i64>)>,
    idx: int,
    x: (String, Vec<i64>),
)
    requires
        0 <= idx < entries.len(),
        x.0@ == entries[idx].0@,
        forall|j: int| 0 <= j < idx ==> entries[j].0@ != entries[idx].0@,
    ensures
        spec_role_lookup(entries.update(idx, x), entries[idx].0@) == x.1@,
        forall|k2: Seq<char>|
            k2 != entries[idx].0@ ==> spec_role_lookup(entries.update(idx, x), k2)
                == spec_role_lookup(entries, k2),
    decreases entries.len(),
{
    let e2 = entries.update(idx, x);
    if idx == 0 {
        assert(e2[0] == x);
        assert(e2.skip(1) =~= entries.skip(1));
        assert forall|k2: Seq<char>|
            k2 != entries[idx].0@ implies spec_role_lookup(e2, k2) == spec_role_lookup(
            entries,
            k2,
        ) by {
            assert(spec_role_lookup(e2, k2) == spec_role_lookup(e2.skip(1), k2));
            assert(spec_role_lookup(entries, k2) == spec_role_lookup(entries.skip(1), k2));
        }
    } else {
        assert(e2[0] == entries[0]);
        assert(e2.skip(1) =~= entries.skip(1).update(idx - 1, x));
        assert(entries.skip(1)[idx - 1] == entries[idx]);
        assert(forall|j: int| 0 <= j < idx - 1 ==> entries.skip(1)[j] == entries[j + 1]);
        lemma_lookup_update(entries.skip(1), idx - 1, x);
        assert(spec_role_lookup(e2, entries[idx].0@) == x.1@) by {
            assert(entries[0].0@ != entries[idx].0@);
            assert(spec_role_lookup(e2.skip(1), entries[idx].0@) == x.1@);
        }
        assert forall|k2: Seq<char>|
            k2 != entries[idx].0@ implies spec_role_lookup(e2, k2) == spec_role_lookup(
            entries,
            k2,
        ) by {
            if k2 == entries[0].0@ {
                assert(spec_role_lookup(e2, k2) == e2[0].1@);
                assert(spec_role_lookup(entries, k2) == entries[0].1@);
            } else {
                assert(spec_role_lookup(entries.skip(1).update(idx - 1, x), k2)
                    == spec_role_lookup(entries.skip(1), k2));
                assert(spec_role_lookup(e2, k2) == spec_role_lookup(e2.skip(1), k2));
                assert(spec_role_lookup(entries, k2) == spec_role_lookup(entries.skip(1), k2));
            }
        }
    }
}

proof fn lemma_lookup_push(entries: Seq<(String, Vec<i64>)>, x: (String, Vec<i64>))
    ensures
        (forall|j: int| 0 <= j < entries.len() ==> entries[j].0@ != x.0@) ==> spec_role_lookup(
            entries.push(x),
            x.0@,
        ) == x.1@,
        forall|k2: Seq<char>|
            k2 != x.0@ ==> spec_role_lookup(entries.push(x), k2) == spec_role_lookup(entries, k2),
    decreases entries.len(),
{
    let e2 = entries.push(x);
    if entries.len() == 0 {
        assert(e2[0] == x);
        assert(e2.skip(1) =~= Seq::<(String, Vec<i64>)>::empty());
        assert forall|k2: Seq<char>|
            k2 != x.0@ implies spec_role_lookup(e2, k2) == spec_role_lookup(entries, k2) by {
            assert(spec_role_lookup(e2, k2) == spec_role_lookup(e2.skip(1), k2));
        }
    } else {
        assert(e2[0] == entries[0]);
        assert(e2.skip(1) =~= entries.skip(1).push(x));
        lemma_lookup_push(entries.skip(1), x);
        assert(forall|j: int| 0 <= j < entries.skip(1).len() ==> entries.skip(1)[j]
            == entries[j + 1]);
        if forall|j: int| 0 <= j < entries.len() ==> entries[j].0@ != x.0@ {
            assert(spec_role_lookup(e2, x.0@) == x.1@) by {
                assert(entries[0].0@ != x.0@);
                assert(spec_role_lookup(entries.skip(1).push(x), x.0@) == x.1@);
            }
        }
        assert forall|k2: Seq<char>|
            k2 != x.0@ implies spec_role_lookup(e2, k2) == spec_role_lookup(entries, k2) by {
            if k2 == entries[0].0@ {
                assert(spec_role_lookup(e2, k2) == e2[0].1@);
            } else {
                assert(spec_role_lookup(entries.skip(1).push(x), k2) == spec_role_lookup(
                    entries.skip(1),
                    k2,
                ));
                assert(spec_role_lookup(e2, k2) == spec_role_lookup(e2.skip(1), k2));
                assert(spec_role_lookup(entries, k2) == spec_role_lookup(entries.skip(1), k2));
            }
        }
    }
}

/// Returns the ids stored for `role` (matched by lowercased role
/// name), or the empty list where none are stored.
fn role_lookup(entries: &Vec<(String, Vec<i64>)>, role: &str) -> (r: Vec<i64>)
    ensures
        r@ == spec_role_lookup(entries@, lower_of(role@)),
{
    let key = lowercase(role);
    let mut i: usize = 0;
    proof {
        assert(entries@.skip(0) =~= entries@);
    }
    while i < entries.len()
        invariant
            i <= entries@.len(),
            key@ == lower_of(role@),
            spec_role_lookup(entries@, lower_of(role@)) == spec_role_lookup(
                entries@.skip(i as int),
                lower_of(role@),
            ),
        decreases entries@.len() - i,
    {
        proof {
            assert(entries@.skip(i as int)[0] == entries@[i as int]);
        }
        if str_eq(entries[i].0.as_str(), key.as_str()) {
            let ids = &entries[i].1;
            let mut out: Vec<i64> = Vec::new();
            let mut t: usize = 0;
            while t < ids.len()
                invariant
                    t <= ids@.len(),
                    out@ == ids@.take(t as int),
                decreases ids@.len() - t,
            {
                out.push(ids[t]);
                proof {
                    assert(ids@.take(t as int + 1) =~= ids@.take(t as int).push(ids@[t as int]));
                }
                t += 1;
            }
            proof {
                assert(ids@.take(ids@.len() as int) =~= ids@);
            }
            return out;
        }
        proof {
            assert(entries@.skip(i as int).skip(1) =~= entries@.skip(i as int + 1));
        }
        i += 1;
    }
    Vec::new()
}

/// Stores `ids` under the lowercased `role`, replacing the entry that
/// a lookup for that role finds, or appending one; every other role's
/// lookup is unchanged.
fn role_set(entries: &mut Vec<(String, Vec<i64>)>, role: &str, ids: Vec<i64>)
    ensures
        spec_role_lookup(final(entries)@, lower_of(role@)) == ids@,
        forall|k2: Seq<char>|
            k2 != lower_of(role@) ==> spec_role_lookup(final(entries)@, k2) == spec_role_lookup(
                old(entries)@,
                k2,
            ),
{
    let key = lowercase(role);
    let n = entries.len();
    let mut i: usize = 0;
    while i < n
        invariant
            i <= n,
            n == entries@.len(),
            entries@ == old(entries)@,
            key@ == lower_of(role@),
            forall|j: int| 0 <= j < i ==> entries@[j].0@ != key@,
        decreases n - i,
    {
        if str_eq(entries[i].0.as_str(), key.as_str()) {
            let ghost e_old = entries@;
            let ghost x: (String, Vec<i64>) = (key, ids);
            entries.set(i, (key, ids));
            proof {
                lemma_lookup_update(e_old, i as int, x);
            }
            return;
        }
        i += 1;
    }
    let ghost e_old = entries@;
    let ghost x: (String, Vec<i64>) = (key, ids);
    entries.push((key, ids));
    proof {
        lemma_lookup_push(e_old, x);
    }
}

/// Builds the role-keyed preference lists from role names and champion
/// names, resolving each name through the catalog; unknown names are
/// skipped.
fn resolve_role_lists(
    role_map: &Vec<(String, Vec<String>)>,
    catalog: &ChampionCatalog,
) -> (r: Vec<(String, Vec<i64>)>)
    ensures
        r@.len() == role_map@.len(),
        forall|i: int|
            0 <= i < r@.len() ==> (#[trigger] r@[i]).0@ == lower_of(role_map@[i].0@) && r@[i].1@
                == spec_resolved_ids(catalog.entries@, role_map@[i].1@),
{
    let mut out: Vec<(String, Vec<i64>)> = Vec::new();
    let mut i: usize = 0;
    while i < role_map.len()
        invariant
            i <= role_map@.len(),
            out@.len() == i,
            forall|t: int|
                0 <= t < i ==> (#[trigger] out@[t]).0@ == lower_of(role_map@[t].0@) && out@[t].1@
                    == spec_resolved_ids(catalog.entries@, role_map@[t].1@),
        decreases role_map@.len() - i,
    {
        let role = &role_map[i].0;
        let names = &role_map[i].1;
        let mut ids: Vec<i64> = Vec::new();
        let mut t: usize = 0;
        while t < names.len()
            invariant
                t <= names@.len(),
                ids@ == spec_resolved_ids(catalog.entries@, names@.take(t as int)),
            decreases names@.len() - t,
        {
            let r = catalog.resolve_id(names[t].as_str());
            proof {
                assert(names@.take(t as int + 1).drop_last() =~= names@.take(t as int));
                assert(names@.take(t as int + 1).last() == names@[t as int]);
            }
            if let Some(id) = r {
                ids.push(id);
            }
            t += 1;
        }
        proof {
            assert(names@.take(names@.len() as int) =~= names@);
        }
        out.push((lowercase(role.as_str()), ids));
        i += 1;
    }
    out
}

/// The role-keyed champion preference lists behind the priority pick
/// strategy. Lookups and stores key by the lowercased role name.
pub struct ChampionPreferences {
    pub entries: Vec<(String, Vec<i64>)>,
}

impl ChampionPreferences {
    pub fn new() -> (r: Self)
        ensures
            r.entries@ == Seq::<(String, Vec<i64>)>::empty(),
    {
        Self { entries: Vec::new() }
    }

    pub fn get_for_role(&self, role: &str) -> (r: Vec<i64>)
        ensures
            r@ == spec_role_lookup(self.entries@, lower_of(role@)),
    {
        role_lookup(&self.entries, role)
    }

    /// Replaces all stored lists with the given role map, each name
    /// resolved to an id through the catalog; unknown names are
    /// skipped.
    pub fn resolve_from_names(
        &mut self,
        role_map: &Vec<(String, Vec<String>)>,
        resolver: &ChampionCatalog,
    )
        ensures
            final(self).entries@.len() == role_map@.len(),
            forall|i: int|
                0 <= i < role_map@.len() ==> (#[trigger] final(self).entries@[i]).0@ == lower_of(
                    role_map@[i].0@,
                ) && final(self).entries@[i].1@ == spec_resolved_ids(
                    resolver.entries@,
                    role_map@[i].1@,
                ),
    {
        self.entries = resolve_role_lists(role_map, resolver);
    }

    pub fn set_role(&mut self, role: &str, champs: Vec<i64>)
        ensures
            spec_role_lookup(final(self).entries@, lower_of(role@)) == champs@,
            forall|k2: Seq<char>|
                k2 != lower_of(role@) ==> spec_role_lookup(final(self).entries@, k2)
                    == spec_role_lookup(old(self).entries@, k2),
    {
        role_set(&mut self.entries, role, champs)
    }
}

/// The role-keyed champion lists behind the priority ban strategy.
pub struct BanPreferences {
    pub entries: Vec<(String, Vec<i64>)>,
}

impl BanPreferences {
    pub fn new() -> (r: Self)
        ensures
            r.entries@ == Seq::<(String, Vec<i64>)>::empty(),
    {
        Self { entries: Vec::new() }
    }

    pub fn get_for_role(&self, role: &str) -> (r: Vec<i64>)
        ensures
            r@ == spec_role_lookup(self.entries@, lower_of(role@)),
    {
        role_lookup(&self.entries, role)
    }

    /// Replaces all stored lists with the given role map, each name
    /// resolved to an id through the catalog; unknown names are
    /// skipped.
    pub fn resolve_from_names(
        &mut self,
        role_map: &Vec<(String, Vec<String>)>,
        resolver: &ChampionCatalog,
    )
        ensures
            final(self).entries@.len() == role_map@.len(),
            forall|i: int|
                0 <= i < role_map@.len() ==> (#[trigger] final(self).entries@[i]).0@ == lower_of(
                    role_map@[i].0@,
                ) && final(self).entries@[i].1@ == spec_resolved_ids(
                    resolver.entries@,
                    role_map@[i].1@,
                ),
    {
        self.entries = resolve_role_lists(role_map, resolver);
    }

    pub fn set_for_role(&mut self, role: &str, champ_ids: Vec<i64>)
        ensures
            spec_role_lookup(final(self).entries@, lower_of(role@)) == champ_ids@,
            forall|k2: Seq<char>|
                k2 != lower_of(role@) ==> spec_role_lookup(final(self).entries@, k2)
                    == spec_role_lookup(old(self).entries@, k2),
    {
        role_set(&mut self.entries, role, champ_ids)
    }
}

} // verus!
