use vstd::prelude::*;
use crate::catalog::{spec_resolve_name, ChampionCatalog};
use crate::engine::first_player;
use crate::models::{ChampSelectSessionPayload, CsPlayer};
use crate::text::{lower_of, lowercase, str_eq};

verus! {

broadcast use vstd::seq_lib::group_to_multiset_ensures, vstd::multiset::group_multiset_axioms;

/// A user-authored rune page: the champions and optional role it is
/// meant for, the two style trees, and the perk chosen for each fixed
/// slot (four primary, two secondary, three shards). A slot may be
/// unset.
#[derive(Debug)]
pub struct RunePage {
    pub id: String,
    pub name: String,
    pub champions: Vec<String>,
    pub role: Option<String>,
    pub primary_tree_id: Option<i32>,
    pub primary_picks: Vec<Option<i32>>,
    pub secondary_tree_id: Option<i32>,
    pub secondary_picks: Vec<Option<i32>>,
    pub shards: Vec<Option<i32>>,
}

/// The live custom loadout as the control surface reports it: its page
/// id (when known), the two style ids, and the selected perk ids.
#[derive(Debug)]
pub struct ActiveLoadout {
    pub id: Option<i64>,
    pub primary_style: i32,
    pub sub_style: i32,
    pub perk_ids: Vec<i32>,
}

/// The perks taken from the first `n` slots, in slot order; unset or
/// missing slots are skipped.
pub open spec fn picks_of(v: Seq<Option<i32>>, n: int) -> Seq<i32>
    decreases n,
{
    if n <= 0 {
        Seq::empty()
    } else {
        let rest = picks_of(v, n - 1);
        if n - 1 < v.len() {
            match v[n - 1] {
                Some(id) => rest.push(id),
                None => rest,
            }
        } else {
            rest
        }
    }
}

/// All perk ids of a page in fixed collection order: primary slots
/// 0–3, secondary slots 0–1, shard slots 0–2.
pub open spec fn page_perks(p: &RunePage) -> Seq<i32> {
    picks_of(p.primary_picks@, 4) + picks_of(p.secondary_picks@, 2) + picks_of(p.shards@, 3)
}

fn collect_slots(v: &Vec<Option<i32>>, n: usize, out: &mut Vec<i32>)
    ensures
        final(out)@ == old(out)@ + picks_of(v@, n as int),
{
    let mut slot: usize = 0;
    while slot < n
        invariant
            slot <= n,
            out@ == old(out)@ + picks_of(v@, slot as int),
        decreases n - slot,
    {
        if slot < v.len() {
            if let Some(id) = v[slot] {
                out.push(id);
            }
        }
        proof {
            if slot < v@.len() {
                match v@[slot as int] {
                    Some(id) => {
                        assert((old(out)@ + picks_of(v@, slot as int)).push(id) =~= old(out)@
                            + picks_of(v@, slot as int).push(id));
                    },
                    None => {},
                }
            }
        }
        slot += 1;
    }
}

impl RunePage {
    /// Collects the page's perk ids in the fixed order: primary slots
    /// 0–3, secondary slots 0–1, shard slots 0–2.
    pub fn collect_perk_ids(&self) -> (r: Vec<i32>)
        ensures
            r@ == page_perks(self),
    {
        let mut out: Vec<i32> = Vec::new();
        proof {
            assert(out@ + picks_of(self.primary_picks@, 4) =~= picks_of(self.primary_picks@, 4));
        }
        collect_slots(&self.primary_picks, 4, &mut out);
        collect_slots(&self.secondary_picks, 2, &mut out);
        collect_slots(&self.shards, 3, &mut out);
        proof {
            assert(picks_of(self.primary_picks@, 4) + picks_of(self.secondary_picks@, 2) + picks_of(
                self.shards@,
                3,
            ) =~= (picks_of(self.primary_picks@, 4) + picks_of(self.secondary_picks@, 2))
                + picks_of(self.shards@, 3));
        }
        out
    }
}

/// How many times `x` occurs in `s`.
pub open spec fn count_of(s: Seq<i32>, x: i32) -> int
    decreases s.len(),
{
    if s.len() == 0 {
        0
    } else {
        count_of(s.drop_last(), x) + if s.last() == x {
            1int
        } else {
            0int
        }
    }
}

proof fn lemma_count_multiset(s: Seq<i32>, x: i32)
    ensures
        count_of(s, x) == s.to_multiset().count(x),
    decreases s.len(),
{
    if s.len() == 0 {
        assert(s.to_multiset().count(x) == 0);
    } else {
        lemma_count_multiset(s.drop_last(), x);
        assert(s =~= s.drop_last().push(s.last()));
        assert(s.to_multiset() =~= s.drop_last().to_multiset().insert(s.last()));
    }
}

fn count_ids(v: &Vec<i32>, x: i32) -> (r: usize)
    ensures
        r == count_of(v@, x),
{
    let mut r: usize = 0;
    let mut i: usize = 0;
    while i < v.len()
        invariant
            i <= v@.len(),
            r <= i,
            r == count_of(v@.take(i as int), x),
        decreases v@.len() - i,
    {
        proof {
            assert(v@.take(i as int + 1).drop_last() =~= v@.take(i as int));
            assert(v@.take(i as int + 1).last() == v@[i as int]);
        }
        if v[i] == x {
            r += 1;
        }
        i += 1;
    }
    proof {
        assert(v@.take(v@.len() as int) =~= v@);
    }
    r
}

/// Order-independent equality of two perk collections: the same ids,
/// each the same number of times.
fn same_perks(want: &Vec<i32>, have: &Vec<i32>) -> (r: bool)
    ensures
        r == (want@.to_multiset() == have@.to_multiset()),
{
    if want.len() != have.len() {
        proof {
            assert(want@.to_multiset().len() != have@.to_multiset().len());
        }
        return false;
    }
    let mut i: usize = 0;
    while i < want.len()
        invariant
            i <= want@.len(),
            forall|t: int|
                0 <= t < i ==> count_of(want@, #[trigger] want@[t]) == count_of(have@, want@[t]),
        decreases want@.len() - i,
    {
        let c1 = count_ids(want, want[i]);
        let c2 = count_ids(have, want[i]);
        if c1 != c2 {
            proof {
                lemma_count_multiset(want@, want@[i as int]);
                lemma_count_multiset(have@, want@[i as int]);
            }
            return false;
        }
        i += 1;
    }
    let mut j: usize = 0;
    while j < have.len()
        invariant
            j <= have@.len(),
            forall|t: int|
                0 <= t < want@.len() ==> count_of(want@, #[trigger] want@[t]) == count_of(
                    have@,
                    want@[t],
                ),
            forall|t: int|
                0 <= t < j ==> count_of(want@, #[trigger] have@[t]) == count_of(have@, have@[t]),
        decreases have@.len() - j,
    {
        let c1 = count_ids(want, have[j]);
        let c2 = count_ids(have, have[j]);
        if c1 != c2 {
            proof {
                lemma_count_multiset(want@, have@[j as int]);
                lemma_count_multiset(have@, have@[j as int]);
            }
            return false;
        }
        j += 1;
    }
    proof {
        assert forall|x: i32| want@.to_multiset().count(x) == have@.to_multiset().count(x) by {
            lemma_count_multiset(want@, x);
            lemma_count_multiset(have@, x);
            if want@.contains(x) {
                let t = choose|t: int| 0 <= t < want@.len() && want@[t] == x;
                assert(count_of(want@, want@[t]) == count_of(have@, want@[t]));
            } else if have@.contains(x) {
                let t = choose|t: int| 0 <= t < have@.len() && have@[t] == x;
                assert(count_of(want@, have@[t]) == count_of(have@, have@[t]));
            } else {
                assert(want@.to_multiset().count(x) == 0);
                assert(have@.to_multiset().count(x) == 0);
            }
        }
        assert(want@.to_multiset() =~= have@.to_multiset());
    }
    true
}

/// The style id a page stores for a tree, with 0 for an unset tree.
pub open spec fn opt_style(o: Option<i32>) -> i32 {
    match o {
        Some(v) => v,
        None => 0,
    }
}

/// Whether the live loadout already is the page: both style ids match
/// exactly and the perk sets are equal as unordered collections.
pub open spec fn spec_same_page(page: &RunePage, live: &ActiveLoadout) -> bool {
    &&& live.primary_style == opt_style(page.primary_tree_id)
    &&& live.sub_style == opt_style(page.secondary_tree_id)
    &&& page_perks(page).to_multiset() == live.perk_ids@.to_multiset()
}

fn style_or_zero(o: &Option<i32>) -> (r: i32)
    ensures
        r == opt_style(*o),
{
    match o {
        Some(v) => *v,
        None => 0,
    }
}

/// Diff of a page against the live loadout, as `spec_same_page`
/// describes it.
pub fn same_page(page: &RunePage, live: &ActiveLoadout) -> (r: bool)
    ensures
        r == spec_same_page(page, live),
{
    if style_or_zero(&page.primary_tree_id) != live.primary_style {
        return false;
    }
    if style_or_zero(&page.secondary_tree_id) != live.sub_style {
        return false;
    }
    let want = page.collect_perk_ids();
    same_perks(&want, &live.perk_ids)
}

/// What the synchronizer does about one page: keep the live loadout,
/// or replace it — deleting the live page by id first, when one is
/// known, and creating the page's styles and perks marked current.
#[derive(Debug)]
pub enum RuneSyncPlan {
    Keep,
    Replace {
        delete_id: Option<i64>,
        name: String,
        primary_style: i32,
        sub_style: i32,
        perk_ids: Vec<i32>,
    },
}

/// Decides the synchronizer's action for the matched page: a live
/// loadout identical to the page (style ids equal, perk sets equal as
/// unordered collections) is kept — the idempotency guard against page
/// churn; anything else, including an unreadable live loadout, is
/// replaced by delete-then-create.
pub fn plan_rune_sync(page: &RunePage, live: &Option<ActiveLoadout>) -> (r: RuneSyncPlan)
    ensures
        (r is Keep) <==> (live matches Some(l) && spec_same_page(page, &l)),
        r matches RuneSyncPlan::Replace { delete_id, name, primary_style, sub_style, perk_ids }
            ==> {
            &&& delete_id == (match live {
                Some(l) => l.id,
                None => None::<i64>,
            })
            &&& name@ == page.name@
            &&& primary_style == opt_style(page.primary_tree_id)
            &&& sub_style == opt_style(page.secondary_tree_id)
            &&& perk_ids@ == page_perks(page)
        },
{
    let delete_id: Option<i64> = match live {
        Some(l) => {
            if same_page(page, l) {
                return RuneSyncPlan::Keep;
            }
            l.id
        },
        None => None,
    };
    RuneSyncPlan::Replace {
        delete_id,
        name: page.name.clone(),
        primary_style: style_or_zero(&page.primary_tree_id),
        sub_style: style_or_zero(&page.secondary_tree_id),
        perk_ids: page.collect_perk_ids(),
    }
}

/// Whether the page names this champion (exact name match).
pub open spec fn has_champion(p: RunePage, name: Seq<char>) -> bool {
    exists|i: int| 0 <= i < p.champions@.len() && p.champions@[i]@ == name
}

/// The requested role, lowercased, where one is requested at all.
pub open spec fn spec_role_key(role: Option<&str>) -> Option<Seq<char>> {
    match role {
        Some(r) => Some(lower_of(r@)),
        None => None,
    }
}

/// Whether a page serves the request: its champions name the champion,
/// and its role — where the request names one — is either absent from
/// the page or case-insensitively equal to the requested role.
pub open spec fn spec_page_matches(p: RunePage, name: Seq<char>, role_low: Option<Seq<char>>) -> bool {
    &&& has_champion(p, name)
    &&& match role_low {
        None => true,
        Some(w) => match p.role {
            None => true,
            Some(pr) => lower_of(pr@) == w,
        },
    }
}

fn page_matches(p: &RunePage, champion: &str, role: Option<&str>) -> (r: bool)
    ensures
        r == spec_page_matches(*p, champion@, spec_role_key(role)),
{
    let mut found = false;
    let mut i: usize = 0;
    while i < p.champions.len()
        invariant
            i <= p.champions@.len(),
            found == exists|t: int| 0 <= t < i && p.champions@[t]@ == champion@,
        decreases p.champions@.len() - i,
    {
        if str_eq(p.champions[i].as_str(), champion) {
            proof {
                assert(p.champions@[i as int]@ == champion@);
            }
            found = true;
        }
        i += 1;
    }
    if !found {
        return false;
    }
    match role {
        None => true,
        Some(want) => match &p.role {
            None => true,
            Some(pr) => {
                let a = lowercase(pr.as_str());
                let b = lowercase(want);
                str_eq(a.as_str(), b.as_str())
            },
        },
    }
}

/// The indices of the pages serving the request, in stored order.
pub open spec fn spec_matching_indices(
    pages: Seq<RunePage>,
    name: Seq<char>,
    role_low: Option<Seq<char>>,
) -> Seq<int>
    decreases pages.len(),
{
    if pages.len() == 0 {
        Seq::empty()
    } else {
        let rest = spec_matching_indices(pages.drop_last(), name, role_low);
        if spec_page_matches(pages.last(), name, role_low) {
            rest.push(pages.len() - 1)
        } else {
            rest
        }
    }
}

/// The first stored page serving the request.
pub open spec fn spec_best_page(
    pages: Seq<RunePage>,
    name: Seq<char>,
    role_low: Option<Seq<char>>,
) -> Option<RunePage>
    decreases pages.len(),
{
    if pages.len() == 0 {
        None
    } else if spec_page_matches(pages[0], name, role_low) {
        Some(pages[0])
    } else {
        spec_best_page(pages.skip(1), name, role_low)
    }
}

/// The index of the first stored page with the given id.
pub open spec fn spec_page_index(pages: Seq<RunePage>, id: Seq<char>) -> Option<int>
    decreases pages.len(),
{
    if pages.len() == 0 {
        None
    } else if pages[0].id@ == id {
        Some(0)
    } else {
        match spec_page_index(pages.skip(1), id) {
            Some(k) => Some(k + 1),
            None => None,
        }
    }
}

/// The stored pages with every page of the given id removed, order
/// kept.
pub open spec fn pages_without(pages: Seq<RunePage>, id: Seq<char>) -> Seq<RunePage>
    decreases pages.len(),
{
    if pages.len() == 0 {
        Seq::empty()
    } else if pages.last().id@ == id {
        pages_without(pages.drop_last(), id)
    } else {
        pages_without(pages.drop_last(), id).push(pages.last())
    }
}

proof fn lemma_pages_without_remove(pages: Seq<RunePage>, id: Seq<char>, k: int)
    requires
        0 <= k < pages.len(),
        pages[k].id@ == id,
    ensures
        pages_without(pages.remove(k), id) == pages_without(pages, id),
    decreases pages.len(),
{
    if k == pages.len() - 1 {
        assert(pages.remove(k) =~= pages.drop_last());
    } else {
        assert(pages.remove(k).drop_last() =~= pages.drop_last().remove(k));
        assert(pages.remove(k).last() == pages.last());
        assert(pages.drop_last()[k] == pages[k]);
        lemma_pages_without_remove(pages.drop_last(), id, k);
    }
}

proof fn lemma_pages_without_clean(pages: Seq<RunePage>, id: Seq<char>)
    requires
        forall|j: int| 0 <= j < pages.len() ==> (#[trigger] pages[j]).id@ != id,
    ensures
        pages_without(pages, id) == pages,
    decreases pages.len(),
{
    if pages.len() > 0 {
        assert(forall|j: int| 0 <= j < pages.drop_last().len() ==> pages.drop_last()[j]
            == pages[j]);
        lemma_pages_without_clean(pages.drop_last(), id);
        assert(pages_without(pages, id) =~= pages);
    }
}

/// The stored rune pages, with lookup by champion and role and the
/// upsert/delete bookkeeping. Persistence is the caller's: it hands
/// the stored pages in and writes them back after a change.
pub struct RunePageManager {
    pub pages: Vec<RunePage>,
}

impl RunePageManager {
    pub fn new(pages: Vec<RunePage>) -> (r: Self)
        ensures
            r.pages == pages,
    {
        Self { pages }
    }

    /// All stored pages, in order.
    pub fn list(&self) -> (r: &Vec<RunePage>)
        ensures
            r == &self.pages,
    {
        &self.pages
    }

    /// Saves a page: replaces the stored page with the same id, or
    /// appends the page where none has its id.
    pub fn save(&mut self, page: RunePage) -> (r: Result<(), String>)
        ensures
            r is Ok,
            match spec_page_index(old(self).pages@, page.id@) {
                Some(k) => final(self).pages@ == old(self).pages@.update(k, page),
                None => final(self).pages@ == old(self).pages@.push(page),
            },
    {
        let ghost gs = self.pages@;
        let mut i: usize = 0;
        proof {
            assert(gs.skip(0) =~= gs);
        }
        while i < self.pages.len()
            invariant
                i <= gs.len(),
                gs == self.pages@,
                self.pages@ == old(self).pages@,
                spec_page_index(gs, page.id@) == match spec_page_index(
                    gs.skip(i as int),
                    page.id@,
                ) {
                    Some(k) => Some(k + i),
                    None => None::<int>,
                },
            decreases gs.len() - i,
        {
            proof {
                assert(gs.skip(i as int)[0] == gs[i as int]);
            }
            if str_eq(self.pages[i].id.as_str(), page.id.as_str()) {
                proof {
                    assert(spec_page_index(gs, page.id@) == Some(i as int));
                }
                self.pages.set(i, page);
                return Ok(());
            }
            proof {
                assert(gs.skip(i as int).skip(1) =~= gs.skip(i as int + 1));
            }
            i += 1;
        }
        proof {
            assert(gs.skip(gs.len() as int) =~= Seq::<RunePage>::empty());
        }
        self.pages.push(page);
        Ok(())
    }

    /// Deletes every stored page with the given id.
    pub fn delete(&mut self, id: &str) -> (r: Result<(), String>)
        ensures
            r is Ok,
            final(self).pages@ == pages_without(old(self).pages@, id@),
    {
        let mut i: usize = 0;
        while i < self.pages.len()
            invariant
                i <= self.pages@.len(),
                forall|j: int| 0 <= j < i ==> (#[trigger] self.pages@[j]).id@ != id@,
                pages_without(self.pages@, id@) == pages_without(old(self).pages@, id@),
            decreases self.pages@.len() - i,
        {
            if str_eq(self.pages[i].id.as_str(), id) {
                let ghost pre = self.pages@;
                self.pages.remove(i);
                proof {
                    lemma_pages_without_remove(pre, id@, i as int);
                    assert(forall|j: int| 0 <= j < i ==> self.pages@[j] == pre[j]);
                }
            } else {
                i += 1;
            }
        }
        proof {
            lemma_pages_without_clean(self.pages@, id@);
        }
        Ok(())
    }

    /// The indices of the stored pages serving the request, in stored
    /// order.
    pub fn find_pages(&self, champion: &str, role: Option<&str>) -> (r: Vec<usize>)
        ensures
            r@.len() == spec_matching_indices(self.pages@, champion@, spec_role_key(role)).len(),
            forall|t: int|
                0 <= t < r@.len() ==> r@[t] as int == spec_matching_indices(
                    self.pages@,
                    champion@,
                    spec_role_key(role),
                )[t],
            forall|t: int| 0 <= t < r@.len() ==> (#[trigger] r@[t]) < self.pages@.len(),
    {
        let mut out: Vec<usize> = Vec::new();
        let mut i: usize = 0;
        while i < self.pages.len()
            invariant
                i <= self.pages@.len(),
                out@.len() == spec_matching_indices(
                    self.pages@.take(i as int),
                    champion@,
                    spec_role_key(role),
                ).len(),
                forall|t: int|
                    0 <= t < out@.len() ==> out@[t] as int == spec_matching_indices(
                        self.pages@.take(i as int),
                        champion@,
                        spec_role_key(role),
                    )[t],
                forall|t: int| 0 <= t < out@.len() ==> (#[trigger] out@[t]) < i,
            decreases self.pages@.len() - i,
        {
            proof {
                assert(self.pages@.take(i as int + 1).drop_last() =~= self.pages@.take(i as int));
                assert(self.pages@.take(i as int + 1).last() == self.pages@[i as int]);
            }
            if page_matches(&self.pages[i], champion, role) {
                out.push(i);
            }
            i += 1;
        }
        proof {
            assert(self.pages@.take(self.pages@.len() as int) =~= self.pages@);
        }
        out
    }

    /// The first stored page serving the request, if any.
    pub fn find_best_page(&self, champion: &str, role: Option<&str>) -> (r: Option<&RunePage>)
        ensures
            match r {
                Some(p) => spec_best_page(self.pages@, champion@, spec_role_key(role)) == Some(*p),
                None => spec_best_page(self.pages@, champion@, spec_role_key(role)) is None,
            },
    {
        let ghost gs = self.pages@;
        let mut i: usize = 0;
        proof {
            assert(gs.skip(0) =~= gs);
        }
        while i < self.pages.len()
            invariant
                i <= gs.len(),
                gs == self.pages@,
                spec_best_page(gs, champion@, spec_role_key(role)) == spec_best_page(
                    gs.skip(i as int),
                    champion@,
                    spec_role_key(role),
                ),
            decreases gs.len() - i,
        {
            proof {
                assert(gs.skip(i as int)[0] == gs[i as int]);
            }
            if page_matches(&self.pages[i], champion, role) {
                return Some(&self.pages[i]);
            }
            proof {
                assert(gs.skip(i as int).skip(1) =~= gs.skip(i as int + 1));
            }
            i += 1;
        }
        None
    }

    /// The synchronizer's whole decision for one champion and role:
    /// no stored page serves the request — a logged no-op — or the
    /// best page is diffed against the live loadout and kept or
    /// replaced.
    pub fn plan_for_champion(&self, champion: &str, role: &str, live: &Option<ActiveLoadout>) -> (r:
        Option<RuneSyncPlan>)
        ensures
            (r is None) <==> spec_best_page(
                self.pages@,
                champion@,
                Some(lower_of(role@)),
            ) is None,
            r matches Some(pl) ==> (spec_best_page(
                self.pages@,
                champion@,
                Some(lower_of(role@)),
            ) matches Some(p) && ((pl is Keep) <==> (live matches Some(l) && spec_same_page(
                &p,
                &l,
            )))),
    {
        match self.find_best_page(champion, Some(role)) {
            None => None,
            Some(page) => Some(plan_rune_sync(page, live)),
        }
    }
}

/// What the rune synchronizer needs from one champ-select snapshot:
/// the locked champion, its display name, and the normalized role.
#[derive(Debug)]
pub struct RunePickRequest {
    pub champion_id: i64,
    pub champion_name: String,
    pub role: String,
}

/// The synchronizer's normalized role: the lowercased assigned
/// position, with "utility" read as "support" and "middle" as "mid";
/// an empty position is "support" in the practice-tool queue (3140)
/// and "unknown" otherwise.
pub open spec fn spec_rune_role(s: &ChampSelectSessionPayload, p: CsPlayer) -> Seq<char> {
    let low = lower_of(
        match p.assigned_position {
            Some(pos) => pos@,
            None => Seq::empty(),
        },
    );
    if low == "utility"@ {
        "support"@
    } else if low == "middle"@ {
        "mid"@
    } else if low.len() == 0 && s.queue_id == 3140 {
        "support"@
    } else if low.len() == 0 {
        "unknown"@
    } else {
        low
    }
}

impl RunePickRequest {
    /// Derives the synchronizer's request from a snapshot: the local
    /// player must be on the roster with a non-zero champion the
    /// catalog can name; otherwise there is nothing to synchronize.
    pub fn from_session(session: &ChampSelectSessionPayload, resolver: &ChampionCatalog) -> (r:
        Option<RunePickRequest>)
        ensures
            (r is Some) <==> (first_player(
                session.my_team@,
                session.local_player_cell_id,
            ) matches Some(p) && p.champion_id != 0 && spec_resolve_name(
                resolver.entries@,
                p.champion_id,
            ) is Some),
            r matches Some(req) ==> (first_player(
                session.my_team@,
                session.local_player_cell_id,
            ) matches Some(p) && req.champion_id == p.champion_id && req.role@ == spec_rune_role(
                session,
                p,
            ) && spec_resolve_name(resolver.entries@, req.champion_id) == Some(
                req.champion_name@,
            )),
    {
        let ghost team = session.my_team@;
        let ghost local = session.local_player_cell_id;
        let mut i: usize = 0;
        proof {
            assert(team.skip(0) =~= team);
        }
        while i < session.my_team.len()
            invariant
                i <= team.len(),
                team == session.my_team@,
                local == session.local_player_cell_id,
                first_player(team, local) == first_player(team.skip(i as int), local),
            decreases team.len() - i,
        {
            let player = &session.my_team[i];
            proof {
                assert(team.skip(i as int)[0] == team[i as int]);
            }
            if player.cell_id == session.local_player_cell_id {
                let champ = player.champion_id;
                if champ == 0 {
                    return None;
                }
                let low = match &player.assigned_position {
                    Some(pos) => lowercase(pos.as_str()),
                    None => {
                        proof {
                            reveal_strlit("");
                            assert(""@ =~= Seq::<char>::empty());
                        }
                        lowercase("")
                    },
                };
                let role: String = if str_eq(low.as_str(), "utility") {
                    "support".to_owned()
                } else if str_eq(low.as_str(), "middle") {
                    "mid".to_owned()
                } else if low.as_str().is_empty() {
                    if session.queue_id == 3140 {
                        "support".to_owned()
                    } else {
                        "unknown".to_owned()
                    }
                } else {
                    low
                };
                let name = match resolver.resolve_name(champ) {
                    Some(n) => n,
                    None => {
                        return None;
                    },
                };
                return Some(RunePickRequest { champion_id: champ, champion_name: name, role });
            }
            proof {
                assert(team.skip(i as int).skip(1) =~= team.skip(i as int + 1));
            }
            i += 1;
        }
        None
    }
}

/// Whether a champ-select phase triggers the delayed rune evaluation:
/// every phase but PLANNING does.
pub fn rune_sync_phase_gate(phase: &str) -> (r: bool)
    ensures
        r == (phase@ != "PLANNING"@),
{
    !str_eq(phase, "PLANNING")
}

} // verus!
