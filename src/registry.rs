use vstd::prelude::*;

use crate::menu::{
    entry_leaves, items_leaves, menu_leaves, MenuHash, SystemTrayMenu, SystemTrayMenuEntry,
};

verus! {

broadcast use vstd::std_specs::vec::group_vec_axioms;

/// `m` after inserting the pairs of `s` in order: a later pair overwrites an
/// earlier one with the same handle.
pub open spec fn overlay(m: Map<MenuHash, Seq<char>>, s: Seq<(MenuHash, Seq<char>)>) -> Map<
    MenuHash,
    Seq<char>,
>
    decreases s.len(),
{
    if s.len() == 0 {
        m
    } else {
        overlay(m, s.drop_last()).insert(s.last().0, s.last().1)
    }
}

/// The mapping that the pairs of `s` describe, last writer winning.
pub open spec fn map_of(s: Seq<(MenuHash, Seq<char>)>) -> Map<MenuHash, Seq<char>> {
    overlay(Map::empty(), s)
}

/// The handle-to-identifier mapping of a menu, submenus merged into one namespace.
pub open spec fn flatten(menu: SystemTrayMenu) -> Map<MenuHash, Seq<char>> {
    map_of(menu_leaves(menu))
}

/// No two pairs of `s` share a handle.
pub open spec fn handles_unique(s: Seq<(MenuHash, Seq<char>)>) -> bool {
    forall|i: int, j: int|
        0 <= i < s.len() && 0 <= j < s.len() && i != j ==> #[trigger] s[i].0 != #[trigger] s[j].0
}

/// Whether some handle of `m` names the identifier `id`.
pub open spec fn names(m: Map<MenuHash, Seq<char>>, id: Seq<char>) -> bool {
    exists|h: MenuHash| m.contains_key(h) && m[h] == id
}

pub proof fn lemma_overlay_append(
    m: Map<MenuHash, Seq<char>>,
    a: Seq<(MenuHash, Seq<char>)>,
    b: Seq<(MenuHash, Seq<char>)>,
)
    ensures
        overlay(m, a + b) == overlay(overlay(m, a), b),
    decreases b.len(),
{
    if b.len() == 0 {
        assert(a + b =~= a);
    } else {
        assert((a + b).drop_last() =~= a + b.drop_last());
        lemma_overlay_append(m, a, b.drop_last());
    }
}

/// A handle is in the mapping exactly when some pair carries it.
pub proof fn lemma_map_of_dom(s: Seq<(MenuHash, Seq<char>)>, h: MenuHash)
    ensures
        map_of(s).contains_key(h) <==> exists|i: int| 0 <= i < s.len() && #[trigger] s[i].0 == h,
    decreases s.len(),
{
    if s.len() > 0 {
        lemma_map_of_dom(s.drop_last(), h);
        if map_of(s.drop_last()).contains_key(h) {
            let i = choose|i: int| 0 <= i < s.drop_last().len() && #[trigger] s.drop_last()[i].0 == h;
            assert(s[i].0 == h);
        }
        if exists|i: int| 0 <= i < s.len() && #[trigger] s[i].0 == h {
            let i = choose|i: int| 0 <= i < s.len() && #[trigger] s[i].0 == h;
            if i < s.len() - 1 {
                assert(s.drop_last()[i].0 == h);
            }
        }
    }
}

/// Where handles are unique, each pair stands in the mapping as it is.
pub proof fn lemma_map_of_pair(s: Seq<(MenuHash, Seq<char>)>, i: int)
    requires
        handles_unique(s),
        0 <= i < s.len(),
    ensures
        map_of(s).contains_key(s[i].0),
        map_of(s)[s[i].0] == s[i].1,
    decreases s.len(),
{
    if i < s.len() - 1 {
        let t = s.drop_last();
        assert(t[i] == s[i]);
        assert(handles_unique(t)) by {
            assert forall|a: int, b: int| 0 <= a < t.len() && 0 <= b < t.len() && a != b implies #[trigger] t[a].0
                != #[trigger] t[b].0 by {
                assert(t[a] == s[a] && t[b] == s[b]);
            }
        }
        lemma_map_of_pair(t, i);
        assert(s[s.len() - 1].0 != s[i].0);
    }
}

/// Where handles are unique, replacing the identifier of one pair replaces it in the mapping.
proof fn lemma_map_of_update(s: Seq<(MenuHash, Seq<char>)>, j: int, v: Seq<char>)
    requires
        handles_unique(s),
        0 <= j < s.len(),
    ensures
        map_of(s.update(j, (s[j].0, v))) == map_of(s).insert(s[j].0, v),
    decreases s.len(),
{
    let u = s.update(j, (s[j].0, v));
    let t = s.drop_last();
    if j == s.len() - 1 {
        assert(u.drop_last() =~= t);
        assert(map_of(u) =~= map_of(s).insert(s[j].0, v));
    } else {
        assert(handles_unique(t)) by {
            assert forall|a: int, b: int| 0 <= a < t.len() && 0 <= b < t.len() && a != b implies #[trigger] t[a].0
                != #[trigger] t[b].0 by {
                assert(t[a] == s[a] && t[b] == s[b]);
            }
        }
        assert(u.drop_last() =~= t.update(j, (t[j].0, v)));
        lemma_map_of_update(t, j, v);
        assert(s.last().0 != s[j].0);
        assert(map_of(u) =~= map_of(s).insert(s[j].0, v));
    }
}

/// No two pairs of `s` share an identifier.
pub open spec fn identifiers_unique(s: Seq<(MenuHash, Seq<char>)>) -> bool {
    forall|i: int, j: int|
        0 <= i < s.len() && 0 <= j < s.len() && i != j ==> #[trigger] s[i].1 != #[trigger] s[j].1
}

/// Where handles are unique, the mapping has as many entries as there are pairs.
proof fn lemma_map_of_len(s: Seq<(MenuHash, Seq<char>)>)
    requires
        handles_unique(s),
    ensures
        map_of(s).dom().finite(),
        map_of(s).dom().len() == s.len(),
    decreases s.len(),
{
    if s.len() > 0 {
        let t = s.drop_last();
        assert(handles_unique(t)) by {
            assert forall|a: int, b: int| 0 <= a < t.len() && 0 <= b < t.len() && a != b implies #[trigger] t[a].0
                != #[trigger] t[b].0 by {
                assert(t[a] == s[a] && t[b] == s[b]);
            }
        }
        lemma_map_of_len(t);
        lemma_map_of_dom(t, s.last().0);
        if map_of(t).contains_key(s.last().0) {
            let i = choose|i: int| 0 <= i < t.len() && #[trigger] t[i].0 == s.last().0;
            assert(s[i].0 == s[s.len() - 1].0);
        }
        assert(map_of(s).dom() =~= map_of(t).dom().insert(s.last().0));
    }
}

/// Each value of the mapping comes from a pair that carries its handle.
proof fn lemma_map_of_source(s: Seq<(MenuHash, Seq<char>)>, h: MenuHash)
    requires
        map_of(s).contains_key(h),
    ensures
        exists|i: int| 0 <= i < s.len() && #[trigger] s[i] == (h, map_of(s)[h]),
    decreases s.len(),
{
    if s.last().0 == h {
        assert(s[s.len() - 1] == (h, map_of(s)[h]));
    } else {
        let t = s.drop_last();
        lemma_map_of_source(t, h);
        let i = choose|i: int| 0 <= i < t.len() && #[trigger] t[i] == (h, map_of(t)[h]);
        assert(s[i] == t[i]);
    }
}

/// The leaves under entry `k` stand, as one block, among the leaves under the
/// first `n` entries; the result is where the block starts.
proof fn lemma_entry_block(items: Seq<SystemTrayMenuEntry>, n: nat, k: int) -> (off: int)
    requires
        0 <= k < n <= items.len(),
    ensures
        0 <= off,
        off + entry_leaves(items[k]).len() <= items_leaves(items, n).len(),
        forall|i: int|
            0 <= i < entry_leaves(items[k]).len() ==> items_leaves(items, n)[off + i] == #[trigger] entry_leaves(
                items[k],
            )[i],
    decreases n,
{
    let prev = items_leaves(items, (n - 1) as nat);
    assert(items_leaves(items, n) == prev + entry_leaves(items[n - 1]));
    if k == n - 1 {
        prev.len() as int
    } else {
        lemma_entry_block(items, (n - 1) as nat, k)
    }
}

/// Every leaf of a menu with distinct handles stands in the menu's mapping with
/// its identifier, no other handle does, and so the mapping holds exactly one
/// entry per leaf: separators and submenus themselves add none.
pub proof fn lemma_flatten_one_entry_per_leaf(menu: SystemTrayMenu)
    requires
        handles_unique(menu_leaves(menu)),
    ensures
        flatten(menu).dom().len() == menu_leaves(menu).len(),
        forall|i: int|
            0 <= i < menu_leaves(menu).len() ==> flatten(menu).contains_key(
                #[trigger] menu_leaves(menu)[i].0,
            ) && flatten(menu)[menu_leaves(menu)[i].0] == menu_leaves(menu)[i].1,
        forall|h: MenuHash|
            #[trigger] flatten(menu).contains_key(h) ==> exists|i: int|
                0 <= i < menu_leaves(menu).len() && menu_leaves(menu)[i].0 == h,
{
    let s = menu_leaves(menu);
    lemma_map_of_len(s);
    assert forall|i: int| 0 <= i < s.len() implies map_of(s).contains_key(#[trigger] s[i].0) && map_of(s)[s[i].0]
        == s[i].1 by {
        lemma_map_of_pair(s, i);
    }
    assert forall|h: MenuHash| #[trigger] map_of(s).contains_key(h) implies exists|i: int|
        0 <= i < s.len() && s[i].0 == h by {
        lemma_map_of_dom(s, h);
        let i = choose|i: int| 0 <= i < s.len() && #[trigger] s[i].0 == h;
        assert(s[i].0 == h);
    }
}

/// Submenus get no namespace of their own: every leaf of a submenu, at any
/// depth, is a leaf of the enclosing menu, and where the menu's handles are
/// distinct it stands in the menu's mapping as a top-level leaf does.
pub proof fn lemma_flatten_merges_submenus(menu: SystemTrayMenu, k: int, i: int)
    requires
        0 <= k < menu.items@.len(),
        menu.items@[k] is Submenu,
        0 <= i < menu_leaves(menu.items@[k]->Submenu_0.inner).len(),
    ensures
        menu_leaves(menu).contains(menu_leaves(menu.items@[k]->Submenu_0.inner)[i]),
        handles_unique(menu_leaves(menu)) ==> ({
            let leaf = menu_leaves(menu.items@[k]->Submenu_0.inner)[i];
            flatten(menu).contains_key(leaf.0) && flatten(menu)[leaf.0] == leaf.1
        }),
{
    let items = menu.items@;
    let inner = menu_leaves(items[k]->Submenu_0.inner);
    assert(entry_leaves(items[k]) == inner);
    let off = lemma_entry_block(items, items.len(), k);
    let s = menu_leaves(menu);
    assert(s[off + i] == inner[i]);
    if handles_unique(s) {
        lemma_map_of_pair(s, off + i);
    }
}

/// The leaves of the first `n` entries depend on those entries alone.
proof fn lemma_items_leaves_prefix(a: Seq<SystemTrayMenuEntry>, b: Seq<SystemTrayMenuEntry>, n: nat)
    requires
        n <= a.len(),
    ensures
        items_leaves(a + b, n) == items_leaves(a, n),
    decreases n,
{
    if n > 0 {
        lemma_items_leaves_prefix(a, b, (n - 1) as nat);
        assert((a + b)[n - 1] == a[n - 1]);
    }
}

/// The leaves of two runs of entries, one after the other, are the leaves of
/// the first run followed by those of the second.
proof fn lemma_items_leaves_concat(a: Seq<SystemTrayMenuEntry>, b: Seq<SystemTrayMenuEntry>)
    ensures
        items_leaves(a + b, (a + b).len()) == items_leaves(a, a.len()) + items_leaves(b, b.len()),
    decreases b.len(),
{
    if b.len() == 0 {
        assert(a + b =~= a);
        assert(items_leaves(a, a.len()) + items_leaves(b, 0) =~= items_leaves(a, a.len()));
    } else {
        let b0 = b.drop_last();
        let last = b.last();
        lemma_items_leaves_concat(a, b0);
        assert(a + b =~= (a + b0) + seq![last]);
        assert(b =~= b0 + seq![last]);
        lemma_items_leaves_prefix(a + b0, seq![last], (a + b0).len());
        lemma_items_leaves_prefix(b0, seq![last], b0.len());
        assert((a + b)[(a + b).len() - 1] == last);
        assert(items_leaves(a + b, (a + b).len()) == items_leaves(a + b0, (a + b0).len())
            + entry_leaves(last));
        assert(items_leaves(b, b.len()) == items_leaves(b0, b0.len()) + entry_leaves(last));
        assert(items_leaves(a, a.len()) + items_leaves(b0, b0.len()) + entry_leaves(last)
            =~= items_leaves(a, a.len()) + (items_leaves(b0, b0.len()) + entry_leaves(last)));
    }
}

/// Submenus add no namespace: replacing a submenu entry, in place, by the
/// entries of its own menu leaves the menu's mapping unchanged.
pub proof fn lemma_inlining_submenu_keeps_mapping(menu: SystemTrayMenu, flat: SystemTrayMenu, k: int)
    requires
        0 <= k < menu.items@.len(),
        menu.items@[k] is Submenu,
        flat.items@ == menu.items@.subrange(0, k) + menu.items@[k]->Submenu_0.inner.items@
            + menu.items@.subrange(k + 1, menu.items@.len() as int),
    ensures
        flatten(flat) == flatten(menu),
{
    let items = menu.items@;
    let pre = items.subrange(0, k);
    let e = items[k];
    let mid = e->Submenu_0.inner.items@;
    let post = items.subrange(k + 1, items.len() as int);
    assert(items =~= pre + seq![e] + post);
    lemma_items_leaves_concat(pre + seq![e], post);
    lemma_items_leaves_concat(pre, seq![e]);
    assert(items_leaves(seq![e], 1) == items_leaves(seq![e], 0) + entry_leaves(seq![e][0]));
    assert(items_leaves(seq![e], 1) =~= entry_leaves(e));
    assert(entry_leaves(e) == items_leaves(mid, mid.len()));
    lemma_items_leaves_concat(pre + mid, post);
    lemma_items_leaves_concat(pre, mid);
    assert(menu_leaves(flat) =~= menu_leaves(menu));
}

/// In a menu whose handles and identifiers are all distinct, each leaf's
/// identifier is mapped from that leaf's handle and from no other.
pub proof fn lemma_flatten_resolves_leaf(menu: SystemTrayMenu, i: int)
    requires
        handles_unique(menu_leaves(menu)),
        identifiers_unique(menu_leaves(menu)),
        0 <= i < menu_leaves(menu).len(),
    ensures
        flatten(menu).contains_key(menu_leaves(menu)[i].0),
        flatten(menu)[menu_leaves(menu)[i].0] == menu_leaves(menu)[i].1,
        forall|h: MenuHash|
            flatten(menu).contains_key(h) && #[trigger] flatten(menu)[h] == menu_leaves(menu)[i].1 ==> h
                == menu_leaves(menu)[i].0,
{
    let s = menu_leaves(menu);
    lemma_map_of_pair(s, i);
    assert forall|h: MenuHash| map_of(s).contains_key(h) && #[trigger] map_of(s)[h] == s[i].1 implies h == s[i].0 by {
        lemma_map_of_source(s, h);
        let j = choose|j: int| 0 <= j < s.len() && #[trigger] s[j] == (h, map_of(s)[h]);
        assert(s[j].1 == s[i].1);
    }
}

/// Installing one menu twice resolves identifiers alike: both mappings are the
/// same, and where the menu's identifiers are distinct, the handles that the two
/// give for one identifier are the same handle.
pub proof fn lemma_rebuild_resolves_alike(
    menu: SystemTrayMenu,
    first: Registry,
    second: Registry,
    id: Seq<char>,
    h1: MenuHash,
    h2: MenuHash,
)
    requires
        first@ == flatten(menu),
        second@ == flatten(menu),
        identifiers_unique(menu_leaves(menu)),
        first@.contains_key(h1) && first@[h1] == id,
        second@.contains_key(h2) && second@[h2] == id,
    ensures
        first@ == second@,
        h1 == h2,
{
    let s = menu_leaves(menu);
    lemma_map_of_source(s, h1);
    lemma_map_of_source(s, h2);
    let i = choose|i: int| 0 <= i < s.len() && #[trigger] s[i] == (h1, map_of(s)[h1]);
    let j = choose|j: int| 0 <= j < s.len() && #[trigger] s[j] == (h2, map_of(s)[h2]);
    assert(s[i].1 == s[j].1);
}

/// The (handle, identifier) pairs that a vector of entries holds.
pub open spec fn pairs_of(v: Seq<(MenuHash, String)>) -> Seq<(MenuHash, Seq<char>)> {
    v.map_values(|p: (MenuHash, String)| (p.0, p.1@))
}

/// The mapping from the native handles of the installed menu to the identifiers
/// that callers gave its items. Each handle stands in it once.
#[derive(Debug)]
pub struct Registry {
    entries: Vec<(MenuHash, String)>,
}

impl Registry {
    /// The pairs in the order in which they were first inserted.
    pub closed spec fn pairs(&self) -> Seq<(MenuHash, Seq<char>)> {
        pairs_of(self.entries@)
    }

    #[verifier::type_invariant]
    closed spec fn inv(&self) -> bool {
        handles_unique(self.pairs())
    }

    /// An empty mapping.
    pub fn new() -> (r: Self)
        ensures
            r@ == Map::<MenuHash, Seq<char>>::empty(),
    {
        let r = Registry { entries: Vec::new() };
        assert(r.pairs().len() == 0);
        r
    }

    /// Maps `hash` to `id`, replacing what `hash` mapped to before.
    pub fn insert(&mut self, hash: MenuHash, id: String)
        ensures
            final(self)@ == old(self)@.insert(hash, id@),
    {
        proof {
            use_type_invariant(&*self);
        }
        let ghost before = self.pairs();
        let mut entries: Vec<(MenuHash, String)> = Vec::new();
        std::mem::swap(&mut self.entries, &mut entries);
        assert(pairs_of(entries@) == before);
        let ghost v = id@;
        let mut j: usize = 0;
        let mut found = false;
        while j < entries.len()
            invariant_except_break
                !found,
            invariant
                0 <= j <= entries@.len(),
                pairs_of(entries@) == before,
                handles_unique(before),
                forall|k: int| 0 <= k < j ==> before[k].0 != hash,
            ensures
                found ==> j < entries@.len() && before[j as int].0 == hash,
                !found ==> j == entries@.len(),
            decreases entries@.len() - j,
        {
            if entries[j].0 == hash {
                found = true;
                assert(pairs_of(entries@)[j as int].0 == entries@[j as int].0);
                break;
            }
            j += 1;
        }
        if found {
            entries.set(j, (hash, id));
            proof {
                assert(pairs_of(entries@) =~= before.update(j as int, (before[j as int].0, v)));
                lemma_map_of_update(before, j as int, v);
                let s = pairs_of(entries@);
                assert forall|a: int, b: int| 0 <= a < s.len() && 0 <= b < s.len() && a != b implies #[trigger] s[a].0
                    != #[trigger] s[b].0 by {
                    assert(s[a].0 == before[a].0 && s[b].0 == before[b].0);
                }
            }
        } else {
            entries.push((hash, id));
            proof {
                let s = pairs_of(entries@);
                assert(s =~= before.push((hash, v)));
                assert(s.drop_last() =~= before);
                assert forall|a: int, b: int| 0 <= a < s.len() && 0 <= b < s.len() && a != b implies #[trigger] s[a].0
                    != #[trigger] s[b].0 by {
                    if a < before.len() && b < before.len() {
                        assert(s[a] == before[a] && s[b] == before[b]);
                    } else if a < before.len() {
                        assert(s[a] == before[a]);
                    } else {
                        assert(s[b] == before[b]);
                    }
                }
            }
        }
        self.entries = entries;
    }

    /// The handle of an item named `id`, if the mapping holds one. Where several
    /// handles name `id`, one of them.
    pub fn find(&self, id: &str) -> (r: Option<MenuHash>)
        ensures
            r matches Some(h) ==> self@.contains_key(h) && self@[h] == id@,
            r is None <==> !names(self@, id@),
    {
        proof {
            use_type_invariant(self);
        }
        let key = id.to_owned();
        let mut i: usize = 0;
        while i < self.entries.len()
            invariant
                0 <= i <= self.entries@.len(),
                key@ == id@,
                handles_unique(self.pairs()),
                forall|k: int| 0 <= k < i ==> self.pairs()[k].1 != id@,
            decreases self.entries@.len() - i,
        {
            if self.entries[i].1 == key {
                proof {
                    lemma_map_of_pair(self.pairs(), i as int);
                }
                return Some(self.entries[i].0);
            }
            assert(self.pairs()[i as int].1 != id@);
            i += 1;
        }
        proof {
            assert forall|h: MenuHash| self@.contains_key(h) implies self@[h] != id@ by {
                lemma_map_of_dom(self.pairs(), h);
                let k = choose|k: int| 0 <= k < self.pairs().len() && #[trigger] self.pairs()[k].0 == h;
                lemma_map_of_pair(self.pairs(), k);
            }
        }
        None
    }
}

/// Inserts into `map` the pair of every leaf of `menu`, in declared order,
/// descending into submenus.
fn collect_menu_ids(map: &mut Registry, menu: &SystemTrayMenu)
    ensures
        final(map)@ == overlay(old(map)@, menu_leaves(*menu)),
    decreases menu,
{
    let ghost start = map@;
    let ghost items = menu.items@;
    let mut i: usize = 0;
    while i < menu.items.len()
        invariant
            0 <= i <= items.len(),
            items == menu.items@,
            map@ == overlay(start, items_leaves(items, i as nat)),
        decreases items.len() - i,
    {
        let ghost prev = map@;
        match &menu.items[i] {
            SystemTrayMenuEntry::CustomItem(c) => {
                map.insert(c.id, c.id_str.clone());
                proof {
                    let one = entry_leaves(items[i as int]);
                    assert(one =~= seq![(c.id, c.id_str@)]);
                    assert(one.drop_last() =~= Seq::<(MenuHash, Seq<char>)>::empty());
                    assert(overlay(prev, one) == overlay(prev, one.drop_last()).insert(c.id, c.id_str@));
                    assert(map@ == overlay(prev, one));
                }
            },
            SystemTrayMenuEntry::NativeItem(_) => {
                assert(entry_leaves(items[i as int]) =~= Seq::<(MenuHash, Seq<char>)>::empty());
                assert(map@ == overlay(prev, entry_leaves(items[i as int])));
            },
            SystemTrayMenuEntry::Submenu(sub) => {
                assert(decreases_to!(menu.items => menu.items[i as int]));
                collect_menu_ids(map, &sub.inner);
                assert(entry_leaves(items[i as int]) == menu_leaves(sub.inner));
                assert(map@ == overlay(prev, entry_leaves(items[i as int])));
            },
        }
        proof {
            lemma_overlay_append(start, items_leaves(items, i as nat), entry_leaves(items[i as int]));
            assert(items_leaves(items, (i + 1) as nat) == items_leaves(items, i as nat) + entry_leaves(
                items[i as int],
            ));
        }
        i += 1;
    }
}

/// The mapping of `menu`: every leaf item's handle mapped to its identifier,
/// submenus merged into one namespace, a later duplicate handle overwriting an
/// earlier one.
pub fn get_menu_ids(menu: &SystemTrayMenu) -> (r: Registry)
    ensures
        r@ == flatten(*menu),
{
    let mut map = Registry::new();
    collect_menu_ids(&mut map, menu);
    map
}

/// Whether two distinct handles of `m` name one identifier.
pub open spec fn ambiguous(m: Map<MenuHash, Seq<char>>) -> bool {
    exists|h1: MenuHash, h2: MenuHash|
        h1 != h2 && m.contains_key(h1) && m.contains_key(h2) && #[trigger] m[h1] == #[trigger] m[h2]
}

impl Registry {
    /// Whether two distinct handles name one identifier, so that a lookup of
    /// that identifier picks one of them.
    pub fn has_ambiguous_identifier(&self) -> (r: bool)
        ensures
            r == ambiguous(self@),
    {
        proof {
            use_type_invariant(self);
        }
        let ghost s = self.pairs();
        let n = self.entries.len();
        let mut i: usize = 0;
        while i < n
            invariant
                n == s.len(),
                s == self.pairs(),
                handles_unique(s),
                0 <= i <= n,
                forall|a: int, b: int| 0 <= a < i && a < b < n ==> #[trigger] s[a].1 != #[trigger] s[b].1,
            decreases n - i,
        {
            let mut j: usize = i + 1;
            while j < n
                invariant
                    n == s.len(),
                    s == self.pairs(),
                    handles_unique(s),
                    0 <= i < n,
                    i < j <= n,
                    forall|b: int| i < b < j ==> s[i as int].1 != #[trigger] s[b].1,
                decreases n - j,
            {
                if self.entries[i].1 == self.entries[j].1 {
                    proof {
                        lemma_map_of_pair(s, i as int);
                        lemma_map_of_pair(s, j as int);
                        assert(s[i as int].0 != s[j as int].0);
                        assert(self@[s[i as int].0] == self@[s[j as int].0]);
                    }
                    return true;
                }
                j += 1;
            }
            i += 1;
        }
        proof {
            assert forall|h1: MenuHash, h2: MenuHash|
                h1 != h2 && self@.contains_key(h1) && self@.contains_key(h2) implies #[trigger] self@[h1]
                != #[trigger] self@[h2] by {
                lemma_map_of_dom(s, h1);
                lemma_map_of_dom(s, h2);
                let a = choose|a: int| 0 <= a < s.len() && #[trigger] s[a].0 == h1;
                let b = choose|b: int| 0 <= b < s.len() && #[trigger] s[b].0 == h2;
                lemma_map_of_pair(s, a);
                lemma_map_of_pair(s, b);
                if a < b {
                    assert(s[a].1 != s[b].1);
                } else {
                    assert(s[b].1 != s[a].1);
                }
            }
        }
        false
    }
}

impl Clone for Registry {
    fn clone(&self) -> (r: Self)
        ensures
            r@ == self@,
    {
        proof {
            use_type_invariant(self);
        }
        let mut entries: Vec<(MenuHash, String)> = Vec::new();
        let mut i: usize = 0;
        while i < self.entries.len()
            invariant
                0 <= i <= self.entries@.len(),
                pairs_of(entries@) =~= self.pairs().take(i as int),
            decreases self.entries@.len() - i,
        {
            entries.push((self.entries[i].0, self.entries[i].1.clone()));
            assert(self.pairs().take((i + 1) as int) =~= self.pairs().take(i as int).push(self.pairs()[i as int]));
            i += 1;
        }
        assert(self.pairs().take(i as int) =~= self.pairs());
        Registry { entries }
    }
}

impl View for Registry {
    type V = Map<MenuHash, Seq<char>>;

    closed spec fn view(&self) -> Map<MenuHash, Seq<char>> {
        map_of(self.pairs())
    }
}

} // verus!
