//! Profiles, the profile collection, and the active-profile check.
//!
//! A `ProfileCollection` is an ordered mapping from uid to profile, with at
//! most one uid marked active. Its invariant: uids are unique, and the
//! active uid, if set, names an existing entry.

use vstd::prelude::*;
use crate::options::ProfileOption;

verus! {

/// Where a profile's content comes from: a remote subscription URL, or a
/// local import.
#[derive(Clone, Copy, Debug, PartialEq, Eq)]
pub enum ProfileKind {
    Remote,
    Local,
}

/// A named proxy configuration bundle. Identity is `uid`; a successful
/// update replaces the whole item, never a part of it.
#[derive(Clone, Debug, PartialEq, Eq)]
pub struct ProfileItem {
    pub uid: String,
    pub kind: ProfileKind,
    pub url: Option<String>,
    pub name: Option<String>,
    pub option: Option<ProfileOption>,
}

/// The view of an optional viewable value: the view of what is present.
pub open spec fn opt_view<T: View>(o: Option<T>) -> Option<T::V> {
    match o {
        Option::Some(x) => Option::Some(x@),
        Option::None => Option::None,
    }
}

/// Mathematical model of a `ProfileItem`: strings become character
/// sequences.
pub ghost struct ItemView {
    pub uid: Seq<char>,
    pub kind: ProfileKind,
    pub url: Option<Seq<char>>,
    pub name: Option<Seq<char>>,
    pub option: Option<ProfileOption>,
}

impl View for ProfileItem {
    type V = ItemView;

    open spec fn view(&self) -> ItemView {
        ItemView {
            uid: self.uid@,
            kind: self.kind,
            url: opt_view(self.url),
            name: opt_view(self.name),
            option: self.option,
        }
    }
}

/// Mathematical model of a `ProfileCollection`.
pub ghost struct CollectionView {
    pub items: Seq<ItemView>,
    pub current: Option<Seq<char>>,
}

impl CollectionView {
    /// Some entry carries this uid.
    pub open spec fn contains_uid(self, uid: Seq<char>) -> bool {
        exists|i: int| 0 <= i < self.items.len() && self.items[i].uid == uid
    }

    /// The position of the entry carrying this uid; meaningful only when
    /// `contains_uid` holds (and then unique under `wf`).
    pub open spec fn index_of(self, uid: Seq<char>) -> int {
        choose|i: int| 0 <= i < self.items.len() && self.items[i].uid == uid
    }

    /// The entry carrying this uid; meaningful only when `contains_uid`
    /// holds.
    pub open spec fn item_at(self, uid: Seq<char>) -> ItemView {
        self.items[self.index_of(uid)]
    }

    /// `uid` names the active profile.
    pub open spec fn is_current(self, uid: Seq<char>) -> bool {
        self.current == Option::Some(uid)
    }

    /// No two entries share a uid.
    pub open spec fn uids_unique(self) -> bool {
        forall|i: int, j: int|
            0 <= i < self.items.len() && 0 <= j < self.items.len() && i != j
                ==> self.items[i].uid != self.items[j].uid
    }

    /// Collection invariant: unique uids, and the active uid, if set,
    /// names an existing entry.
    pub open spec fn wf(self) -> bool {
        &&& self.uids_unique()
        &&& (self.current matches Some(u) ==> self.contains_uid(u))
    }
}

/// `item` rekeyed under `uid`.
pub open spec fn with_uid(item: ItemView, uid: Seq<char>) -> ItemView {
    ItemView { uid: uid, ..item }
}

/// `after` is `before` with `item` persisted under `uid`: the entry at the
/// matching position replaced when the uid is present, the item appended
/// otherwise. The active uid is unaffected by persisting.
pub open spec fn updated_with(
    before: CollectionView,
    after: CollectionView,
    uid: Seq<char>,
    item: ItemView,
) -> bool {
    &&& after.current == before.current
    &&& if before.contains_uid(uid) {
        exists|i: int|
            0 <= i < before.items.len() && before.items[i].uid == uid && after.items
                == before.items.update(i, with_uid(item, uid))
    } else {
        after.items == before.items.push(with_uid(item, uid))
    }
}

/// The keyed profile store: an ordered mapping uid -> profile plus the
/// active uid.
///
/// Updates of distinct uids need no exclusion: persisting is the only
/// mutation of an entry. Two interleaved updates of the same uid are not
/// synchronized here — the last writer wins — unless the surrounding
/// store supplies per-key locking of its own.
pub struct ProfileCollection {
    items: Vec<ProfileItem>,
    current: Option<String>,
}

spec fn items_view(items: Seq<ProfileItem>) -> Seq<ItemView> {
    items.map_values(|it: ProfileItem| it@)
}

impl View for ProfileCollection {
    type V = CollectionView;

    closed spec fn view(&self) -> CollectionView {
        CollectionView { items: items_view(self.items@), current: opt_view(self.current) }
    }
}

/// Position of the entry carrying `uid`, scanning front to back.
fn find_uid(items: &Vec<ProfileItem>, uid: &String) -> (r: Option<usize>)
    ensures
        match r {
            Option::Some(i) => i < items@.len() && items@[i as int]@.uid == uid@,
            Option::None => forall|j: int| 0 <= j < items@.len() ==> items@[j]@.uid != uid@,
        },
{
    let n = items.len();
    let mut i: usize = 0;
    while i < n
        invariant
            n == items@.len(),
            0 <= i <= n,
            forall|j: int| 0 <= j < i ==> items@[j]@.uid != uid@,
        decreases n - i,
    {
        if items[i].uid == *uid {
            return Option::Some(i);
        }
        i = i + 1;
    }
    Option::None
}

impl ProfileCollection {
    /// An empty collection with no active profile.
    pub fn new() -> (c: ProfileCollection)
        ensures
            c@.items == Seq::<ItemView>::empty(),
            c@.current is None,
            c@.wf(),
    {
        proof {
            assert(items_view(Seq::<ProfileItem>::empty()) =~= Seq::<ItemView>::empty());
        }
        ProfileCollection { items: Vec::new(), current: Option::None }
    }

    /// Persist `item` under `uid`, replacing the entry that carries `uid`
    /// or appending when none does. The stored entry is rekeyed to `uid`.
    pub fn update_item(&mut self, uid: &String, item: ProfileItem)
        requires
            old(self)@.wf(),
        ensures
            final(self)@.wf(),
            updated_with(old(self)@, final(self)@, uid@, item@),
    {
        let ghost before = self@;
        let ghost stored_view = with_uid(item@, uid@);
        let mut stored = item;
        stored.uid = uid.clone();
        assert(stored@ == stored_view);
        match find_uid(&self.items, uid) {
            Option::Some(i) => {
                self.items[i] = stored;
                proof {
                    assert(before.items[i as int].uid == uid@);
                    assert(before.contains_uid(uid@));
                    assert(self@.items =~= before.items.update(i as int, stored_view));
                    lemma_pointwise_uids(before, self@);
                }
            },
            Option::None => {
                self.items.push(stored);
                proof {
                    assert(self@.items =~= before.items.push(stored_view));
                    assert(!before.contains_uid(uid@));
                    assert forall|p: int, q: int|
                        0 <= p < self@.items.len() && 0 <= q < self@.items.len() && p != q implies self@.items[p].uid
                        != self@.items[q].uid by {
                        if p < before.items.len() && q < before.items.len() {
                            assert(before.items[p].uid != before.items[q].uid);
                        }
                    }
                    match before.current {
                        Option::Some(u) => {
                            let k = choose|k: int|
                                0 <= k < before.items.len() && before.items[k].uid == u;
                            assert(self@.items[k].uid == u);
                        },
                        Option::None => {},
                    }
                }
            },
        }
    }

    /// Mark `uid` active when it names an entry; report whether it did.
    pub fn set_current(&mut self, uid: &String) -> (ok: bool)
        requires
            old(self)@.wf(),
        ensures
            final(self)@.wf(),
            final(self)@.items == old(self)@.items,
            ok == old(self)@.contains_uid(uid@),
            ok ==> final(self)@.current == Option::Some(uid@),
            !ok ==> final(self)@.current == old(self)@.current,
    {
        match find_uid(&self.items, uid) {
            Option::Some(i) => {
                self.current = Option::Some(uid.clone());
                assert(self@.contains_uid(uid@)) by {
                    assert(self@.items[i as int].uid == uid@);
                }
                true
            },
            Option::None => {
                assert(!self@.contains_uid(uid@));
                false
            },
        }
    }

    /// The entry carrying `uid`, when one exists.
    pub fn get_item(&self, uid: &String) -> (r: Option<&ProfileItem>)
        requires
            self@.wf(),
        ensures
            match r {
                Option::Some(item) => self@.contains_uid(uid@) && item@ == self@.item_at(uid@),
                Option::None => !self@.contains_uid(uid@),
            },
    {
        match find_uid(&self.items, uid) {
            Option::Some(i) => {
                proof {
                    assert(self@.items[i as int].uid == uid@);
                    assert(self@.contains_uid(uid@));
                    let k = self@.index_of(uid@);
                    assert(0 <= k < self@.items.len() && self@.items[k].uid == uid@);
                    if k != i {
                        assert(self@.items[k].uid != self@.items[i as int].uid);
                    }
                }
                Option::Some(&self.items[i])
            },
            Option::None => Option::None,
        }
    }

    /// The active uid, when one is set.
    pub fn current_uid(&self) -> (r: Option<&String>)
        ensures
            match r {
                Option::Some(u) => self@.current == Option::Some(u@),
                Option::None => self@.current is None,
            },
    {
        self.current.as_ref()
    }
}

/// When every entry of `after` carries the same uid as the entry of
/// `before` at the same position, uniqueness and the reach of the active
/// uid carry over.
proof fn lemma_pointwise_uids(before: CollectionView, after: CollectionView)
    requires
        before.wf(),
        after.items.len() == before.items.len(),
        forall|i: int|
            0 <= i < before.items.len() ==> after.items[i].uid == #[trigger] before.items[i].uid,
        after.current == before.current,
    ensures
        after.wf(),
{
    assert forall|p: int, q: int|
        0 <= p < after.items.len() && 0 <= q < after.items.len() && p != q implies after.items[p].uid
        != after.items[q].uid by {
        assert(before.items[p].uid != before.items[q].uid);
    }
    match before.current {
        Option::Some(u) => {
            let k = choose|k: int| 0 <= k < before.items.len() && before.items[k].uid == u;
            assert(after.items[k].uid == u);
        },
        Option::None => {},
    }
}

/// Whether `uid` names the currently active profile. Reads the collection
/// and compares by value; no effects.
pub fn is_current_profile(profiles: &ProfileCollection, uid: &String) -> (r: bool)
    ensures
        r == profiles@.is_current(uid@),
{
    match profiles.current_uid() {
        Option::Some(cur) => *cur == *uid,
        Option::None => false,
    }
}

} // verus!
