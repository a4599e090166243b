//! The nicknames that users asked to be called by, by user id.

use crate::misskey::users::{User, UserView};
use crate::text::same_text;
use vstd::prelude::*;

verus! {

/// One id with its nickname, as sequences of characters.
pub type Entry = (Seq<char>, Seq<char>);

/// The mapping that a list of entries stands for: each id with the nickname
/// of its last entry.
pub open spec fn listed(entries: Seq<Entry>) -> Map<Seq<char>, Seq<char>>
    decreases entries.len(),
{
    if entries.len() == 0 {
        Map::empty()
    } else {
        listed(entries.drop_last()).insert(entries.last().0, entries.last().1)
    }
}

/// No id has two entries.
pub open spec fn ids_are_distinct(entries: Seq<Entry>) -> bool {
    forall|i: int, j: int|
        0 <= i < j < entries.len() ==> (#[trigger] entries[i]).0 != (#[trigger] entries[j]).0
}

/// The entries of a list of pairs of strings.
pub open spec fn entries_of(pairs: Seq<(String, String)>) -> Seq<Entry> {
    Seq::new(pairs.len(), |i: int| (pairs[i].0@, pairs[i].1@))
}

/// What a user is called: by the nickname stored for the user's id, or else
/// by the display name, or else by the user name.
pub open spec fn display_name(nicknames: Map<Seq<char>, Seq<char>>, user: UserView) -> Seq<char> {
    if nicknames.contains_key(user.id) {
        nicknames[user.id]
    } else {
        user.plain_name()
    }
}

/// In a list without a repeated id, an id is mapped if and only if it has an
/// entry, and then to that entry's nickname.
proof fn lemma_listed(entries: Seq<Entry>)
    requires
        ids_are_distinct(entries),
    ensures
        forall|id: Seq<char>| #[trigger]
            listed(entries).contains_key(id) <==> exists|i: int|
                0 <= i < entries.len() && (#[trigger] entries[i]).0 == id,
        forall|i: int|
            0 <= i < entries.len() ==> listed(entries).contains_key((#[trigger] entries[i]).0)
                && listed(entries)[entries[i].0] == entries[i].1,
    decreases entries.len(),
{
    if entries.len() > 0 {
        let front = entries.drop_last();
        let last = entries.last();
        assert forall|i: int, j: int| 0 <= i < j < front.len() implies (#[trigger] front[i]).0 != (
        #[trigger] front[j]).0 by {
            assert(front[i] == entries[i] && front[j] == entries[j]);
        }
        lemma_listed(front);
        assert forall|id: Seq<char>| #[trigger]
            listed(entries).contains_key(id) <==> exists|i: int|
                0 <= i < entries.len() && (#[trigger] entries[i]).0 == id by {
            if listed(entries).contains_key(id) {
                if id == last.0 {
                    assert(entries[entries.len() - 1].0 == id);
                } else {
                    assert(listed(front).contains_key(id));
                    let i = choose|i: int| 0 <= i < front.len() && (#[trigger] front[i]).0 == id;
                    assert(entries[i].0 == id);
                }
            }
            if exists|i: int| 0 <= i < entries.len() && (#[trigger] entries[i]).0 == id {
                let i = choose|i: int| 0 <= i < entries.len() && (#[trigger] entries[i]).0 == id;
                if i < front.len() {
                    assert(front[i].0 == id);
                }
            }
        }
        assert forall|i: int| 0 <= i < entries.len() implies listed(entries).contains_key(
            (#[trigger] entries[i]).0,
        ) && listed(entries)[entries[i].0] == entries[i].1 by {
            if i < front.len() {
                assert(front[i] == entries[i]);
                assert(entries[i].0 != entries[entries.len() - 1].0);
            }
        }
    }
}

/// The nicknames the bot has been told, one for each user id at most.
#[derive(Debug, PartialEq, Eq)]
pub struct SaveData {
    nicknames: Vec<(String, String)>,
}

impl View for SaveData {
    type V = Map<Seq<char>, Seq<char>>;

    /// The nickname of each user id that has one.
    closed spec fn view(&self) -> Map<Seq<char>, Seq<char>> {
        listed(entries_of(self.nicknames@))
    }
}

impl SaveData {
    #[verifier::type_invariant]
    spec fn well_formed(self) -> bool {
        ids_are_distinct(entries_of(self.nicknames@))
    }

    /// The store that knows no nickname.
    pub fn new() -> (store: Self)
        ensures
            store@ == Map::<Seq<char>, Seq<char>>::empty(),
    {
        let store = SaveData { nicknames: Vec::new() };
        assert(entries_of(store.nicknames@) =~= Seq::empty());
        store
    }

    /// The store that holds `entries`; where an id has several, the last
    /// one counts.
    pub fn from_entries(entries: Vec<(String, String)>) -> (store: Self)
        ensures
            store@ == listed(entries_of(entries@)),
    {
        let mut store = SaveData::new();
        let mut i: usize = 0;
        assert(entries_of(entries@).take(0) =~= Seq::empty());
        while i < entries.len()
            invariant
                i <= entries@.len(),
                store@ == listed(entries_of(entries@).take(i as int)),
            decreases entries@.len() - i,
        {
            proof {
                let seen = entries_of(entries@).take(i + 1);
                assert(seen.drop_last() =~= entries_of(entries@).take(i as int));
                assert(seen.last() == (entries@[i as int].0@, entries@[i as int].1@));
            }
            store.store_nickname(entries[i].0.as_str(), entries[i].1.as_str());
            i += 1;
        }
        assert(entries_of(entries@).take(i as int) =~= entries_of(entries@));
        store
    }

    /// What the store holds, one entry for each id.
    pub fn entries(&self) -> (entries: Vec<(String, String)>)
        ensures
            ids_are_distinct(entries_of(entries@)),
            listed(entries_of(entries@)) == self@,
    {
        proof {
            use_type_invariant(self);
        }
        let mut entries: Vec<(String, String)> = Vec::new();
        let mut i: usize = 0;
        while i < self.nicknames.len()
            invariant
                i <= self.nicknames@.len(),
                entries@.len() == i,
                forall|j: int|
                    0 <= j < i ==> (#[trigger] entries@[j]).0@ == self.nicknames@[j].0@
                        && entries@[j].1@ == self.nicknames@[j].1@,
            decreases self.nicknames@.len() - i,
        {
            entries.push((self.nicknames[i].0.clone(), self.nicknames[i].1.clone()));
            i += 1;
        }
        assert(entries_of(entries@) =~= entries_of(self.nicknames@));
        entries
    }

    /// Where the entry of `id` stands, if it has one.
    fn position(&self, id: &str) -> (at: Option<usize>)
        ensures
            match at {
                Some(i) => i < self.nicknames@.len() && self.nicknames@[i as int].0@ == id@,
                None => forall|i: int|
                    0 <= i < self.nicknames@.len() ==> (#[trigger] self.nicknames@[i]).0@ != id@,
            },
    {
        let mut i: usize = 0;
        while i < self.nicknames.len()
            invariant
                i <= self.nicknames@.len(),
                forall|j: int| 0 <= j < i ==> (#[trigger] self.nicknames@[j]).0@ != id@,
            decreases self.nicknames@.len() - i,
        {
            if same_text(self.nicknames[i].0.as_str(), id) {
                return Some(i);
            }
            i += 1;
        }
        None
    }

    /// Stores `nick` as the nickname of the user `id`, in place of the one
    /// stored before if there was one.
    pub fn store_nickname(&mut self, id: &str, nick: &str)
        ensures
            final(self)@ == old(self)@.insert(id@, nick@),
    {
        proof {
            use_type_invariant(&*self);
        }
        let at = self.position(id);
        let mut nicknames: Vec<(String, String)> = Vec::new();
        std::mem::swap(&mut nicknames, &mut self.nicknames);
        let ghost before = entries_of(nicknames@);
        match at {
            Some(i) => {
                nicknames.set(i, (id.to_owned(), nick.to_owned()));
                proof {
                    let after = entries_of(nicknames@);
                    assert(after =~= before.update(i as int, (id@, nick@)));
                    assert forall|a: int, b: int| 0 <= a < b < after.len() implies (
                    #[trigger] after[a]).0 != (#[trigger] after[b]).0 by {
                        assert(after[a].0 == before[a].0 && after[b].0 == before[b].0);
                    }
                    lemma_listed(before);
                    lemma_listed(after);
                    assert forall|key: Seq<char>| #[trigger]
                        listed(after).contains_key(key) <==> listed(before).insert(
                            id@,
                            nick@,
                        ).contains_key(key) by {
                        if listed(after).contains_key(key) {
                            let k = choose|k: int|
                                0 <= k < after.len() && (#[trigger] after[k]).0 == key;
                            assert(before[k].0 == key);
                        }
                        if listed(before).contains_key(key) {
                            let k = choose|k: int|
                                0 <= k < before.len() && (#[trigger] before[k]).0 == key;
                            assert(after[k].0 == key);
                        }
                        if key == id@ {
                            assert(after[i as int].0 == key);
                        }
                    }
                    assert forall|key: Seq<char>| #[trigger]
                        listed(after).contains_key(key) implies listed(after)[key] == listed(
                        before,
                    ).insert(id@, nick@)[key] by {
                        let k = choose|k: int|
                            0 <= k < after.len() && (#[trigger] after[k]).0 == key;
                        assert(listed(after)[after[k].0] == after[k].1);
                        assert(before[i as int].0 == id@);
                        if k != i {
                            assert(before[k] == after[k]);
                            assert(before[k].0 != before[i as int].0);
                            assert(listed(before)[before[k].0] == before[k].1);
                        } else {
                            assert(after[k] == (id@, nick@));
                        }
                    }
                    assert(listed(after) =~= listed(before).insert(id@, nick@));
                }
            },
            None => {
                nicknames.push((id.to_owned(), nick.to_owned()));
                proof {
                    let after = entries_of(nicknames@);
                    assert(after =~= before.push((id@, nick@)));
                    assert(after.drop_last() =~= before);
                    assert forall|a: int, b: int| 0 <= a < b < after.len() implies (
                    #[trigger] after[a]).0 != (#[trigger] after[b]).0 by {
                        if b < before.len() {
                            assert(after[a] == before[a] && after[b] == before[b]);
                        } else {
                            assert(after[a].0 == old(self).nicknames@[a].0@);
                        }
                    }
                }
            },
        }
        self.nicknames = nicknames;
    }

    /// Forgets the nickname of the user `id`, and says whether there was one.
    pub fn forget_nickname(&mut self, id: &str) -> (removed: bool)
        ensures
            removed == old(self)@.contains_key(id@),
            final(self)@ == old(self)@.remove(id@),
    {
        proof {
            use_type_invariant(&*self);
        }
        let at = self.position(id);
        let ghost before = entries_of(self.nicknames@);
        proof {
            lemma_listed(before);
        }
        match at {
            Some(i) => {
                let mut nicknames: Vec<(String, String)> = Vec::new();
                std::mem::swap(&mut nicknames, &mut self.nicknames);
                nicknames.remove(i);
                proof {
                    let after = entries_of(nicknames@);
                    assert(after =~= before.remove(i as int));
                    assert forall|a: int, b: int| 0 <= a < b < after.len() implies (
                    #[trigger] after[a]).0 != (#[trigger] after[b]).0 by {
                        let a0 = if a < i { a } else { a + 1 };
                        let b0 = if b < i { b } else { b + 1 };
                        assert(after[a] == before[a0] && after[b] == before[b0]);
                    }
                    lemma_listed(after);
                    assert(before[i as int].0 == id@);
                    assert forall|key: Seq<char>| #[trigger]
                        listed(after).contains_key(key) <==> listed(before).remove(
                            id@,
                        ).contains_key(key) by {
                        if listed(after).contains_key(key) {
                            let k = choose|k: int|
                                0 <= k < after.len() && (#[trigger] after[k]).0 == key;
                            let k0 = if k < i { k } else { k + 1 };
                            assert(before[k0] == after[k]);
                            assert(before[k0].0 != before[i as int].0);
                        }
                        if listed(before).contains_key(key) && key != id@ {
                            let k = choose|k: int|
                                0 <= k < before.len() && (#[trigger] before[k]).0 == key;
                            let k1 = if k < i { k } else { k - 1 };
                            assert(after[k1] == before[k]);
                        }
                    }
                    assert forall|key: Seq<char>| #[trigger]
                        listed(after).contains_key(key) implies listed(after)[key] == listed(
                        before,
                    ).remove(id@)[key] by {
                        let k = choose|k: int|
                            0 <= k < after.len() && (#[trigger] after[k]).0 == key;
                        let k0 = if k < i { k } else { k + 1 };
                        assert(before[k0] == after[k]);
                        assert(listed(after)[after[k].0] == after[k].1);
                        assert(listed(before)[before[k0].0] == before[k0].1);
                    }
                    assert(listed(after) =~= listed(before).remove(id@));
                }
                self.nicknames = nicknames;
                true
            },
            None => {
                proof {
                    if listed(before).contains_key(id@) {
                        let k = choose|k: int|
                            0 <= k < before.len() && (#[trigger] before[k]).0 == id@;
                        assert(self.nicknames@[k].0@ == id@);
                    }
                    assert(listed(before).remove(id@) =~= listed(before));
                }
                false
            },
        }
    }

    /// The nickname of the user `id`, if one is stored.
    pub fn get_nickname(&self, id: &str) -> (nick: Option<String>)
        ensures
            match nick {
                Some(n) => self@.contains_key(id@) && n@ == self@[id@],
                None => !self@.contains_key(id@),
            },
    {
        proof {
            use_type_invariant(self);
            lemma_listed(entries_of(self.nicknames@));
        }
        let ghost entries = entries_of(self.nicknames@);
        match self.position(id) {
            Some(i) => {
                assert(entries[i as int].0 == id@);
                assert(listed(entries)[entries[i as int].0] == entries[i as int].1);
                Some(self.nicknames[i].1.clone())
            },
            None => {
                proof {
                    if listed(entries).contains_key(id@) {
                        let k = choose|k: int|
                            0 <= k < entries.len() && (#[trigger] entries[k]).0 == id@;
                        assert(self.nicknames@[k].0@ == id@);
                    }
                }
                None
            },
        }
    }

    /// What `user` is called: by the nickname stored for the user's id, or
    /// else by the display name, or else by the user name.
    pub fn get_displayname(&self, user: &User) -> (name: String)
        ensures
            name@ == display_name(self@, user@),
    {
        match self.get_nickname(user.id.as_str()) {
            Some(nick) => nick,
            None => user.plain_name(),
        }
    }
}

impl Default for SaveData {
    fn default() -> (store: Self)
        ensures
            store@ == Map::<Seq<char>, Seq<char>>::empty(),
    {
        SaveData::new()
    }
}

/// A nickname that was stored for a user is what the user is called, and
/// once it is forgotten the user is called by the display name or the user
/// name again, whatever else the store holds.
pub proof fn lemma_nickname_round_trip(
    nicknames: Map<Seq<char>, Seq<char>>,
    user: UserView,
    nick: Seq<char>,
)
    ensures
        display_name(nicknames.insert(user.id, nick), user) == nick,
        display_name(nicknames.insert(user.id, nick).remove(user.id), user) == user.plain_name(),
        display_name(nicknames.remove(user.id), user) == user.plain_name(),
{
}

} // verus!
