//! The key→record mapping built from a batch response list.
//!
//! A batch fetch answers with a list of user records. The facade folds the
//! list into a mapping keyed by an operation-specific field: a later record
//! with the same key overwrites an earlier one, and a record lacking the
//! key field is dropped, never inserted under a placeholder key.

use vstd::prelude::*;
use crate::models::UserMetadata;

verus! {

/// The mapping that folding `users` under `key_of` yields: records are
/// inserted in order, so for equal keys the later record overwrites the
/// earlier one, and a record whose key is absent is skipped.
pub open spec fn keyed_by(
    users: Seq<UserMetadata>,
    key_of: spec_fn(UserMetadata) -> Option<Seq<char>>,
) -> Map<Seq<char>, UserMetadata>
    decreases users.len(),
{
    if users.len() == 0 {
        Map::empty()
    } else {
        let rest = keyed_by(users.drop_last(), key_of);
        match key_of(users.last()) {
            Option::Some(k) => rest.insert(k, users.last()),
            Option::None => rest,
        }
    }
}

/// Key a record by its user id, which every record carries.
pub open spec fn id_key(u: UserMetadata) -> Option<Seq<char>> {
    Option::Some(u.user_id@)
}

/// Key a record by its email address, which every record carries.
pub open spec fn email_key(u: UserMetadata) -> Option<Seq<char>> {
    Option::Some(u.email@)
}

/// Key a record by its username, which a record may lack.
pub open spec fn username_key(u: UserMetadata) -> Option<Seq<char>> {
    match u.username {
        Option::Some(n) => Option::Some(n@),
        Option::None => Option::None,
    }
}

/// The id key as a function value, as the fold takes it.
pub open spec fn id_key_fn() -> spec_fn(UserMetadata) -> Option<Seq<char>> {
    |u: UserMetadata| id_key(u)
}

/// The email key as a function value.
pub open spec fn email_key_fn() -> spec_fn(UserMetadata) -> Option<Seq<char>> {
    |u: UserMetadata| email_key(u)
}

/// The username key as a function value.
pub open spec fn username_key_fn() -> spec_fn(UserMetadata) -> Option<Seq<char>> {
    |u: UserMetadata| username_key(u)
}

/// The batch response folded into a mapping keyed by user id.
pub open spec fn users_by_id(users: Seq<UserMetadata>) -> Map<Seq<char>, UserMetadata> {
    keyed_by(users, id_key_fn())
}

/// The batch response folded into a mapping keyed by email address.
pub open spec fn users_by_email(users: Seq<UserMetadata>) -> Map<Seq<char>, UserMetadata> {
    keyed_by(users, email_key_fn())
}

/// The batch response folded into a mapping keyed by username; records
/// without one are dropped.
pub open spec fn users_by_username(users: Seq<UserMetadata>) -> Map<Seq<char>, UserMetadata> {
    keyed_by(users, username_key_fn())
}

/// The mapping an association list denotes: entries inserted in order, so
/// a later entry with the same key overwrites an earlier one.
spec fn entries_map(es: Seq<(String, UserMetadata)>) -> Map<Seq<char>, UserMetadata>
    decreases es.len(),
{
    if es.len() == 0 {
        Map::empty()
    } else {
        entries_map(es.drop_last()).insert(es.last().0@, es.last().1)
    }
}

/// No two entries share a key.
spec fn distinct_keys(es: Seq<(String, UserMetadata)>) -> bool {
    forall|i: int, j: int| 0 <= i < j < es.len() ==> es[i].0@ != es[j].0@
}

/// The domain of an association list's mapping is exactly the set of its
/// keys.
proof fn lemma_entries_map_dom(es: Seq<(String, UserMetadata)>)
    ensures
        entries_map(es).dom() =~= Set::new(
            |k: Seq<char>| exists|i: int| 0 <= i < es.len() && es[i].0@ == k,
        ),
    decreases es.len(),
{
    if es.len() == 0 {
    } else {
        lemma_entries_map_dom(es.drop_last());
        assert forall|k: Seq<char>| entries_map(es).dom().contains(k) implies exists|i: int|
            0 <= i < es.len() && es[i].0@ == k by {
            if k == es.last().0@ {
                assert(es[es.len() - 1].0@ == k);
            } else {
                let i = choose|i: int| 0 <= i < es.len() - 1 && es.drop_last()[i].0@ == k;
                assert(es[i].0@ == k);
            }
        }
        assert forall|k: Seq<char>|
            (exists|i: int| 0 <= i < es.len() && es[i].0@ == k) implies entries_map(
            es,
        ).dom().contains(k) by {
            let i = choose|i: int| 0 <= i < es.len() && es[i].0@ == k;
            if i < es.len() - 1 {
                assert(es.drop_last()[i].0@ == k);
            }
        }
    }
}

/// With distinct keys, the mapping holds each entry's record under its key.
proof fn lemma_entries_map_value(es: Seq<(String, UserMetadata)>, i: int)
    requires
        distinct_keys(es),
        0 <= i < es.len(),
    ensures
        entries_map(es).dom().contains(es[i].0@),
        entries_map(es)[es[i].0@] == es[i].1,
    decreases es.len(),
{
    if i == es.len() - 1 {
    } else {
        assert(es.drop_last()[i] == es[i]);
        lemma_entries_map_value(es.drop_last(), i);
        assert(es[i].0@ != es.last().0@);
    }
}

/// With distinct keys, the mapping has exactly one slot per entry.
proof fn lemma_entries_map_len(es: Seq<(String, UserMetadata)>)
    requires
        distinct_keys(es),
    ensures
        entries_map(es).dom().finite(),
        entries_map(es).dom().len() == es.len(),
    decreases es.len(),
{
    if es.len() == 0 {
        assert(entries_map(es).dom() =~= Set::<Seq<char>>::empty());
    } else {
        lemma_entries_map_len(es.drop_last());
        lemma_entries_map_dom(es.drop_last());
        assert(!entries_map(es.drop_last()).dom().contains(es.last().0@));
    }
}

/// Removing an entry removes exactly its key from the mapping, provided the
/// keys are distinct.
proof fn lemma_entries_map_remove(es: Seq<(String, UserMetadata)>, i: int)
    requires
        distinct_keys(es),
        0 <= i < es.len(),
    ensures
        entries_map(es.remove(i)) =~= entries_map(es).remove(es[i].0@),
    decreases es.len(),
{
    lemma_entries_map_dom(es.drop_last());
    if i == es.len() - 1 {
        assert(es.remove(i) =~= es.drop_last());
        assert(!entries_map(es.drop_last()).dom().contains(es.last().0@));
        assert(entries_map(es.drop_last()).insert(es.last().0@, es.last().1).remove(es.last().0@)
            =~= entries_map(es.drop_last()));
    } else {
        assert(es.remove(i).drop_last() =~= es.drop_last().remove(i));
        assert(es.remove(i).last() == es.last());
        lemma_entries_map_remove(es.drop_last(), i);
        assert(es[i].0@ != es.last().0@);
    }
}

/// The key→record mapping of one batch response, keyed by an
/// operation-specific field. Keys are unique; its abstract value is the
/// [`Map`] from key to record.
#[derive(Debug)]
pub struct UserMap {
    entries: Vec<(String, UserMetadata)>,
}

impl View for UserMap {
    type V = Map<Seq<char>, UserMetadata>;

    closed spec fn view(&self) -> Map<Seq<char>, UserMetadata> {
        entries_map(self.entries@)
    }
}

impl UserMap {
    /// Well-formedness: no two entries share a key. Constructors establish
    /// it and every method preserves it.
    pub closed spec fn wf(self) -> bool {
        distinct_keys(self.entries@)
    }

    /// The empty mapping.
    pub fn new() -> (m: UserMap)
        ensures
            m@ == Map::<Seq<char>, UserMetadata>::empty(),
            m.wf(),
    {
        UserMap { entries: Vec::new() }
    }

    /// The position of `key` among the entries, if it is a key.
    fn position_of(&self, key: &String) -> (r: Option<usize>)
        ensures
            match r {
                Option::Some(i) => i < self.entries@.len() && self.entries@[i as int].0@ == key@,
                Option::None => forall|i: int|
                    0 <= i < self.entries@.len() ==> self.entries@[i].0@ != key@,
            },
    {
        let mut i: usize = 0;
        while i < self.entries.len()
            invariant
                0 <= i <= self.entries@.len(),
                forall|j: int| 0 <= j < i ==> self.entries@[j].0@ != key@,
            decreases self.entries@.len() - i,
        {
            if self.entries[i].0.eq(key) {
                return Option::Some(i);
            }
            i += 1;
        }
        Option::None
    }

    /// Whether some record is stored under `key`.
    pub fn contains_key(&self, key: &String) -> (r: bool)
        ensures
            r == self@.dom().contains(key@),
    {
        proof {
            lemma_entries_map_dom(self.entries@);
        }
        match self.position_of(key) {
            Option::Some(_) => true,
            Option::None => false,
        }
    }

    /// The record stored under `key`, if any.
    pub fn get(&self, key: &String) -> (r: Option<&UserMetadata>)
        requires
            self.wf(),
        ensures
            match r {
                Option::Some(u) => self@.dom().contains(key@) && *u == self@[key@],
                Option::None => !self@.dom().contains(key@),
            },
    {
        proof {
            lemma_entries_map_dom(self.entries@);
        }
        match self.position_of(key) {
            Option::Some(i) => {
                proof {
                    lemma_entries_map_value(self.entries@, i as int);
                }
                Option::Some(&self.entries[i].1)
            },
            Option::None => Option::None,
        }
    }

    /// How many records the mapping holds.
    pub fn len(&self) -> (n: usize)
        requires
            self.wf(),
        ensures
            n == self@.dom().len(),
    {
        proof {
            lemma_entries_map_len(self.entries@);
        }
        self.entries.len()
    }

    /// Store `record` under `key`, overwriting whatever record held the key
    /// before.
    pub fn insert(&mut self, key: String, record: UserMetadata)
        requires
            old(self).wf(),
        ensures
            final(self)@ == old(self)@.insert(key@, record),
            final(self).wf(),
    {
        let ghost kview = key@;
        let found = self.position_of(&key);
        match found {
            Option::Some(i) => {
                let ghost before = self.entries@;
                proof {
                    lemma_entries_map_remove(before, i as int);
                }
                self.entries.remove(i);
                proof {
                    let after = self.entries@;
                    assert forall|a: int, b: int|
                        0 <= a < b < after.len() implies after[a].0@ != after[b].0@ by {
                        let sa: int = if a < i { a } else { a + 1 };
                        let sb: int = if b < i { b } else { b + 1 };
                        assert(after[a] == before[sa]);
                        assert(after[b] == before[sb]);
                    }
                    assert forall|a: int| 0 <= a < after.len() implies after[a].0@ != kview by {
                        let sa: int = if a < i { a } else { a + 1 };
                        assert(after[a] == before[sa]);
                        assert(before[i as int].0@ == kview);
                    }
                }
                let ghost removed = self.entries@;
                self.entries.push((key, record));
                proof {
                    assert(self.entries@.drop_last() =~= removed);
                    assert(entries_map(self.entries@) == entries_map(removed).insert(
                        kview,
                        record,
                    ));
                    assert(entries_map(self.entries@) =~= old(self)@.insert(kview, record));
                    assert forall|a: int, b: int|
                        0 <= a < b < self.entries@.len() implies self.entries@[a].0@
                        != self.entries@[b].0@ by {
                        if b < self.entries@.len() - 1 {
                            assert(self.entries@[a] == removed[a]);
                            assert(self.entries@[b] == removed[b]);
                        } else {
                            assert(self.entries@[a] == removed[a]);
                            assert(self.entries@[b].0@ == kview);
                        }
                    }
                }
            },
            Option::None => {
                let ghost before = self.entries@;
                self.entries.push((key, record));
                proof {
                    assert(self.entries@.drop_last() =~= before);
                    assert forall|a: int, b: int|
                        0 <= a < b < self.entries@.len() implies self.entries@[a].0@
                        != self.entries@[b].0@ by {
                        if b < self.entries@.len() - 1 {
                            assert(self.entries@[a] == before[a]);
                            assert(self.entries@[b] == before[b]);
                        } else {
                            assert(self.entries@[a] == before[a]);
                            assert(self.entries@[b].0@ == kview);
                        }
                    }
                }
            },
        }
    }

    /// Fold a batch response into a mapping keyed by user id.
    pub fn keyed_by_user_id(users: Vec<UserMetadata>) -> (m: UserMap)
        ensures
            m@ == users_by_id(users@),
            m.wf(),
    {
        let ghost all = users@;
        let mut rest = users;
        let mut m = UserMap::new();
        proof {
            assert(all.take(0) =~= Seq::<UserMetadata>::empty());
        }
        while rest.len() > 0
            invariant
                rest@.len() <= all.len(),
                rest@ == all.skip(all.len() - rest@.len()),
                m@ == users_by_id(all.take(all.len() - rest@.len())),
                m.wf(),
            decreases rest@.len(),
        {
            let ghost done: int = all.len() - rest@.len();
            let u = rest.remove(0);
            let key = u.user_id.clone();
            m.insert(key, u);
            proof {
                assert(rest@ =~= all.skip(done + 1));
                assert(all.take(done + 1).drop_last() =~= all.take(done));
                assert(all.take(done + 1).last() == all[done]);
                assert(m@ == users_by_id(all.take(done + 1)));
            }
        }
        proof {
            assert(all.take(all.len() as int) =~= all);
        }
        m
    }

    /// Fold a batch response into a mapping keyed by email address.
    pub fn keyed_by_email(users: Vec<UserMetadata>) -> (m: UserMap)
        ensures
            m@ == users_by_email(users@),
            m.wf(),
    {
        let ghost all = users@;
        let mut rest = users;
        let mut m = UserMap::new();
        proof {
            assert(all.take(0) =~= Seq::<UserMetadata>::empty());
        }
        while rest.len() > 0
            invariant
                rest@.len() <= all.len(),
                rest@ == all.skip(all.len() - rest@.len()),
                m@ == users_by_email(all.take(all.len() - rest@.len())),
                m.wf(),
            decreases rest@.len(),
        {
            let ghost done: int = all.len() - rest@.len();
            let u = rest.remove(0);
            let key = u.email.clone();
            m.insert(key, u);
            proof {
                assert(rest@ =~= all.skip(done + 1));
                assert(all.take(done + 1).drop_last() =~= all.take(done));
                assert(all.take(done + 1).last() == all[done]);
                assert(m@ == users_by_email(all.take(done + 1)));
            }
        }
        proof {
            assert(all.take(all.len() as int) =~= all);
        }
        m
    }

    /// Fold a batch response into a mapping keyed by username. A record
    /// without a username is dropped, never stored under a placeholder key.
    pub fn keyed_by_username(users: Vec<UserMetadata>) -> (m: UserMap)
        ensures
            m@ == users_by_username(users@),
            m.wf(),
    {
        let ghost all = users@;
        let mut rest = users;
        let mut m = UserMap::new();
        proof {
            assert(all.take(0) =~= Seq::<UserMetadata>::empty());
        }
        while rest.len() > 0
            invariant
                rest@.len() <= all.len(),
                rest@ == all.skip(all.len() - rest@.len()),
                m@ == users_by_username(all.take(all.len() - rest@.len())),
                m.wf(),
            decreases rest@.len(),
        {
            let ghost done: int = all.len() - rest@.len();
            let u = rest.remove(0);
            let key = match &u.username {
                Option::Some(name) => Option::Some(name.clone()),
                Option::None => Option::None,
            };
            match key {
                Option::Some(k) => {
                    m.insert(k, u);
                },
                Option::None => {},
            }
            proof {
                assert(rest@ =~= all.skip(done + 1));
                assert(all.take(done + 1).drop_last() =~= all.take(done));
                assert(all.take(done + 1).last() == all[done]);
                assert(m@ == users_by_username(all.take(done + 1)));
            }
        }
        proof {
            assert(all.take(all.len() as int) =~= all);
        }
        m
    }
}

/// Folding keeps, for each key, the record of its last occurrence: when no
/// later record carries key `k`, the mapping holds record `users[i]` under
/// `k` — a later duplicate would have overwritten it.
pub proof fn lemma_keyed_last_wins(
    users: Seq<UserMetadata>,
    key_of: spec_fn(UserMetadata) -> Option<Seq<char>>,
    i: int,
    k: Seq<char>,
)
    requires
        0 <= i < users.len(),
        key_of(users[i]) == Option::Some(k),
        forall|j: int| i < j < users.len() ==> key_of(#[trigger] users[j]) != Option::Some(k),
    ensures
        keyed_by(users, key_of).dom().contains(k),
        keyed_by(users, key_of)[k] == users[i],
    decreases users.len(),
{
    if i == users.len() - 1 {
    } else {
        assert(users.drop_last()[i] == users[i]);
        assert forall|j: int| i < j < users.drop_last().len() implies key_of(
            #[trigger] users.drop_last()[j],
        ) != Option::Some(k) by {
            assert(users.drop_last()[j] == users[j]);
        }
        lemma_keyed_last_wins(users.drop_last(), key_of, i, k);
        assert(key_of(users[users.len() - 1]) != Option::Some(k));
    }
}

/// The mapping's domain is exactly the set of keys the records carry: a
/// record lacking the key field enters under no key at all.
pub proof fn lemma_keyed_dom(
    users: Seq<UserMetadata>,
    key_of: spec_fn(UserMetadata) -> Option<Seq<char>>,
)
    ensures
        keyed_by(users, key_of).dom() =~= Set::new(
            |k: Seq<char>|
                exists|i: int| 0 <= i < users.len() && key_of(#[trigger] users[i])
                    == Option::Some(k),
        ),
    decreases users.len(),
{
    if users.len() == 0 {
    } else {
        lemma_keyed_dom(users.drop_last(), key_of);
        assert forall|k: Seq<char>| keyed_by(users, key_of).dom().contains(k) implies exists|
            i: int,
        | 0 <= i < users.len() && key_of(#[trigger] users[i]) == Option::Some(k) by {
            if key_of(users.last()) == Option::Some(k) {
                assert(key_of(users[users.len() - 1]) == Option::Some(k));
            } else {
                let i = choose|i: int|
                    0 <= i < users.drop_last().len() && key_of(#[trigger] users.drop_last()[i])
                        == Option::Some(k);
                assert(key_of(users[i]) == Option::Some(k));
            }
        }
        assert forall|k: Seq<char>|
            (exists|i: int| 0 <= i < users.len() && key_of(#[trigger] users[i]) == Option::Some(
                k,
            )) implies keyed_by(users, key_of).dom().contains(k) by {
            let i = choose|i: int|
                0 <= i < users.len() && key_of(#[trigger] users[i]) == Option::Some(k);
            if i < users.len() - 1 {
                assert(key_of(users.drop_last()[i]) == Option::Some(k));
            }
        }
    }
}

/// Last occurrence wins in the id-keyed mapping: when no later record
/// carries the same id, the mapping holds exactly this record under it.
pub proof fn lemma_users_by_id_last_wins(users: Seq<UserMetadata>, i: int)
    requires
        0 <= i < users.len(),
        forall|j: int| i < j < users.len() ==> (#[trigger] users[j]).user_id@
            != users[i].user_id@,
    ensures
        users_by_id(users).dom().contains(users[i].user_id@),
        users_by_id(users)[users[i].user_id@] == users[i],
{
    let key_of = id_key_fn();
    assert forall|j: int| i < j < users.len() implies key_of(#[trigger] users[j])
        != Option::Some(users[i].user_id@) by {
        assert(users[j].user_id@ != users[i].user_id@);
    }
    lemma_keyed_last_wins(users, key_of, i, users[i].user_id@);
}

/// The username-keyed mapping holds exactly the usernames that occur: a
/// record without a username enters under no key at all.
pub proof fn lemma_users_by_username_dom(users: Seq<UserMetadata>)
    ensures
        forall|k: Seq<char>|
            users_by_username(users).dom().contains(k) <==> exists|i: int|
                0 <= i < users.len() && ((#[trigger] users[i]).username matches Option::Some(n)
                    && n@ == k),
{
    let key_of = username_key_fn();
    lemma_keyed_dom(users, key_of);
    assert forall|k: Seq<char>| users_by_username(users).dom().contains(k) implies exists|i: int|
        0 <= i < users.len() && ((#[trigger] users[i]).username matches Option::Some(n) && n@
        == k) by {
        let i = choose|i: int|
            0 <= i < users.len() && key_of(#[trigger] users[i]) == Option::Some(k);
        assert(users[i].username matches Option::Some(n) && n@ == k);
    }
    assert forall|k: Seq<char>|
        (exists|i: int|
            0 <= i < users.len() && ((#[trigger] users[i]).username matches Option::Some(n) && n@
                == k)) implies users_by_username(users).dom().contains(k) by {
        let i = choose|i: int|
            0 <= i < users.len() && ((#[trigger] users[i]).username matches Option::Some(n) && n@
                == k);
        assert(key_of(users[i]) == Option::Some(k));
    }
}

} // verus!
