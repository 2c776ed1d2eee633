//! Users: their ids, records and the text lookup of users.

use crate::error::Error;
use crate::id::{check_id, is_id, prefixed_number, prefixed_number_string, prefixed_signed, prefixed_signed_string};
use core::ops::{Range, RangeInclusive};
use std::borrow::Cow;
use crate::model::{QueryField, Sealed};
use crate::url_query::UrlQueryParams;
use ahash::HashSetExt;
use vstd::prelude::*;

verus! {

/// The id of a user: `u` followed by a decimal number.
#[derive(Clone, Debug, PartialEq, Eq, Hash)]
pub struct UserId(String);

impl View for UserId {
    type V = Seq<char>;

    closed spec fn view(&self) -> Seq<char> {
        self.0@
    }
}

impl UserId {
    /// The letter that starts every id of this kind.
    pub const PREFIX: &'static str = "u";

    /// Takes the text as an id without checking it.
    pub fn new(text: &str) -> (r: Self)
        ensures
            r@ == text@,
    {
        UserId(text.to_owned())
    }

    /// The id of the given number.
    pub fn from_number(n: u64) -> (r: Self)
        ensures
            r@ == prefixed_number("u"@, n as nat),
    {
        UserId(prefixed_number_string(Self::PREFIX, n))
    }

    /// Checks the text against the id pattern and takes it as an id.
    pub fn parse(value: &str) -> (r: Result<Self, Error>)
        ensures
            r is Ok <==> is_id("u"@, value@),
            r is Ok ==> r->Ok_0@ == value@,
            r is Err ==> (r matches Err(Error::InvalidId(t)) && t@ == value@),
    {
        let id = UserId(value.to_owned());
        match id.validate() {
            Ok(()) => Ok(id),
            Err(e) => Err(e),
        }
    }

    /// Checks the id against the id pattern.
    pub fn validate(&self) -> (r: Result<(), Error>)
        ensures
            r is Ok <==> is_id("u"@, self@),
            r is Err ==> (r matches Err(Error::InvalidId(t)) && t@ == self@),
    {
        check_id(Self::PREFIX, self.0.as_str())
    }

    /// The text of the id.
    pub fn as_str(&self) -> (r: &str)
        ensures
            r@ == self@,
    {
        self.0.as_str()
    }

    /// The text of the id.
    pub fn into_inner(self) -> (r: String)
        ensures
            r@ == self@,
    {
        self.0
    }
}

impl From<u64> for UserId {
    fn from(n: u64) -> (r: Self)
        ensures
            r@ == prefixed_number("u"@, n as nat),
    {
        Self::from_number(n)
    }
}

impl vstd::std_specs::convert::FromSpecImpl<u64> for UserId {
    open spec fn obeys_from_spec() -> bool {
        false
    }

    open spec fn from_spec(n: u64) -> Self {
        arbitrary()
    }
}

impl From<u8> for UserId {
    fn from(n: u8) -> (r: Self)
        ensures
            r@ == prefixed_number("u"@, n as nat),
    {
        Self::from_number(n as u64)
    }
}

impl vstd::std_specs::convert::FromSpecImpl<u8> for UserId {
    open spec fn obeys_from_spec() -> bool {
        false
    }

    open spec fn from_spec(n: u8) -> Self {
        arbitrary()
    }
}

impl From<u16> for UserId {
    fn from(n: u16) -> (r: Self)
        ensures
            r@ == prefixed_number("u"@, n as nat),
    {
        Self::from_number(n as u64)
    }
}

impl vstd::std_specs::convert::FromSpecImpl<u16> for UserId {
    open spec fn obeys_from_spec() -> bool {
        false
    }

    open spec fn from_spec(n: u16) -> Self {
        arbitrary()
    }
}

impl From<u32> for UserId {
    fn from(n: u32) -> (r: Self)
        ensures
            r@ == prefixed_number("u"@, n as nat),
    {
        Self::from_number(n as u64)
    }
}

impl vstd::std_specs::convert::FromSpecImpl<u32> for UserId {
    open spec fn obeys_from_spec() -> bool {
        false
    }

    open spec fn from_spec(n: u32) -> Self {
        arbitrary()
    }
}

impl From<i8> for UserId {
    fn from(n: i8) -> (r: Self)
        ensures
            r@ == prefixed_signed("u"@, n as int),
    {
        UserId(prefixed_signed_string(Self::PREFIX, n as i64))
    }
}

impl vstd::std_specs::convert::FromSpecImpl<i8> for UserId {
    open spec fn obeys_from_spec() -> bool {
        false
    }

    open spec fn from_spec(n: i8) -> Self {
        arbitrary()
    }
}

impl From<i16> for UserId {
    fn from(n: i16) -> (r: Self)
        ensures
            r@ == prefixed_signed("u"@, n as int),
    {
        UserId(prefixed_signed_string(Self::PREFIX, n as i64))
    }
}

impl vstd::std_specs::convert::FromSpecImpl<i16> for UserId {
    open spec fn obeys_from_spec() -> bool {
        false
    }

    open spec fn from_spec(n: i16) -> Self {
        arbitrary()
    }
}

impl From<i32> for UserId {
    fn from(n: i32) -> (r: Self)
        ensures
            r@ == prefixed_signed("u"@, n as int),
    {
        UserId(prefixed_signed_string(Self::PREFIX, n as i64))
    }
}

impl vstd::std_specs::convert::FromSpecImpl<i32> for UserId {
    open spec fn obeys_from_spec() -> bool {
        false
    }

    open spec fn from_spec(n: i32) -> Self {
        arbitrary()
    }
}

impl From<i64> for UserId {
    fn from(n: i64) -> (r: Self)
        ensures
            r@ == prefixed_signed("u"@, n as int),
    {
        UserId(prefixed_signed_string(Self::PREFIX, n as i64))
    }
}

impl vstd::std_specs::convert::FromSpecImpl<i64> for UserId {
    open spec fn obeys_from_spec() -> bool {
        false
    }

    open spec fn from_spec(n: i64) -> Self {
        arbitrary()
    }
}

impl From<&str> for UserId {
    fn from(text: &str) -> (r: Self)
        ensures
            r@ == text@,
    {
        Self::new(text)
    }
}

impl vstd::std_specs::convert::FromSpecImpl<&str> for UserId {
    open spec fn obeys_from_spec() -> bool {
        false
    }

    open spec fn from_spec(text: &str) -> Self {
        arbitrary()
    }
}

impl From<String> for UserId {
    fn from(text: String) -> (r: Self)
        ensures
            r@ == text@,
    {
        UserId(text)
    }
}

impl vstd::std_specs::convert::FromSpecImpl<String> for UserId {
    open spec fn obeys_from_spec() -> bool {
        false
    }

    open spec fn from_spec(text: String) -> Self {
        arbitrary()
    }
}

/// A field of a user record.
#[derive(Clone, Copy, Debug, PartialEq, Eq, Structural, Hash)]
pub enum UserField {
    LengthVotes,
    LengthVotesSum,
}

impl Sealed for UserField {

}

impl QueryField for UserField {
    open spec fn token_spec(&self) -> Seq<char> {
        match self {
            UserField::LengthVotes => "lengthvotes"@,
            UserField::LengthVotesSum => "lengthvotes_sum"@,
        }
    }

    fn token(&self) -> (r: &'static str) {
        match self {
            UserField::LengthVotes => "lengthvotes",
            UserField::LengthVotesSum => "lengthvotes_sum",
        }
    }

    fn variants() -> (r: Vec<Self>) {
        let mut v: Vec<Self> = Vec::new();
        v.push(UserField::LengthVotes);
        v.push(UserField::LengthVotesSum);
        proof {
            assert forall|f: Self| v@.contains(f) by {
                match f {
                    UserField::LengthVotes => assert(v@[0] == f),
                    UserField::LengthVotesSum => assert(v@[1] == f),
                }
            }
        }
        v
    }
}


/// A user record; fields that were not selected are `None`.
#[derive(Clone, Debug)]
pub struct User {
    pub id: UserId,
    pub lengthvotes: Option<u32>,
    pub lengthvotes_sum: Option<u32>,
    pub username: String,
}

impl From<User> for UserId {
    fn from(record: User) -> (r: UserId)
        ensures
            r == record.id,
    {
        record.id
    }
}

impl vstd::std_specs::convert::FromSpecImpl<User> for UserId {
    open spec fn obeys_from_spec() -> bool {
        true
    }

    open spec fn from_spec(record: User) -> UserId {
        record.id
    }
}

/// The answers of a user lookup after reading `entries` in order; a later
/// answer for a query replaces an earlier one.
pub open spec fn lookup_answers(entries: Seq<(Seq<char>, Option<User>)>) -> Map<
    Seq<char>,
    Option<User>,
>
    decreases entries.len(),
{
    if entries.len() == 0 {
        Map::empty()
    } else {
        lookup_answers(entries.drop_last()).insert(entries.last().0, entries.last().1)
    }
}

/// The queries that found a user, with the user found.
pub open spec fn found_users(answers: Map<Seq<char>, Option<User>>) -> Map<Seq<char>, User> {
    Map::new(
        |k: Seq<char>| answers.contains_key(k) && answers[k] is Some,
        |k: Seq<char>| answers[k]->Some_0,
    )
}

/// The map that a sequence of key and user pairs spells, later pairs first.
pub open spec fn entries_map(entries: Seq<(Seq<char>, User)>) -> Map<Seq<char>, User>
    decreases entries.len(),
{
    if entries.len() == 0 {
        Map::empty()
    } else {
        entries_map(entries.drop_last()).insert(entries.last().0, entries.last().1)
    }
}

/// Whether no key occurs twice.
pub open spec fn distinct_keys<V>(entries: Seq<(Seq<char>, V)>) -> bool {
    forall|i: int, j: int|
        0 <= i < entries.len() && 0 <= j < entries.len() && i != j ==> entries[i].0 != entries[j].0
}

/// The keys of the map are the keys of the pairs, and each maps to its pair's
/// user.
pub proof fn lemma_entries_map(entries: Seq<(Seq<char>, User)>)
    requires
        distinct_keys(entries),
    ensures
        forall|k: Seq<char>|
            entries_map(entries).contains_key(k) <==> exists|i: int|
                0 <= i < entries.len() && #[trigger] entries[i].0 == k,
        forall|i: int|
            0 <= i < entries.len() ==> entries_map(entries)[#[trigger] entries[i].0]
                == entries[i].1,
    decreases entries.len(),
{
    if entries.len() > 0 {
        let prev = entries.drop_last();
        assert(distinct_keys(prev)) by {
            assert forall|i: int, j: int|
                0 <= i < prev.len() && 0 <= j < prev.len() && i != j implies prev[i].0
                != prev[j].0 by {
                assert(prev[i] == entries[i] && prev[j] == entries[j]);
            }
        }
        lemma_entries_map(prev);
        assert forall|k: Seq<char>|
            entries_map(entries).contains_key(k) implies exists|i: int|
                0 <= i < entries.len() && #[trigger] entries[i].0 == k by {
            if k != entries.last().0 {
                assert(entries_map(prev).contains_key(k));
                let i = choose|i: int| 0 <= i < prev.len() && #[trigger] prev[i].0 == k;
                assert(entries[i] == prev[i]);
            } else {
                assert(entries[entries.len() - 1].0 == k);
            }
        }
        assert forall|i: int| 0 <= i < entries.len() implies entries_map(
            entries,
        )[#[trigger] entries[i].0] == entries[i].1 by {
            if i < entries.len() - 1 {
                assert(entries[i] == prev[i]);
                assert(entries[i].0 != entries.last().0);
            }
        }
        assert forall|k: Seq<char>|
            (exists|i: int| 0 <= i < entries.len() && #[trigger] entries[i].0 == k) implies entries_map(
            entries,
        ).contains_key(k) by {
            let i = choose|i: int| 0 <= i < entries.len() && #[trigger] entries[i].0 == k;
            if i < entries.len() - 1 {
                assert(prev[i] == entries[i]);
            }
        }
    }
}

/// Removing a pair removes its key from the map.
pub proof fn lemma_entries_map_remove(entries: Seq<(Seq<char>, User)>, j: int)
    requires
        distinct_keys(entries),
        0 <= j < entries.len(),
    ensures
        entries_map(entries.remove(j)) == entries_map(entries).remove(entries[j].0),
        distinct_keys(entries.remove(j)),
    decreases entries.len(),
{
    let prev = entries.drop_last();
    let rest = entries.remove(j);
    assert(distinct_keys(rest)) by {
        assert forall|a: int, b: int|
            0 <= a < rest.len() && 0 <= b < rest.len() && a != b implies rest[a].0 != rest[b].0 by {
            let a2 = if a < j { a } else { a + 1 };
            let b2 = if b < j { b } else { b + 1 };
            assert(rest[a] == entries[a2] && rest[b] == entries[b2]);
        }
    }
    assert(distinct_keys(prev)) by {
        assert forall|a: int, b: int|
            0 <= a < prev.len() && 0 <= b < prev.len() && a != b implies prev[a].0 != prev[b].0 by {
            assert(prev[a] == entries[a] && prev[b] == entries[b]);
        }
    }
    if j == entries.len() - 1 {
        assert(rest =~= prev);
        lemma_entries_map(prev);
        assert(!entries_map(prev).contains_key(entries[j].0)) by {
            if entries_map(prev).contains_key(entries[j].0) {
                let i = choose|i: int| 0 <= i < prev.len() && #[trigger] prev[i].0 == entries[j].0;
                assert(entries[i] == prev[i]);
            }
        }
        assert(entries_map(entries).remove(entries[j].0) =~= entries_map(prev));
    } else {
        lemma_entries_map_remove(prev, j);
        assert(rest =~= prev.remove(j).push(entries.last()));
        assert(rest.drop_last() =~= prev.remove(j));
        assert(entries[j] == prev[j]);
        assert(entries[j].0 != entries.last().0);
        assert(entries_map(rest) =~= entries_map(entries).remove(entries[j].0));
    }
}

/// The index of the pair whose key is `key`, if any.
fn position_of(entries: &Vec<(String, User)>, key: &String) -> (r: Option<usize>)
    ensures
        r is Some ==> r->Some_0 < entries@.len() && pair_views(entries@)[r->Some_0 as int].0
            == key@,
        r is None ==> forall|j: int|
            0 <= j < entries@.len() ==> pair_views(entries@)[j].0 != key@,
{
    let mut i: usize = 0;
    while i < entries.len()
        invariant
            i <= entries@.len(),
            forall|j: int| 0 <= j < i ==> pair_views(entries@)[j].0 != key@,
        decreases entries@.len() - i,
    {
        let pair = &entries[i];
        let k: &String = &pair.0;
        if *k == *key {
            assert(pair_views(entries@)[i as int].0 == key@);
            return Some(i);
        }
        i = i + 1;
    }
    None
}

/// The users that a lookup found, by the query text that found each.
pub struct Users {
    entries: Vec<(String, User)>,
}

/// The key and user views of stored pairs.
pub open spec fn pair_views(entries: Seq<(String, User)>) -> Seq<(Seq<char>, User)> {
    entries.map_values(|p: (String, User)| (p.0@, p.1))
}

impl View for Users {
    type V = Map<Seq<char>, User>;

    closed spec fn view(&self) -> Map<Seq<char>, User> {
        entries_map(pair_views(self.entries@))
    }
}

impl Users {
    #[verifier::type_invariant]
    spec fn keys_distinct(self) -> bool {
        distinct_keys(pair_views(self.entries@))
    }

    /// No users.
    pub fn new() -> (r: Users)
        ensures
            r@ == Map::<Seq<char>, User>::empty(),
    {
        let r = Users { entries: Vec::new() };
        assert(pair_views(r.entries@) =~= Seq::<(Seq<char>, User)>::empty());
        r
    }

    /// Reads the answers of a lookup in order: each query maps to the user it
    /// found, and queries answered with no user are left out.
    pub fn from_entries(entries: Vec<(String, Option<User>)>) -> (r: Users)
        ensures
            r@ == found_users(
                lookup_answers(
                    entries@.map_values(|p: (String, Option<User>)| (p.0@, p.1)),
                ),
            ),
    {
        let ghost all = entries@.map_values(|p: (String, Option<User>)| (p.0@, p.1));
        let mut rest = entries;
        let mut out: Vec<(String, User)> = Vec::new();
        let ghost mut done: int = 0;
        assert(pair_views(out@) =~= Seq::<(Seq<char>, User)>::empty());
        assert(found_users(lookup_answers(all.take(0))) =~= Map::<Seq<char>, User>::empty());
        while rest.len() > 0
            invariant
                0 <= done <= all.len(),
                rest@.len() == all.len() - done,
                forall|i: int|
                    0 <= i < rest@.len() ==> (#[trigger] rest@[i]).0@ == all[done + i].0
                        && rest@[i].1 == all[done + i].1,
                distinct_keys(pair_views(out@)),
                entries_map(pair_views(out@)) == found_users(lookup_answers(all.take(done))),
            decreases rest@.len(),
        {
            let (key, answer) = rest.remove(0);
            let ghost before = pair_views(out@);
            proof {
                lemma_entries_map(before);
            }
            let ghost removed = before;
            let position = position_of(&out, &key);
            if let Some(i) = position {
                proof {
                    assert(before[i as int].0 == key@);
                    lemma_entries_map_remove(before, i as int);
                }
                out.remove(i);
                proof {
                    assert(pair_views(out@) =~= before.remove(i as int));
                    removed = before.remove(i as int);
                }
            } else {
                proof {
                    assert(!entries_map(before).contains_key(key@)) by {
                        if entries_map(before).contains_key(key@) {
                            let k = choose|k: int| 0 <= k < before.len() && #[trigger] before[k].0
                                == key@;
                        }
                    }
                    assert(entries_map(before).remove(key@) =~= entries_map(before));
                }
            }
            assert(entries_map(removed) == entries_map(before).remove(key@));
            assert(distinct_keys(removed));
            proof {
                assert(all.take(done + 1).drop_last() =~= all.take(done));
                assert(all.take(done + 1).last() == (key@, answer));
            }
            match answer {
                Some(user) => {
                    proof {
                        lemma_entries_map(removed);
                    }
                    out.push((key, user));
                    proof {
                        let now = pair_views(out@);
                        assert(now =~= removed.push((now.last().0, now.last().1)));
                        assert(now.drop_last() =~= removed);
                        assert(distinct_keys(now)) by {
                            assert forall|a: int, b: int|
                                0 <= a < now.len() && 0 <= b < now.len() && a != b implies now[a].0
                                != now[b].0 by {
                                if a == now.len() - 1 && b < removed.len() {
                                    assert(now[b] == removed[b]);
                                    assert(entries_map(removed).contains_key(removed[b].0));
                                } else if b == now.len() - 1 && a < removed.len() {
                                    assert(now[a] == removed[a]);
                                    assert(entries_map(removed).contains_key(removed[a].0));
                                } else {
                                    assert(now[a] == removed[a] && now[b] == removed[b]);
                                }
                            }
                        }
                        assert(entries_map(now) =~= found_users(lookup_answers(all.take(done + 1))));
                    }
                },
                None => {
                    proof {
                        assert(entries_map(pair_views(out@)) =~= found_users(
                            lookup_answers(all.take(done + 1)),
                        ));
                    }
                },
            }
            proof {
                done = done + 1;
            }
        }
        assert(all.take(done) =~= all);
        Users { entries: out }
    }

    /// The user that the query `key` found.
    pub fn get(&self, key: &str) -> (r: Option<&User>)
        ensures
            r is Some <==> self@.contains_key(key@),
            r is Some ==> *r->Some_0 == self@[key@],
    {
        proof {
            use_type_invariant(self);
            lemma_entries_map(pair_views(self.entries@));
        }
        let wanted = key.to_owned();
        if let Some(i) = position_of(&self.entries, &wanted) {
            return Some(&self.entries[i].1);
        }
        proof {
            if self@.contains_key(key@) {
                let k = choose|k: int|
                    0 <= k < pair_views(self.entries@).len() && #[trigger] pair_views(
                        self.entries@,
                    )[k].0 == key@;
            }
        }
        None
    }

    /// Whether the query `key` found a user.
    pub fn contains_key(&self, key: &str) -> (r: bool)
        ensures
            r == self@.contains_key(key@),
    {
        self.get(key).is_some()
    }

    /// The number of users found.
    pub fn len(&self) -> (r: usize)
        ensures
            r == self@.dom().len(),
    {
        proof {
            use_type_invariant(self);
            let pv = pair_views(self.entries@);
            lemma_entries_map(pv);
            let keys = pv.map_values(|p: (Seq<char>, User)| p.0);
            assert(keys.no_duplicates());
            assert(self@.dom() =~= keys.to_set()) by {
                assert forall|k: Seq<char>| self@.dom().contains(k) implies keys.to_set().contains(k) by {
                    let i = choose|i: int| 0 <= i < pv.len() && #[trigger] pv[i].0 == k;
                    assert(keys[i] == k);
                }
                assert forall|k: Seq<char>| keys.to_set().contains(k) implies self@.dom().contains(k) by {
                    let i = choose|i: int| 0 <= i < keys.len() && keys[i] == k;
                    assert(pv[i].0 == k);
                }
            }
            keys.unique_seq_to_set();
        }
        self.entries.len()
    }

    /// Whether no user was found.
    pub fn is_empty(&self) -> (r: bool)
        ensures
            r == (self@.dom().len() == 0),
    {
        self.len() == 0
    }

    /// One of the users found, or `None` when no user was found.
    pub fn into_first_user(self) -> (r: Option<User>)
        ensures
            r is None <==> self@.dom().len() == 0,
            r is Some ==> exists|k: Seq<char>| #[trigger] self@.contains_key(k) && self@[k] == r->Some_0,
    {
        proof {
            use_type_invariant(&self);
        }
        let ghost pairs = pair_views(self.entries@);
        proof {
            lemma_entries_map(pairs);
        }
        let ghost found = self@;
        let n = self.len();
        if n == 0 {
            return None;
        }
        let mut entries = self.entries;
        match entries.pop() {
            Some((_, user)) => {
                proof {
                    let k = pairs[pairs.len() - 1].0;
                    assert(found.contains_key(k));
                }
                Some(user)
            },
            None => {
                proof {
                    assert(pairs =~= Seq::<(Seq<char>, User)>::empty());
                    assert(found.dom() =~= Set::<Seq<char>>::empty());
                }
                None
            },
        }
    }

    /// The pairs of query and user, each query once.
    pub fn into_inner(self) -> (r: Vec<(String, User)>)
        ensures
            entries_map(pair_views(r@)) == self@,
            distinct_keys(pair_views(r@)),
    {
        proof {
            use_type_invariant(&self);
        }
        self.entries
    }
}

impl Default for Users {
    fn default() -> (r: Users)
        ensures
            r@ == Map::<Seq<char>, User>::empty(),
    {
        Users::new()
    }
}


/// The query texts of a user lookup: user ids or user names, each once.
#[verifier::external_body]
pub struct UserUrlQuery {
    inner: ahash::HashSet<String>,
}

/// The texts that a user lookup query holds.
pub uninterp spec fn user_query_texts(query: UserUrlQuery) -> Set<Seq<char>>;

impl View for UserUrlQuery {
    type V = Set<Seq<char>>;

    open spec fn view(&self) -> Set<Seq<char>> {
        user_query_texts(*self)
    }
}

/// The texts of a sequence of strings.
pub open spec fn texts_of(items: Seq<String>) -> Seq<Seq<char>> {
    items.map_values(|t: String| t@)
}

impl UserUrlQuery {
    /// The name of the query-string parameter that carries each text.
    pub const URL_QUERY_PARAM: &'static str = "q";

    /// Relies on `ahash::HashSetExt::new`: an empty set.
    #[verifier::external_body]
    pub fn new() -> (r: Self)
        ensures
            user_query_texts(r) == Set::<Seq<char>>::empty(),
    {
        UserUrlQuery { inner: ahash::HashSet::new() }
    }

    /// Relies on `HashSet::insert` over `ahash::RandomState`: the set then
    /// holds `text`, and nothing else changes.
    #[verifier::external_body]
    pub fn insert(&mut self, text: &str)
        ensures
            user_query_texts(*final(self)) == user_query_texts(*old(self)).insert(text@),
    {
        self.inner.insert(text.to_owned());
    }

    /// Relies on `HashSet::remove` over `ahash::RandomState`: the set then
    /// lacks `text`, and nothing else changes.
    #[verifier::external_body]
    pub fn remove(&mut self, text: &str)
        ensures
            user_query_texts(*final(self)) == user_query_texts(*old(self)).remove(text@),
    {
        self.inner.remove(text);
    }

    /// Relies on `HashSet::clear`: the set is then empty.
    #[verifier::external_body]
    pub fn clear(&mut self)
        ensures
            user_query_texts(*final(self)) == Set::<Seq<char>>::empty(),
    {
        self.inner.clear();
    }

    /// Relies on `HashSet::len`: the number of texts.
    #[verifier::external_body]
    pub fn len(&self) -> (r: usize)
        ensures
            r == user_query_texts(*self).len(),
    {
        self.inner.len()
    }

    /// Relies on `HashSet::into_iter`: every text once, in an order that the
    /// hasher decides.
    #[verifier::external_body]
    pub fn into_vec(self) -> (r: Vec<String>)
        ensures
            texts_of(r@).no_duplicates(),
            texts_of(r@).to_set() == user_query_texts(self),
    {
        self.inner.into_iter().collect()
    }

    /// Whether the query holds no text.
    pub fn is_empty(&self) -> (r: bool)
        ensures
            r == (self@.len() == 0),
    {
        self.len() == 0
    }

    /// The query holding the ids `u{start}` up to but not including `u{end}`.
    pub fn from_range(start: u64, end: u64) -> (r: Self)
        ensures
            r@ == Set::new(
                |t: Seq<char>| exists|n: int| start <= n < end && t == #[trigger] prefixed_number("u"@, n as nat),
            ),
    {
        let mut query = Self::new();
        let mut n: u64 = start;
        while n < end
            invariant
                start <= n,
                n <= end || n == start,
                query@ == Set::new(
                    |t: Seq<char>| exists|m: int| start <= m < n && t == #[trigger] prefixed_number("u"@, m as nat),
                ),
            decreases end - n,
        {
            let id = prefixed_number_string(UserId::PREFIX, n);
            let ghost old_query = query@;
            assert(id@ == prefixed_number("u"@, n as nat));
            query.insert(id.as_str());
            proof {
                let next = n + 1;
                assert(query@ =~= Set::new(
                    |t: Seq<char>| exists|m: int| start <= m < next && t == #[trigger] prefixed_number("u"@, m as nat),
                )) by {
                    assert forall|t: Seq<char>| query@.contains(t) implies exists|m: int| start <= m < next && t == #[trigger] prefixed_number("u"@, m as nat) by {
                        if t == id@ {
                            let m: int = n as int;
                            assert(start <= m < next && t == prefixed_number("u"@, m as nat));
                        } else {
                            assert(old_query.contains(t));
                            let m = choose|m: int| start <= m < n && t == #[trigger] prefixed_number("u"@, m as nat);
                            assert(start <= m < next && t == prefixed_number("u"@, m as nat));
                        }
                    }
                }
            }
            n = n + 1;
        }
        assert(query@ =~= Set::new(
            |t: Seq<char>| exists|n: int| start <= n < end && t == #[trigger] prefixed_number("u"@, n as nat),
        ));
        query
    }

    /// One `q` parameter for each text.
    pub fn into_query(self) -> (r: UrlQueryParams)
        ensures
            forall|i: int| 0 <= i < r@.len() ==> (#[trigger] r@[i]).0 == "q"@,
            r@.map_values(|p: (Seq<char>, Seq<char>)| p.1).no_duplicates(),
            r@.map_values(|p: (Seq<char>, Seq<char>)| p.1).to_set() == self@,
    {
        let texts = self.into_vec();
        let ghost ts = texts_of(texts@);
        let mut pairs: Vec<(&'static str, String)> = Vec::new();
        let mut rest = texts;
        let ghost mut done: int = 0;
        while rest.len() > 0
            invariant
                0 <= done <= ts.len(),
                rest@.len() == ts.len() - done,
                forall|i: int| 0 <= i < rest@.len() ==> (#[trigger] rest@[i])@ == ts[done + i],
                pairs@.len() == done,
                forall|i: int| 0 <= i < done ==> (#[trigger] pairs@[i]).0@ == "q"@ && pairs@[i].1@ == ts[i],
            decreases rest@.len(),
        {
            let text = rest.remove(0);
            pairs.push((Self::URL_QUERY_PARAM, text));
            proof {
                done = done + 1;
            }
        }
        let r = UrlQueryParams(pairs);
        assert(r@.map_values(|p: (Seq<char>, Seq<char>)| p.1) =~= ts);
        r
    }
}

impl From<&str> for UserUrlQuery {
    fn from(text: &str) -> (r: Self)
        ensures
            r@ == Set::<Seq<char>>::empty().insert(text@),
    {
        let mut query = Self::new();
        query.insert(text);
        query
    }
}

impl vstd::std_specs::convert::FromSpecImpl<&str> for UserUrlQuery {
    open spec fn obeys_from_spec() -> bool {
        false
    }

    open spec fn from_spec(text: &str) -> Self {
        arbitrary()
    }
}

impl From<String> for UserUrlQuery {
    fn from(text: String) -> (r: Self)
        ensures
            r@ == Set::<Seq<char>>::empty().insert(text@),
    {
        let mut query = Self::new();
        query.insert(text.as_str());
        query
    }
}

impl vstd::std_specs::convert::FromSpecImpl<String> for UserUrlQuery {
    open spec fn obeys_from_spec() -> bool {
        false
    }

    open spec fn from_spec(text: String) -> Self {
        arbitrary()
    }
}

impl From<u64> for UserUrlQuery {
    fn from(n: u64) -> (r: Self)
        ensures
            r@ == Set::<Seq<char>>::empty().insert(prefixed_number("u"@, n as nat)),
    {
        let mut query = Self::new();
        let id = prefixed_number_string(UserId::PREFIX, n);
        query.insert(id.as_str());
        query
    }
}

impl vstd::std_specs::convert::FromSpecImpl<u64> for UserUrlQuery {
    open spec fn obeys_from_spec() -> bool {
        false
    }

    open spec fn from_spec(n: u64) -> Self {
        arbitrary()
    }
}

impl From<UserId> for UserUrlQuery {
    fn from(id: UserId) -> (r: Self)
        ensures
            r@ == Set::<Seq<char>>::empty().insert(id@),
    {
        let mut query = Self::new();
        query.insert(id.as_str());
        query
    }
}

impl vstd::std_specs::convert::FromSpecImpl<UserId> for UserUrlQuery {
    open spec fn obeys_from_spec() -> bool {
        false
    }

    open spec fn from_spec(id: UserId) -> Self {
        arbitrary()
    }
}


/// Taking one more item of a sequence adds that item to its set.
proof fn lemma_take_one_more<A>(s: Seq<A>, i: int)
    requires
        0 <= i < s.len(),
    ensures
        s.take(i + 1).to_set() == s.take(i).to_set().insert(s[i]),
{
    assert(s.take(i + 1) =~= s.take(i).push(s[i]));
    s.take(i).lemma_push_to_set_commute(s[i]);
}

impl UserUrlQuery {
    /// Adds each text.
    pub fn insert_texts(&mut self, texts: &[&str])
        ensures
            final(self)@ == old(self)@ + texts@.map_values(|t: &str| t@).to_set(),
    {
        let ghost items = texts@.map_values(|t: &str| t@);
        let mut i: usize = 0;
        while i < texts.len()
            invariant
                i <= texts@.len(),
                items == texts@.map_values(|t: &str| t@),
                items.len() == texts@.len(),
                self@ == old(self)@ + items.take(i as int).to_set(),
            decreases texts@.len() - i,
        {
            self.insert(texts[i]);
            proof {
                lemma_take_one_more(items, i as int);
                assert(self@ =~= old(self)@ + items.take(i + 1).to_set());
            }
            i = i + 1;
        }
        assert(items.take(texts@.len() as int) =~= items);
    }

    /// Adds each text.
    pub fn insert_strings(&mut self, texts: &Vec<String>)
        ensures
            final(self)@ == old(self)@ + texts_of(texts@).to_set(),
    {
        let ghost items = texts_of(texts@);
        let mut i: usize = 0;
        while i < texts.len()
            invariant
                i <= texts@.len(),
                items == texts_of(texts@),
                items.len() == texts@.len(),
                self@ == old(self)@ + items.take(i as int).to_set(),
            decreases texts@.len() - i,
        {
            self.insert(texts[i].as_str());
            proof {
                lemma_take_one_more(items, i as int);
                assert(self@ =~= old(self)@ + items.take(i + 1).to_set());
            }
            i = i + 1;
        }
        assert(items.take(texts@.len() as int) =~= items);
    }

    /// Adds the user id of each number.
    pub fn insert_numbers(&mut self, numbers: &[u64])
        ensures
            final(self)@ == old(self)@ + numbers@.map_values(|n: u64| prefixed_number("u"@, n as nat)).to_set(),
    {
        let ghost items = numbers@.map_values(|n: u64| prefixed_number("u"@, n as nat));
        let mut i: usize = 0;
        while i < numbers.len()
            invariant
                i <= numbers@.len(),
                items == numbers@.map_values(|n: u64| prefixed_number("u"@, n as nat)),
                items.len() == numbers@.len(),
                self@ == old(self)@ + items.take(i as int).to_set(),
            decreases numbers@.len() - i,
        {
            let id = prefixed_number_string(UserId::PREFIX, numbers[i]);
            self.insert(id.as_str());
            proof {
                lemma_take_one_more(items, i as int);
                assert(self@ =~= old(self)@ + items.take(i + 1).to_set());
            }
            i = i + 1;
        }
        assert(items.take(numbers@.len() as int) =~= items);
    }

    /// Adds each user id.
    pub fn insert_ids(&mut self, ids: &[UserId])
        ensures
            final(self)@ == old(self)@ + ids@.map_values(|u: UserId| u@).to_set(),
    {
        let ghost items = ids@.map_values(|u: UserId| u@);
        let mut i: usize = 0;
        while i < ids.len()
            invariant
                i <= ids@.len(),
                items == ids@.map_values(|u: UserId| u@),
                items.len() == ids@.len(),
                self@ == old(self)@ + items.take(i as int).to_set(),
            decreases ids@.len() - i,
        {
            self.insert(ids[i].as_str());
            proof {
                lemma_take_one_more(items, i as int);
                assert(self@ =~= old(self)@ + items.take(i + 1).to_set());
            }
            i = i + 1;
        }
        assert(items.take(ids@.len() as int) =~= items);
    }

}

impl From<u8> for UserUrlQuery {
    fn from(n: u8) -> (r: Self)
        ensures
            r@ == Set::<Seq<char>>::empty().insert(prefixed_number("u"@, n as nat)),
    {
        Self::from(n as u64)
    }
}

impl vstd::std_specs::convert::FromSpecImpl<u8> for UserUrlQuery {
    open spec fn obeys_from_spec() -> bool {
        false
    }

    open spec fn from_spec(n: u8) -> Self {
        arbitrary()
    }
}

impl From<u16> for UserUrlQuery {
    fn from(n: u16) -> (r: Self)
        ensures
            r@ == Set::<Seq<char>>::empty().insert(prefixed_number("u"@, n as nat)),
    {
        Self::from(n as u64)
    }
}

impl vstd::std_specs::convert::FromSpecImpl<u16> for UserUrlQuery {
    open spec fn obeys_from_spec() -> bool {
        false
    }

    open spec fn from_spec(n: u16) -> Self {
        arbitrary()
    }
}

impl From<u32> for UserUrlQuery {
    fn from(n: u32) -> (r: Self)
        ensures
            r@ == Set::<Seq<char>>::empty().insert(prefixed_number("u"@, n as nat)),
    {
        Self::from(n as u64)
    }
}

impl vstd::std_specs::convert::FromSpecImpl<u32> for UserUrlQuery {
    open spec fn obeys_from_spec() -> bool {
        false
    }

    open spec fn from_spec(n: u32) -> Self {
        arbitrary()
    }
}

impl From<i32> for UserUrlQuery {
    fn from(n: i32) -> (r: Self)
        ensures
            r@ == Set::<Seq<char>>::empty().insert(prefixed_signed("u"@, n as int)),
    {
        let mut query = Self::new();
        let id = prefixed_signed_string(UserId::PREFIX, n as i64);
        query.insert(id.as_str());
        query
    }
}

impl vstd::std_specs::convert::FromSpecImpl<i32> for UserUrlQuery {
    open spec fn obeys_from_spec() -> bool {
        false
    }

    open spec fn from_spec(n: i32) -> Self {
        arbitrary()
    }
}

impl From<&String> for UserUrlQuery {
    fn from(text: &String) -> (r: Self)
        ensures
            r@ == Set::<Seq<char>>::empty().insert(text@),
    {
        Self::from(text.as_str())
    }
}

impl vstd::std_specs::convert::FromSpecImpl<&String> for UserUrlQuery {
    open spec fn obeys_from_spec() -> bool {
        false
    }

    open spec fn from_spec(text: &String) -> Self {
        arbitrary()
    }
}

impl From<Cow<'_, str>> for UserUrlQuery {
    fn from(text: Cow<'_, str>) -> (r: Self)
        ensures
            r@ == Set::<Seq<char>>::empty().insert(text@),
    {
        match &text {
            Cow::Borrowed(borrowed) => Self::from(*borrowed),
            Cow::Owned(owned) => Self::from(owned.as_str()),
        }
    }
}

impl vstd::std_specs::convert::FromSpecImpl<Cow<'_, str>> for UserUrlQuery {
    open spec fn obeys_from_spec() -> bool {
        false
    }

    open spec fn from_spec(text: Cow<'_, str>) -> Self {
        arbitrary()
    }
}

impl From<&[&str]> for UserUrlQuery {
    fn from(texts: &[&str]) -> (r: Self)
        ensures
            r@ == texts@.map_values(|t: &str| t@).to_set(),
    {
        let mut query = Self::new();
        query.insert_texts(texts);
        assert(query@ =~= texts@.map_values(|t: &str| t@).to_set());
        query
    }
}

impl vstd::std_specs::convert::FromSpecImpl<&[&str]> for UserUrlQuery {
    open spec fn obeys_from_spec() -> bool {
        false
    }

    open spec fn from_spec(texts: &[&str]) -> Self {
        arbitrary()
    }
}

impl From<Vec<String>> for UserUrlQuery {
    fn from(texts: Vec<String>) -> (r: Self)
        ensures
            r@ == texts_of(texts@).to_set(),
    {
        let mut query = Self::new();
        query.insert_strings(&texts);
        assert(query@ =~= texts_of(texts@).to_set());
        query
    }
}

impl vstd::std_specs::convert::FromSpecImpl<Vec<String>> for UserUrlQuery {
    open spec fn obeys_from_spec() -> bool {
        false
    }

    open spec fn from_spec(texts: Vec<String>) -> Self {
        arbitrary()
    }
}

impl From<&[u64]> for UserUrlQuery {
    fn from(numbers: &[u64]) -> (r: Self)
        ensures
            r@ == numbers@.map_values(|n: u64| prefixed_number("u"@, n as nat)).to_set(),
    {
        let mut query = Self::new();
        query.insert_numbers(numbers);
        assert(query@ =~= numbers@.map_values(|n: u64| prefixed_number("u"@, n as nat)).to_set());
        query
    }
}

impl vstd::std_specs::convert::FromSpecImpl<&[u64]> for UserUrlQuery {
    open spec fn obeys_from_spec() -> bool {
        false
    }

    open spec fn from_spec(numbers: &[u64]) -> Self {
        arbitrary()
    }
}

impl From<Vec<u64>> for UserUrlQuery {
    fn from(numbers: Vec<u64>) -> (r: Self)
        ensures
            r@ == numbers@.map_values(|n: u64| prefixed_number("u"@, n as nat)).to_set(),
    {
        let mut query = Self::new();
        query.insert_numbers(numbers.as_slice());
        assert(query@ =~= numbers@.map_values(|n: u64| prefixed_number("u"@, n as nat)).to_set());
        query
    }
}

impl vstd::std_specs::convert::FromSpecImpl<Vec<u64>> for UserUrlQuery {
    open spec fn obeys_from_spec() -> bool {
        false
    }

    open spec fn from_spec(numbers: Vec<u64>) -> Self {
        arbitrary()
    }
}

impl From<&[UserId]> for UserUrlQuery {
    fn from(ids: &[UserId]) -> (r: Self)
        ensures
            r@ == ids@.map_values(|u: UserId| u@).to_set(),
    {
        let mut query = Self::new();
        query.insert_ids(ids);
        assert(query@ =~= ids@.map_values(|u: UserId| u@).to_set());
        query
    }
}

impl vstd::std_specs::convert::FromSpecImpl<&[UserId]> for UserUrlQuery {
    open spec fn obeys_from_spec() -> bool {
        false
    }

    open spec fn from_spec(ids: &[UserId]) -> Self {
        arbitrary()
    }
}

impl From<Vec<UserId>> for UserUrlQuery {
    fn from(ids: Vec<UserId>) -> (r: Self)
        ensures
            r@ == ids@.map_values(|u: UserId| u@).to_set(),
    {
        let mut query = Self::new();
        query.insert_ids(ids.as_slice());
        assert(query@ =~= ids@.map_values(|u: UserId| u@).to_set());
        query
    }
}

impl vstd::std_specs::convert::FromSpecImpl<Vec<UserId>> for UserUrlQuery {
    open spec fn obeys_from_spec() -> bool {
        false
    }

    open spec fn from_spec(ids: Vec<UserId>) -> Self {
        arbitrary()
    }
}

impl From<&UserId> for UserUrlQuery {
    fn from(id: &UserId) -> (r: Self)
        ensures
            r@ == Set::<Seq<char>>::empty().insert(id@),
    {
        Self::from(id.as_str())
    }
}

impl vstd::std_specs::convert::FromSpecImpl<&UserId> for UserUrlQuery {
    open spec fn obeys_from_spec() -> bool {
        false
    }

    open spec fn from_spec(id: &UserId) -> Self {
        arbitrary()
    }
}

impl From<Range<u64>> for UserUrlQuery {
    fn from(range: Range<u64>) -> (r: Self)
        ensures
            r@ == Set::new(
                |t: Seq<char>| exists|n: int| range.start <= n < range.end && t == #[trigger] prefixed_number("u"@, n as nat),
            ),
    {
        Self::from_range(range.start, range.end)
    }
}

impl vstd::std_specs::convert::FromSpecImpl<Range<u64>> for UserUrlQuery {
    open spec fn obeys_from_spec() -> bool {
        false
    }

    open spec fn from_spec(range: Range<u64>) -> Self {
        arbitrary()
    }
}

/// Relies on `RangeInclusive::is_empty`: true when iteration has finished or
/// the start lies past the end.
#[verifier::external_body]
fn inclusive_is_empty(range: &RangeInclusive<u64>) -> (r: bool)
    ensures
        r == (range@.exhausted || range@.start > range@.end),
{
    range.is_empty()
}

/// Relies on `RangeInclusive::into_inner`: the start and the end bound.
#[verifier::external_body]
fn inclusive_bounds(range: RangeInclusive<u64>) -> (r: (u64, u64))
    ensures
        r.0 == range@.start,
        r.1 == range@.end,
{
    range.into_inner()
}

impl From<RangeInclusive<u64>> for UserUrlQuery {
    fn from(range: RangeInclusive<u64>) -> (r: Self)
        ensures
            range@.exhausted || range@.start > range@.end ==> r@ == Set::<Seq<char>>::empty(),
            !(range@.exhausted || range@.start > range@.end) ==> r@ == Set::new(
                |t: Seq<char>| exists|n: int| range@.start <= n <= range@.end && t == #[trigger] prefixed_number("u"@, n as nat),
            ),
    {
        if inclusive_is_empty(&range) {
            return Self::new();
        }
        let ghost start_bound = range@.start;
        let ghost end_bound = range@.end;
        let (start, end) = inclusive_bounds(range);
        let mut query = Self::from_range(start, end);
        let ghost below = query@;
        let id = prefixed_number_string(UserId::PREFIX, end);
        query.insert(id.as_str());
        proof {
            let target = Set::new(
                |t: Seq<char>| exists|n: int| start <= n <= end && t == #[trigger] prefixed_number("u"@, n as nat),
            );
            assert forall|t: Seq<char>| query@.contains(t) implies target.contains(t) by {
                if t == id@ {
                    let m: int = end as int;
                    assert(start <= m <= end && t == prefixed_number("u"@, m as nat));
                } else {
                    let m = choose|m: int| start <= m < end && t == #[trigger] prefixed_number("u"@, m as nat);
                    assert(start <= m <= end && t == prefixed_number("u"@, m as nat));
                }
            }
            assert forall|t: Seq<char>| target.contains(t) implies query@.contains(t) by {
                let m = choose|m: int| start <= m <= end && t == #[trigger] prefixed_number("u"@, m as nat);
                if m < end {
                    assert(below.contains(t));
                }
            }
            assert(query@ =~= target);
        }
        query
    }
}

impl vstd::std_specs::convert::FromSpecImpl<RangeInclusive<u64>> for UserUrlQuery {
    open spec fn obeys_from_spec() -> bool {
        false
    }

    open spec fn from_spec(range: RangeInclusive<u64>) -> Self {
        arbitrary()
    }
}


impl<const N: usize> From<[&str; N]> for UserUrlQuery {
    fn from(texts: [&str; N]) -> (r: Self)
        ensures
            r@ == texts@.map_values(|t: &str| t@).to_set(),
    {
        let mut query = Self::new();
        query.insert_texts(&texts);
        assert(query@ =~= texts@.map_values(|t: &str| t@).to_set());
        query
    }
}

impl<const N: usize> vstd::std_specs::convert::FromSpecImpl<[&str; N]> for UserUrlQuery {
    open spec fn obeys_from_spec() -> bool {
        false
    }

    open spec fn from_spec(texts: [&str; N]) -> Self {
        arbitrary()
    }
}

impl<const N: usize> From<[u64; N]> for UserUrlQuery {
    fn from(numbers: [u64; N]) -> (r: Self)
        ensures
            r@ == numbers@.map_values(|n: u64| prefixed_number("u"@, n as nat)).to_set(),
    {
        let mut query = Self::new();
        query.insert_numbers(&numbers);
        assert(query@ =~= numbers@.map_values(|n: u64| prefixed_number("u"@, n as nat)).to_set());
        query
    }
}

impl<const N: usize> vstd::std_specs::convert::FromSpecImpl<[u64; N]> for UserUrlQuery {
    open spec fn obeys_from_spec() -> bool {
        false
    }

    open spec fn from_spec(numbers: [u64; N]) -> Self {
        arbitrary()
    }
}

impl<const N: usize> From<[UserId; N]> for UserUrlQuery {
    fn from(ids: [UserId; N]) -> (r: Self)
        ensures
            r@ == ids@.map_values(|u: UserId| u@).to_set(),
    {
        let mut query = Self::new();
        query.insert_ids(&ids);
        assert(query@ =~= ids@.map_values(|u: UserId| u@).to_set());
        query
    }
}

impl<const N: usize> vstd::std_specs::convert::FromSpecImpl<[UserId; N]> for UserUrlQuery {
    open spec fn obeys_from_spec() -> bool {
        false
    }

    open spec fn from_spec(ids: [UserId; N]) -> Self {
        arbitrary()
    }
}


/// Relies on `HashSet::into_iter`: every element once, in an order that the
/// hasher decides.
#[verifier::external_body]
fn set_into_vec(set: std::collections::HashSet<String>) -> (r: Vec<String>)
    ensures
        r@.no_duplicates(),
        r@.to_set() == set@,
{
    set.into_iter().collect()
}

impl From<std::collections::HashSet<String>> for UserUrlQuery {
    fn from(set: std::collections::HashSet<String>) -> (r: Self)
        ensures
            r@ == set@.map(|t: String| t@),
    {
        let ghost contents = set@;
        let texts = set_into_vec(set);
        let mut query = Self::new();
        query.insert_strings(&texts);
        proof {
            texts@.lemma_to_set_map_commutes(|t: String| t@);
        }
        assert(query@ =~= contents.map(|t: String| t@));
        query
    }
}

impl vstd::std_specs::convert::FromSpecImpl<std::collections::HashSet<String>> for UserUrlQuery {
    open spec fn obeys_from_spec() -> bool {
        false
    }

    open spec fn from_spec(set: std::collections::HashSet<String>) -> Self {
        arbitrary()
    }
}

} // verus!
