//! Sets of field tokens that select what a query returns.

use crate::model::QueryField;
use crate::url_query::UrlQueryParams;
use crate::wire::{comma_join, join_commas};
use core::marker::PhantomData;
use vstd::prelude::*;

verus! {

/// `s` with `t` appended, unless `s` already holds it.
pub open spec fn add_token(s: Seq<Seq<char>>, t: Seq<char>) -> Seq<Seq<char>> {
    if s.contains(t) {
        s
    } else {
        s.push(t)
    }
}

/// `s` with each token of `ts` added in turn.
pub open spec fn add_tokens(s: Seq<Seq<char>>, ts: Seq<Seq<char>>) -> Seq<Seq<char>>
    decreases ts.len(),
{
    if ts.len() == 0 {
        s
    } else {
        add_token(add_tokens(s, ts.drop_last()), ts.last())
    }
}

/// The wire names of a sequence of fields.
pub open spec fn field_tokens<F: QueryField>(fields: Seq<F>) -> Seq<Seq<char>> {
    fields.map_values(|f: F| f.token_spec())
}

/// Adding tokens keeps the tokens distinct and holds exactly the tokens of
/// both sequences.
pub proof fn lemma_add_tokens(s: Seq<Seq<char>>, ts: Seq<Seq<char>>)
    requires
        s.no_duplicates(),
    ensures
        add_tokens(s, ts).no_duplicates(),
        add_tokens(s, ts).to_set() == s.to_set() + ts.to_set(),
    decreases ts.len(),
{
    if ts.len() > 0 {
        let prev = ts.drop_last();
        lemma_add_tokens(s, prev);
        let m = add_tokens(s, prev);
        let t = ts.last();
        assert(ts.to_set() =~= prev.to_set().insert(t)) by {
            assert(ts =~= prev.push(t));
            prev.lemma_push_to_set_commute(t);
        }
        if !m.contains(t) {
            m.lemma_push_to_set_commute(t);
            assert(m.push(t).no_duplicates()) by {
                assert forall|i: int, j: int|
                    0 <= i < m.push(t).len() && 0 <= j < m.push(t).len() && i != j implies m.push(
                    t,
                )[i] != m.push(t)[j] by {
                    if i == m.len() {
                        assert(m[j] == m.push(t)[j]);
                    } else if j == m.len() {
                        assert(m[i] == m.push(t)[i]);
                    }
                }
            }
        } else {
            assert(m.to_set().contains(t));
        }
        assert(add_tokens(s, ts).to_set() =~= s.to_set() + ts.to_set());
    } else {
        assert(add_tokens(s, ts).to_set() =~= s.to_set() + ts.to_set());
    }
}

/// The pieces of a text between its commas, in order.
pub open spec fn split_commas(s: Seq<char>) -> Seq<Seq<char>>
    decreases s.len(),
{
    if s.len() == 0 {
        seq![Seq::empty()]
    } else if s.last() == ',' {
        split_commas(s.drop_last()).push(Seq::empty())
    } else {
        let pieces = split_commas(s.drop_last());
        pieces.update(pieces.len() - 1, pieces.last().push(s.last()))
    }
}

/// The tokens that a comma-joined text lists; none for the empty text.
pub open spec fn joined_tokens(s: Seq<char>) -> Seq<Seq<char>> {
    if s.len() == 0 {
        Seq::empty()
    } else {
        split_commas(s)
    }
}

/// A token that survives joining: not empty, and without a comma.
pub open spec fn plain_token(t: Seq<char>) -> bool {
    t.len() > 0 && !t.contains(',')
}

proof fn lemma_split_without_comma(t: Seq<char>)
    requires
        !t.contains(','),
    ensures
        split_commas(t) == seq![t],
    decreases t.len(),
{
    if t.len() > 0 {
        let prev = t.drop_last();
        assert(!prev.contains(',')) by {
            if prev.contains(',') {
                let i = choose|i: int| 0 <= i < prev.len() && prev[i] == ',';
                assert(t[i] == ',');
            }
        }
        lemma_split_without_comma(prev);
        assert(t.last() != ',') by {
            assert(t[t.len() - 1] == t.last());
        }
        assert(prev.push(t.last()) =~= t);
        assert(split_commas(t) =~= seq![t]);
    } else {
        assert(t =~= Seq::<char>::empty());
    }
}

proof fn lemma_split_after_comma(x: Seq<char>, t: Seq<char>)
    requires
        !t.contains(','),
    ensures
        split_commas(x + seq![','] + t) == split_commas(x).push(t),
    decreases t.len(),
{
    let s = x + seq![','] + t;
    if t.len() == 0 {
        assert(s.drop_last() =~= x);
        assert(t =~= Seq::<char>::empty());
    } else {
        let prev = t.drop_last();
        assert(!prev.contains(',')) by {
            if prev.contains(',') {
                let i = choose|i: int| 0 <= i < prev.len() && prev[i] == ',';
                assert(t[i] == ',');
            }
        }
        lemma_split_after_comma(x, prev);
        assert(s.drop_last() =~= x + seq![','] + prev);
        assert(s.last() == t.last());
        assert(t.last() != ',') by {
            assert(t[t.len() - 1] == t.last());
        }
        assert(prev.push(t.last()) =~= t);
        assert(split_commas(s) =~= split_commas(x).push(t));
    }
}

/// Joining tokens that hold no comma and splitting the result at its commas
/// gives the tokens back.
pub proof fn lemma_join_then_split(ts: Seq<Seq<char>>)
    requires
        ts.len() > 0,
        forall|i: int| 0 <= i < ts.len() ==> !(#[trigger] ts[i]).contains(','),
    ensures
        split_commas(comma_join(ts)) == ts,
    decreases ts.len(),
{
    if ts.len() == 1 {
        lemma_split_without_comma(ts[0]);
        assert(ts =~= seq![ts[0]]);
    } else {
        let prev = ts.drop_last();
        assert forall|i: int| 0 <= i < prev.len() implies !(#[trigger] prev[i]).contains(',') by {
            assert(prev[i] == ts[i]);
        }
        lemma_join_then_split(prev);
        assert(!ts.last().contains(',')) by {
            assert(ts[ts.len() - 1] == ts.last());
        }
        lemma_split_after_comma(comma_join(prev), ts.last());
        assert(prev.push(ts.last()) =~= ts);
    }
}

/// Merging field set `b` into field set `a` and joining the result lists
/// exactly the tokens of `a` and of `b`, each once, whatever they share;
/// provided no token is empty or holds a comma, since such a token cannot be
/// read back from the joined text.
pub proof fn lemma_merge_join_union<F: QueryField>(a: FieldSet<F>, b: FieldSet<F>)
    requires
        a@.no_duplicates(),
        forall|t: Seq<char>| #[trigger] a@.contains(t) ==> plain_token(t),
        forall|t: Seq<char>| #[trigger] b@.contains(t) ==> plain_token(t),
    ensures
        joined_tokens(comma_join(add_tokens(a@, b@))).to_set() == a@.to_set() + b@.to_set(),
        joined_tokens(comma_join(add_tokens(a@, b@))).no_duplicates(),
{
    let merged = add_tokens(a@, b@);
    lemma_add_tokens(a@, b@);
    if merged.len() == 0 {
        assert(comma_join(merged).len() == 0);
        assert(joined_tokens(comma_join(merged)) =~= merged);
    } else {
        assert forall|i: int| 0 <= i < merged.len() implies !(#[trigger] merged[i]).contains(',')
            && merged[i].len() > 0 by {
            assert(merged.to_set().contains(merged[i]));
            if a@.contains(merged[i]) {
            } else {
                assert(b@.to_set().contains(merged[i]));
            }
        }
        lemma_join_then_split(merged);
        assert(comma_join(merged).len() > 0) by {
            lemma_join_nonempty(merged);
        }
    }
}

/// Joining tokens that are all non-empty gives a non-empty text.
proof fn lemma_join_nonempty(ts: Seq<Seq<char>>)
    requires
        ts.len() > 0,
        forall|i: int| 0 <= i < ts.len() ==> (#[trigger] ts[i]).len() > 0,
    ensures
        comma_join(ts).len() > 0,
{
    if ts.len() == 1 {
        assert(ts[0].len() > 0);
    }
}

/// A set of field tokens of one resource. It holds each token once, in the
/// order in which the tokens were first added.
pub struct FieldSet<F: QueryField> {
    inner: Vec<String>,
    marker: PhantomData<F>,
}

impl<F: QueryField> View for FieldSet<F> {
    type V = Seq<Seq<char>>;

    closed spec fn view(&self) -> Seq<Seq<char>> {
        self.inner@.map_values(|t: String| t@)
    }
}

impl<F: QueryField> FieldSet<F> {
    #[verifier::type_invariant]
    spec fn distinct(self) -> bool {
        self@.no_duplicates()
    }

    /// The name of the query-string parameter that carries a field set.
    pub const URL_QUERY_PARAM: &'static str = "fields";

    /// An empty set.
    pub fn new() -> (r: Self)
        ensures
            r@ == Seq::<Seq<char>>::empty(),
    {
        let r = FieldSet { inner: Vec::new(), marker: PhantomData };
        assert(r@ =~= Seq::<Seq<char>>::empty());
        r
    }

    /// An empty set; the capacity is a hint for the storage only.
    pub fn with_capacity(capacity: usize) -> (r: Self)
        ensures
            r@ == Seq::<Seq<char>>::empty(),
    {
        let r = FieldSet { inner: Vec::with_capacity(capacity), marker: PhantomData };
        assert(r@ =~= Seq::<Seq<char>>::empty());
        r
    }

    /// An empty set.
    pub fn none() -> (r: Self)
        ensures
            r@ == Seq::<Seq<char>>::empty(),
    {
        Self::new()
    }

    /// Whether `t` is one of the tokens.
    fn holds(&self, t: &String) -> (r: bool)
        ensures
            r == self@.contains(t@),
    {
        let mut i: usize = 0;
        while i < self.inner.len()
            invariant
                i <= self.inner@.len(),
                forall|j: int| 0 <= j < i ==> self@[j] != t@,
            decreases self.inner@.len() - i,
        {
            if self.inner[i] == *t {
                assert(self@[i as int] == t@);
                return true;
            }
            i = i + 1;
        }
        false
    }

    /// Adds the token `t` if the set does not hold it.
    fn add(&mut self, t: &str)
        ensures
            final(self)@ == add_token(old(self)@, t@),
            final(self)@.no_duplicates(),
    {
        proof {
            use_type_invariant(&*self);
        }
        let owned = t.to_owned();
        if !self.holds(&owned) {
            let ghost before = self@;
            let mut tokens: Vec<String> = Vec::new();
            core::mem::swap(&mut tokens, &mut self.inner);
            tokens.push(t.to_owned());
            proof {
                assert(tokens@.map_values(|t: String| t@) =~= before.push(t@));
                lemma_add_tokens(before, seq![t@]);
                assert(seq![t@].drop_last() =~= Seq::<Seq<char>>::empty());
            }
            self.inner = tokens;
        }
        proof {
            use_type_invariant(&*self);
        }
    }

    /// A set of the given raw tokens; repeated tokens are held once.
    pub fn from_raw(tokens: Vec<String>) -> (r: Self)
        ensures
            r@ == add_tokens(Seq::empty(), tokens@.map_values(|t: String| t@)),
            r@.no_duplicates(),
    {
        let mut set = Self::new();
        set.extend_raw(tokens);
        set
    }

    /// A set of the given fields; repeated fields are held once.
    pub fn from_fields(fields: Vec<F>) -> (r: Self)
        ensures
            r@ == add_tokens(Seq::empty(), field_tokens(fields@)),
            r@.no_duplicates(),
    {
        let mut set = Self::new();
        set.extend(fields);
        set
    }

    /// Every field of the resource.
    pub fn all() -> (r: Self)
        ensures
            forall|f: F| #[trigger] r@.contains(f.token_spec()),
            forall|t: Seq<char>| r@.contains(t) ==> exists|f: F| f.token_spec() == t,
            r@.no_duplicates(),
    {
        let fields = F::variants();
        let r = Self::from_fields(fields);
        proof {
            lemma_add_tokens(Seq::empty(), field_tokens(fields@));
            assert forall|f: F| #[trigger] r@.contains(f.token_spec()) by {
                assert(fields@.contains(f));
                let i = choose|i: int| 0 <= i < fields@.len() && fields@[i] == f;
                assert(field_tokens(fields@)[i] == f.token_spec());
                assert(field_tokens(fields@).to_set().contains(f.token_spec()));
                assert(r@.to_set().contains(f.token_spec()));
            }
            assert forall|t: Seq<char>| r@.contains(t) implies exists|f: F| f.token_spec() == t by {
                assert(r@.to_set().contains(t));
                assert(field_tokens(fields@).contains(t));
                let i = choose|i: int|
                    0 <= i < field_tokens(fields@).len() && field_tokens(fields@)[i] == t;
                assert(fields@[i].token_spec() == t);
            }
        }
        r
    }

    /// Adds the field.
    pub fn insert(&mut self, field: &F)
        ensures
            final(self)@ == add_token(old(self)@, field.token_spec()),
            final(self)@.no_duplicates(),
    {
        self.add(field.token());
    }

    /// Adds a raw token, such as a dotted path into a nested record.
    pub fn insert_raw(&mut self, field: &str)
        ensures
            final(self)@ == add_token(old(self)@, field@),
            final(self)@.no_duplicates(),
    {
        self.add(field);
    }

    /// Adds the fields in turn.
    pub fn extend(&mut self, fields: Vec<F>)
        ensures
            final(self)@ == add_tokens(old(self)@, field_tokens(fields@)),
            final(self)@.no_duplicates(),
    {
        proof {
            use_type_invariant(&*self);
        }
        let ghost ts = field_tokens(fields@);
        let mut i: usize = 0;
        while i < fields.len()
            invariant
                i <= fields@.len(),
                ts == field_tokens(fields@),
                self@ == add_tokens(old(self)@, ts.take(i as int)),
                self@.no_duplicates(),
            decreases fields@.len() - i,
        {
            self.insert(&fields[i]);
            assert(ts.take(i + 1).drop_last() =~= ts.take(i as int));
            assert(ts.take(i + 1).last() == fields@[i as int].token_spec());
            i = i + 1;
        }
        assert(ts.take(fields@.len() as int) =~= ts);
    }

    /// Adds the raw tokens in turn.
    pub fn extend_raw(&mut self, fields: Vec<String>)
        ensures
            final(self)@ == add_tokens(old(self)@, fields@.map_values(|t: String| t@)),
            final(self)@.no_duplicates(),
    {
        proof {
            use_type_invariant(&*self);
        }
        let ghost ts = fields@.map_values(|t: String| t@);
        let mut i: usize = 0;
        while i < fields.len()
            invariant
                i <= fields@.len(),
                ts == fields@.map_values(|t: String| t@),
                self@ == add_tokens(old(self)@, ts.take(i as int)),
                self@.no_duplicates(),
            decreases fields@.len() - i,
        {
            self.add(fields[i].as_str());
            assert(ts.take(i + 1).drop_last() =~= ts.take(i as int));
            assert(ts.take(i + 1).last() == fields@[i as int]@);
            i = i + 1;
        }
        assert(ts.take(fields@.len() as int) =~= ts);
    }

    /// Adds the tokens of `other` in turn.
    pub fn merge(&mut self, other: Self)
        ensures
            final(self)@ == add_tokens(old(self)@, other@),
            final(self)@.no_duplicates(),
    {
        self.extend_raw(other.inner);
    }

    /// The number of tokens.
    pub fn len(&self) -> (r: usize)
        ensures
            r == self@.len(),
    {
        self.inner.len()
    }

    /// Whether the set holds no token.
    pub fn is_empty(&self) -> (r: bool)
        ensures
            r == (self@.len() == 0),
    {
        self.inner.len() == 0
    }

    /// Whether the set holds the field.
    pub fn contains(&self, field: &F) -> (r: bool)
        ensures
            r == self@.contains(field.token_spec()),
    {
        self.holds(&field.token().to_owned())
    }

    /// Removes the field; tells whether the set held it.
    pub fn remove(&mut self, field: &F) -> (r: bool)
        ensures
            r == old(self)@.contains(field.token_spec()),
            !r ==> final(self)@ == old(self)@,
            r ==> exists|i: int|
                0 <= i < old(self)@.len() && old(self)@[i] == field.token_spec() && final(self)@
                    == old(self)@.remove(i),
            !final(self)@.contains(field.token_spec()),
            final(self)@.no_duplicates(),
    {
        proof {
            use_type_invariant(&*self);
        }
        let t = field.token().to_owned();
        let ghost start = self@;
        let mut i: usize = 0;
        while i < self.inner.len()
            invariant
                i <= self.inner@.len(),
                self@ == start,
                start == old(self)@,
                start.no_duplicates(),
                t@ == field.token_spec(),
                forall|j: int| 0 <= j < i ==> self@[j] != t@,
            decreases self.inner@.len() - i,
        {
            if self.inner[i] == t {
                let ghost before = self@;
                assert(before[i as int] == t@);
                let mut tokens: Vec<String> = Vec::new();
                core::mem::swap(&mut tokens, &mut self.inner);
                tokens.remove(i);
                assert(tokens@.map_values(|t: String| t@) =~= before.remove(i as int));
                proof {
                    assert(before.remove(i as int).no_duplicates()) by {
                        assert forall|a: int, b: int|
                            0 <= a < before.len() - 1 && 0 <= b < before.len() - 1 && a != b
                            implies #[trigger] before.remove(i as int)[a] != #[trigger] before.remove(
                            i as int,
                        )[b] by {
                            let a2 = if a < i { a } else { a + 1 };
                            let b2 = if b < i { b } else { b + 1 };
                            assert(before.remove(i as int)[a] == before[a2]);
                            assert(before.remove(i as int)[b] == before[b2]);
                        }
                    }
                }
                self.inner = tokens;
                assert(!self@.contains(t@)) by {
                    if self@.contains(t@) {
                        let k = choose|k: int| 0 <= k < self@.len() && self@[k] == t@;
                        if k < i {
                            assert(before[k] == t@);
                        } else {
                            assert(before[k + 1] == t@);
                        }
                    }
                }
                proof {
                    use_type_invariant(&*self);
                }
                return true;
            }
            i = i + 1;
        }
        false
    }

    /// Prepares room for `additional` more tokens; the tokens stay as they are.
    pub fn reserve(&mut self, additional: usize)
        ensures
            final(self)@ == old(self)@,
    {
        proof {
            use_type_invariant(&*self);
        }
        let mut tokens: Vec<String> = Vec::new();
        core::mem::swap(&mut tokens, &mut self.inner);
        tokens.reserve(additional);
        self.inner = tokens;
    }

    /// Releases unused storage; the tokens stay as they are.
    pub fn shrink_to_fit(&mut self)
        ensures
            final(self)@ == old(self)@,
    {
        proof {
            use_type_invariant(&*self);
        }
        let mut tokens: Vec<String> = Vec::new();
        core::mem::swap(&mut tokens, &mut self.inner);
        shrink_storage(&mut tokens);
        self.inner = tokens;
    }

    /// The tokens joined with commas, in the order in which they were added.
    pub fn join(self) -> (r: String)
        ensures
            r@ == comma_join(self@),
    {
        join_commas(&self.inner)
    }

    /// The set as the single query-string parameter `fields`.
    pub fn into_url_query(self) -> (r: UrlQueryParams)
        ensures
            r@ == seq![("fields"@, comma_join(self@))],
    {
        let joined = self.join();
        let mut pairs: Vec<(&'static str, String)> = Vec::new();
        pairs.push((Self::URL_QUERY_PARAM, joined));
        let r = UrlQueryParams(pairs);
        assert(r@ =~= seq![("fields"@, comma_join(self@))]);
        r
    }
}

impl<F: QueryField> Default for FieldSet<F> {
    fn default() -> (r: Self)
        ensures
            r@ == Seq::<Seq<char>>::empty(),
    {
        Self::new()
    }
}

impl<F: QueryField> From<F> for FieldSet<F> {
    fn from(field: F) -> (r: FieldSet<F>)
        ensures
            r@ == seq![field.token_spec()],
    {
        let mut set = FieldSet::with_capacity(1);
        set.insert(&field);
        set
    }
}

impl<F: QueryField> vstd::std_specs::convert::FromSpecImpl<F> for FieldSet<F> {
    open spec fn obeys_from_spec() -> bool {
        false
    }

    open spec fn from_spec(field: F) -> FieldSet<F> {
        arbitrary()
    }
}

impl<F: QueryField> From<Vec<F>> for FieldSet<F> {
    fn from(fields: Vec<F>) -> (r: FieldSet<F>)
        ensures
            r@ == add_tokens(Seq::empty(), field_tokens(fields@)),
    {
        FieldSet::from_fields(fields)
    }
}

impl<F: QueryField> vstd::std_specs::convert::FromSpecImpl<Vec<F>> for FieldSet<F> {
    open spec fn obeys_from_spec() -> bool {
        false
    }

    open spec fn from_spec(fields: Vec<F>) -> FieldSet<F> {
        arbitrary()
    }
}

impl<F: QueryField, const N: usize> From<[F; N]> for FieldSet<F> {
    fn from(fields: [F; N]) -> (r: FieldSet<F>)
        ensures
            r@ == add_tokens(Seq::empty(), field_tokens(fields@)),
    {
        let mut set = FieldSet::new();
        let ghost ts = field_tokens(fields@);
        let mut i: usize = 0;
        while i < N
            invariant
                i <= N,
                fields@.len() == N,
                ts == field_tokens(fields@),
                set@ == add_tokens(Seq::empty(), ts.take(i as int)),
            decreases N - i,
        {
            set.insert(&fields[i]);
            assert(ts.take(i + 1).drop_last() =~= ts.take(i as int));
            assert(ts.take(i + 1).last() == fields@[i as int].token_spec());
            i = i + 1;
        }
        assert(ts.take(N as int) =~= ts);
        set
    }
}

impl<F: QueryField, const N: usize> vstd::std_specs::convert::FromSpecImpl<[F; N]> for FieldSet<F> {
    open spec fn obeys_from_spec() -> bool {
        false
    }

    open spec fn from_spec(fields: [F; N]) -> FieldSet<F> {
        arbitrary()
    }
}

impl<F: QueryField> From<FieldSet<F>> for UrlQueryParams {
    fn from(set: FieldSet<F>) -> (r: UrlQueryParams)
        ensures
            r@ == seq![("fields"@, comma_join(set@))],
    {
        set.into_url_query()
    }
}

impl<F: QueryField> vstd::std_specs::convert::FromSpecImpl<FieldSet<F>> for UrlQueryParams {
    open spec fn obeys_from_spec() -> bool {
        false
    }

    open spec fn from_spec(set: FieldSet<F>) -> UrlQueryParams {
        arbitrary()
    }
}

/// Relies on `Vec::shrink_to_fit`, which changes the capacity and keeps the
/// elements.
#[verifier::external_body]
fn shrink_storage(v: &mut Vec<String>)
    ensures
        final(v)@ == old(v)@,
{
    v.shrink_to_fit()
}

} // verus!
