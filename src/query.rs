//! List queries: the builder that collects a query, and the JSON body that
//! carries it to the server.

use crate::field_set::{add_tokens, FieldSet};
use crate::filter::JsonQueryFilter;
use crate::model::{QueryField, SortQueryBy};
use crate::model::user::UserId;
use crate::wire::{comma_join, decimal, decimal_string, json_string, json_string_text};
use vstd::prelude::*;

verus! {

/// The largest page size that the server accepts.
pub const MAX_RESULTS: u8 = 100;

/// The page size that is sent when `n` is asked for.
pub open spec fn clamp_results(n: u8) -> u8 {
    if n <= MAX_RESULTS { n } else { MAX_RESULTS }
}

/// The page number that is sent when `p` is asked for: pages count from 1.
pub open spec fn floor_page(p: u16) -> u16 {
    if p == 0 { 1 } else { p }
}

/// What a query states, as plain values.
pub struct QueryView {
    pub compact_filters: bool,
    pub count: bool,
    pub fields: Option<Seq<char>>,
    pub filters: Seq<char>,
    pub normalized_filters: bool,
    pub page: Option<u16>,
    pub results: Option<u8>,
    pub reverse: bool,
    pub sort: Option<Seq<char>>,
    pub user: Option<Seq<char>>,
}

/// The JSON text of a boolean.
pub open spec fn bool_text(b: bool) -> Seq<char> {
    if b { "true"@ } else { "false"@ }
}

/// The `fields` member of the body, left out when no field is selected.
pub open spec fn fields_member(fields: Option<Seq<char>>) -> Seq<char> {
    match fields {
        Some(f) => if f.len() > 0 { ",\"fields\":"@ + json_string_text(f) } else { Seq::empty() },
        None => Seq::empty(),
    }
}

/// The `page` member of the body, left out when no page is set.
pub open spec fn page_member(page: Option<u16>) -> Seq<char> {
    match page {
        Some(p) => ",\"page\":"@ + decimal(p as nat),
        None => Seq::empty(),
    }
}

/// The `results` member of the body, left out when no page size is set.
pub open spec fn results_member(results: Option<u8>) -> Seq<char> {
    match results {
        Some(n) => ",\"results\":"@ + decimal(n as nat),
        None => Seq::empty(),
    }
}

/// A string member of the body, left out when unset.
pub open spec fn string_member(key: Seq<char>, value: Option<Seq<char>>) -> Seq<char> {
    match value {
        Some(v) => key + json_string_text(v),
        None => Seq::empty(),
    }
}

/// The JSON body of a list query. Members come in the order of their keys.
pub open spec fn query_json(q: QueryView) -> Seq<char> {
    "{\"compact_filters\":"@ + bool_text(q.compact_filters) + ",\"count\":"@ + bool_text(q.count)
        + fields_member(q.fields) + ",\"filters\":"@ + q.filters + ",\"normalized_filters\":"@
        + bool_text(q.normalized_filters) + page_member(q.page) + results_member(q.results)
        + ",\"reverse\":"@ + bool_text(q.reverse) + string_member(",\"sort\":"@, q.sort)
        + string_member(",\"user\":"@, q.user) + "}"@
}

/// A list query as it goes to the server.
pub struct JsonQuery {
    pub compact_filters: bool,
    pub count: bool,
    pub fields: Option<String>,
    pub filters: JsonQueryFilter,
    pub normalized_filters: bool,
    pub page: Option<u16>,
    pub results: Option<u8>,
    pub reverse: bool,
    pub sort: Option<String>,
    pub user: Option<UserId>,
}

impl View for JsonQuery {
    type V = QueryView;

    open spec fn view(&self) -> QueryView {
        QueryView {
            compact_filters: self.compact_filters,
            count: self.count,
            fields: match self.fields {
                Some(f) => Some(f@),
                None => None,
            },
            filters: self.filters@,
            normalized_filters: self.normalized_filters,
            page: self.page,
            results: self.results,
            reverse: self.reverse,
            sort: match self.sort {
                Some(s) => Some(s@),
                None => None,
            },
            user: match self.user {
                Some(u) => Some(u@),
                None => None,
            },
        }
    }
}

fn bool_str(b: bool) -> (r: &'static str)
    ensures
        r@ == bool_text(b),
{
    if b {
        "true"
    } else {
        "false"
    }
}

fn append_fields(s: &mut String, fields: &Option<String>)
    ensures
        final(s)@ == old(s)@ + fields_member(
            match fields {
                Some(f) => Some(f@),
                None => None,
            },
        ),
{
    let ghost start = s@;
    match fields {
        Some(f) => {
            if !f.as_str().is_empty() {
                s.append(",\"fields\":");
                s.append(json_string(f.as_str()).as_str());
            }
        },
        None => {},
    }
    assert(s@ =~= start + fields_member(
        match fields {
            Some(f) => Some(f@),
            None => None,
        },
    ));
}

fn append_number(s: &mut String, key: &str, n: Option<u64>)
    ensures
        final(s)@ == old(s)@ + match n {
            Some(v) => key@ + decimal(v as nat),
            None => Seq::empty(),
        },
{
    let ghost start = s@;
    match n {
        Some(v) => {
            s.append(key);
            s.append(decimal_string(v).as_str());
        },
        None => {},
    }
    assert(s@ =~= start + match n {
        Some(v) => key@ + decimal(v as nat),
        None => Seq::empty(),
    });
}

fn append_string(s: &mut String, key: &str, value: Option<&str>)
    ensures
        final(s)@ == old(s)@ + string_member(
            key@,
            match value {
                Some(v) => Some(v@),
                None => None,
            },
        ),
{
    let ghost start = s@;
    match value {
        Some(v) => {
            s.append(key);
            s.append(json_string(v).as_str());
        },
        None => {},
    }
    assert(s@ =~= start + string_member(
        key@,
        match value {
            Some(v) => Some(v@),
            None => None,
        },
    ));
}

impl JsonQuery {
    /// The JSON body of the query.
    pub fn to_json(&self) -> (r: String)
        ensures
            r@ == query_json(self@),
    {
        let ghost q = self@;
        let mut s = "{\"compact_filters\":".to_owned();
        s.append(bool_str(self.compact_filters));
        s.append(",\"count\":");
        s.append(bool_str(self.count));
        append_fields(&mut s, &self.fields);
        s.append(",\"filters\":");
        s.append(self.filters.as_str());
        s.append(",\"normalized_filters\":");
        s.append(bool_str(self.normalized_filters));
        let ghost before_page = s@;
        let page = match self.page {
            Some(p) => Some(p as u64),
            None => None,
        };
        append_number(&mut s, ",\"page\":", page);
        assert(s@ =~= before_page + page_member(q.page));
        let ghost before_results = s@;
        let results = match self.results {
            Some(n) => Some(n as u64),
            None => None,
        };
        append_number(&mut s, ",\"results\":", results);
        assert(s@ =~= before_results + results_member(q.results));
        s.append(",\"reverse\":");
        s.append(bool_str(self.reverse));
        let sort = match &self.sort {
            Some(t) => Some(t.as_str()),
            None => None,
        };
        append_string(&mut s, ",\"sort\":", sort);
        let user = match &self.user {
            Some(u) => Some(u.as_str()),
            None => None,
        };
        append_string(&mut s, ",\"user\":", user);
        s.append("}");
        s
    }
}

/// What a query builder holds, as plain values.
pub struct BuilderState<S, C> {
    pub compact_filters: bool,
    pub count: bool,
    pub fields: Option<Seq<Seq<char>>>,
    pub filters: Seq<char>,
    pub normalized_filters: bool,
    pub page: Option<u16>,
    pub results: Option<u8>,
    pub reverse: bool,
    pub sort: Option<S>,
    pub user: Option<Seq<char>>,
    pub target: C,
}

/// The tokens after merging `added` into the current selection.
pub open spec fn merged_fields(current: Option<Seq<Seq<char>>>, added: Seq<Seq<char>>) -> Seq<
    Seq<char>,
> {
    match current {
        Some(tokens) => add_tokens(tokens, added),
        None => add_tokens(Seq::empty(), added),
    }
}

/// What the query of a builder in state `st` states.
pub open spec fn state_query<S: SortQueryBy, C>(st: BuilderState<S, C>) -> QueryView {
    QueryView {
        compact_filters: st.compact_filters,
        count: st.count,
        fields: match st.fields {
            Some(tokens) => Some(comma_join(tokens)),
            None => None,
        },
        filters: st.filters,
        normalized_filters: st.normalized_filters,
        page: st.page,
        results: st.results,
        reverse: st.reverse,
        sort: match st.sort {
            Some(key) => Some(key.token_spec()),
            None => None,
        },
        user: st.user,
    }
}

/// The state after `filters(filter)`.
pub open spec fn with_filters<S, C>(st: BuilderState<S, C>, filter: Seq<char>) -> BuilderState<
    S,
    C,
> {
    BuilderState { filters: filter, ..st }
}

/// The state after `page(page)`.
pub open spec fn with_page<S, C>(st: BuilderState<S, C>, page: u16) -> BuilderState<S, C> {
    BuilderState { page: Some(floor_page(page)), ..st }
}

/// The state after `results(results)`.
pub open spec fn with_results<S, C>(st: BuilderState<S, C>, results: u8) -> BuilderState<S, C> {
    BuilderState { results: Some(clamp_results(results)), ..st }
}

/// Collects a list query for one resource. `F` is the resource's field
/// enum, `S` its sort keys, and `target` whatever the sender needs to deliver
/// the query; building a query performs no I/O.
pub struct JsonQueryBuilder<F: QueryField, S: SortQueryBy, C> {
    compact_filters: bool,
    count: bool,
    fields: Option<FieldSet<F>>,
    filters: JsonQueryFilter,
    normalized_filters: bool,
    page: Option<u16>,
    results: Option<u8>,
    reverse: bool,
    sort: Option<S>,
    user: Option<UserId>,
    target: C,
}

impl<F: QueryField, S: SortQueryBy, C> View for JsonQueryBuilder<F, S, C> {
    type V = BuilderState<S, C>;

    closed spec fn view(&self) -> BuilderState<S, C> {
        BuilderState {
            compact_filters: self.compact_filters,
            count: self.count,
            fields: match self.fields {
                Some(set) => Some(set@),
                None => None,
            },
            filters: self.filters@,
            normalized_filters: self.normalized_filters,
            page: self.page,
            results: self.results,
            reverse: self.reverse,
            sort: self.sort,
            user: match self.user {
                Some(u) => Some(u@),
                None => None,
            },
            target: self.target,
        }
    }
}

impl<F: QueryField, S: SortQueryBy, C> JsonQueryBuilder<F, S, C> {
    #[verifier::type_invariant]
    spec fn sendable(self) -> bool {
        &&& self.page matches Some(p) ==> p >= 1
        &&& self.results matches Some(n) ==> n <= MAX_RESULTS
    }

    /// A query with nothing set, no filter, and the given target.
    pub fn new(target: C) -> (r: Self)
        ensures
            r@ == (BuilderState::<S, C> {
                compact_filters: false,
                count: false,
                fields: None,
                filters: "null"@,
                normalized_filters: false,
                page: None,
                results: None,
                reverse: false,
                sort: None,
                user: None,
                target,
            }),
    {
        JsonQueryBuilder {
            compact_filters: false,
            count: false,
            fields: None,
            filters: JsonQueryFilter::null(),
            normalized_filters: false,
            page: None,
            results: None,
            reverse: false,
            sort: None,
            user: None,
            target,
        }
    }

    /// Asks the server to echo the filter in compact form.
    pub fn compact_filters(self) -> (r: Self)
        ensures
            r@ == (BuilderState { compact_filters: true, ..self@ }),
    {
        proof {
            use_type_invariant(&self);
        }
        JsonQueryBuilder { compact_filters: true, ..self }
    }

    /// Asks the server for the total number of matching records.
    pub fn count(self) -> (r: Self)
        ensures
            r@ == (BuilderState { count: true, ..self@ }),
    {
        proof {
            use_type_invariant(&self);
        }
        JsonQueryBuilder { count: true, ..self }
    }

    /// Asks the server to echo the filter in normalized form.
    pub fn normalized_filters(self) -> (r: Self)
        ensures
            r@ == (BuilderState { normalized_filters: true, ..self@ }),
    {
        proof {
            use_type_invariant(&self);
        }
        JsonQueryBuilder { normalized_filters: true, ..self }
    }

    /// Reverses the sort order.
    pub fn reverse(self) -> (r: Self)
        ensures
            r@ == (BuilderState { reverse: true, ..self@ }),
    {
        proof {
            use_type_invariant(&self);
        }
        JsonQueryBuilder { reverse: true, ..self }
    }

    /// Adds the fields to those already selected.
    pub fn fields(self, fields: FieldSet<F>) -> (r: Self)
        ensures
            r@ == (BuilderState { fields: Some(merged_fields(self@.fields, fields@)), ..self@ }),
            merged_fields(self@.fields, fields@).no_duplicates(),
    {
        proof {
            use_type_invariant(&self);
        }
        let merged = match self.fields {
            Some(mut set) => {
                set.merge(fields);
                set
            },
            None => {
                let mut set = FieldSet::new();
                set.merge(fields);
                set
            },
        };
        JsonQueryBuilder { fields: Some(merged), ..self }
    }

    /// Adds raw field tokens, such as dotted paths into nested records.
    pub fn raw_fields(self, fields: Vec<String>) -> (r: Self)
        ensures
            r@ == (BuilderState {
                fields: Some(
                    merged_fields(
                        self@.fields,
                        add_tokens(Seq::empty(), fields@.map_values(|t: String| t@)),
                    ),
                ),
                ..self@
            }),
    {
        let set = FieldSet::from_raw(fields);
        self.fields(set)
    }

    /// Replaces the filter; the last one set is the one sent.
    pub fn filters(self, filter: JsonQueryFilter) -> (r: Self)
        ensures
            r@ == with_filters(self@, filter@),
    {
        proof {
            use_type_invariant(&self);
        }
        JsonQueryBuilder { filters: filter, ..self }
    }

    /// Sets the page, counting from 1; page 0 is taken as page 1.
    pub fn page(self, page: u16) -> (r: Self)
        ensures
            r@ == with_page(self@, page),
    {
        proof {
            use_type_invariant(&self);
        }
        let p = if page == 0 { 1 } else { page };
        JsonQueryBuilder { page: Some(p), ..self }
    }

    /// Sets the page size, at most 100.
    pub fn results(self, results: u8) -> (r: Self)
        ensures
            r@ == with_results(self@, results),
    {
        proof {
            use_type_invariant(&self);
        }
        let n = if results <= MAX_RESULTS { results } else { MAX_RESULTS };
        JsonQueryBuilder { results: Some(n), ..self }
    }

    /// Sets the sort key.
    pub fn sort(self, sort: S) -> (r: Self)
        ensures
            r@ == (BuilderState { sort: Some(sort), ..self@ }),
    {
        proof {
            use_type_invariant(&self);
        }
        JsonQueryBuilder { sort: Some(sort), ..self }
    }

    /// Restricts the query to the lists of one user.
    pub fn user(self, user: UserId) -> (r: Self)
        ensures
            r@ == (BuilderState { user: Some(user@), ..self@ }),
    {
        proof {
            use_type_invariant(&self);
        }
        JsonQueryBuilder { user: Some(user), ..self }
    }

    /// The query as it goes to the server, and the target to send it to. The
    /// page is never 0 and the page size never above 100.
    pub fn into_parts(self) -> (r: (JsonQuery, C))
        ensures
            r.0@ == state_query(self@),
            r.1 == self@.target,
            r.0.page matches Some(p) ==> p >= 1,
            r.0.results matches Some(n) ==> n <= MAX_RESULTS,
    {
        proof {
            use_type_invariant(&self);
        }
        let fields = match self.fields {
            Some(set) => Some(set.join()),
            None => None,
        };
        let sort = match self.sort {
            Some(key) => Some(key.token().to_owned()),
            None => None,
        };
        let query = JsonQuery {
            compact_filters: self.compact_filters,
            count: self.count,
            fields,
            filters: self.filters,
            normalized_filters: self.normalized_filters,
            page: self.page,
            results: self.results,
            reverse: self.reverse,
            sort,
            user: self.user,
        };
        (query, self.target)
    }

    /// The JSON body of the query, and the target to send it to.
    pub fn into_body(self) -> (r: (String, C))
        ensures
            r.0@ == query_json(state_query(self@)),
            r.1 == self@.target,
    {
        let (query, target) = self.into_parts();
        (query.to_json(), target)
    }
}

/// Whatever page size is asked for, the body sent states the smaller of it
/// and 100 as its `results` member.
pub proof fn lemma_results_clamp<S: SortQueryBy, C>(st: BuilderState<S, C>, n: u8)
    ensures
        state_query(with_results(st, n)).results == Some(if n <= 100 { n } else { 100u8 }),
        results_member(state_query(with_results(st, n)).results) == ",\"results\":"@ + decimal(
            if n <= 100 { n as nat } else { 100 },
        ),
{
}

/// Whatever page is asked for, page 0 included, the body sent states the
/// larger of it and 1 as its `page` member.
pub proof fn lemma_page_floor<S: SortQueryBy, C>(st: BuilderState<S, C>, p: u16)
    ensures
        state_query(with_page(st, p)).page == Some(if p >= 1 { p } else { 1u16 }),
        page_member(state_query(with_page(st, p)).page) == ",\"page\":"@ + decimal(
            if p >= 1 { p as nat } else { 1 },
        ),
{
}

/// Setting filter `a` and then filter `b` sends exactly `b`: the later filter
/// replaces the earlier one, and the builder is as if `a` had never been set.
pub proof fn lemma_filters_replace<S: SortQueryBy, C>(
    st: BuilderState<S, C>,
    a: Seq<char>,
    b: Seq<char>,
)
    ensures
        state_query(with_filters(with_filters(st, a), b)).filters == b,
        with_filters(with_filters(st, a), b) == with_filters(st, b),
        query_json(state_query(with_filters(with_filters(st, a), b))) == query_json(
            state_query(with_filters(st, b)),
        ),
{
}

} // verus!
