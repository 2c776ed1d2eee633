//! Query-string parameters of GET requests.

use vstd::prelude::*;

verus! {

/// Key and value pairs for the query string of a request, in order.
pub struct UrlQueryParams(pub Vec<(&'static str, String)>);

impl View for UrlQueryParams {
    type V = Seq<(Seq<char>, Seq<char>)>;

    open spec fn view(&self) -> Seq<(Seq<char>, Seq<char>)> {
        self.0@.map_values(|p: (&'static str, String)| (p.0@, p.1@))
    }
}

impl UrlQueryParams {
    /// No parameters.
    pub fn new() -> (r: Self)
        ensures
            r@ == Seq::<(Seq<char>, Seq<char>)>::empty(),
    {
        UrlQueryParams(Vec::new())
    }

    /// Appends the parameters of `other` after those of `self`.
    pub fn extend(&mut self, other: Self)
        ensures
            final(self)@ == old(self)@ + other@,
    {
        let ghost added = other@;
        let mut other = other;
        self.0.append(&mut other.0);
        assert(self@ =~= old(self)@ + added);
    }

    /// Whether there are no parameters.
    pub fn is_empty(&self) -> (r: bool)
        ensures
            r == (self@.len() == 0),
    {
        self.0.len() == 0
    }

    /// The number of parameters.
    pub fn len(&self) -> (r: usize)
        ensures
            r == self@.len(),
    {
        self.0.len()
    }

    /// The pairs, in order.
    pub fn into_pairs(self) -> (r: Vec<(&'static str, String)>)
        ensures
            r@ == self.0@,
    {
        self.0
    }
}

impl Default for UrlQueryParams {
    fn default() -> (r: Self)
        ensures
            r@ == Seq::<(Seq<char>, Seq<char>)>::empty(),
    {
        UrlQueryParams(Vec::new())
    }
}

} // verus!
