//! The outbound query payload: sort tokens, page sizes, and the request body.

use vstd::prelude::*;

use crate::text::{dec_chars, push_dec};

verus! {

/// A ranking criterion, each mapped to a fixed upstream sort token.
#[derive(Clone, Copy, Debug, PartialEq, Eq, Structural)]
pub enum Sort {
    Score,
    Popularity,
    Favorites,
    Episodes,
}

/// A named page size; the numeric value is what is transmitted.
#[derive(Clone, Copy, Debug, PartialEq, Eq, Structural)]
pub enum PageSize {
    Small,
    Medium,
    Large,
}

/// The upstream token of a sort criterion.
pub open spec fn sort_token_chars(s: Sort) -> Seq<char> {
    match s {
        Sort::Score => "SCORE_DESC"@,
        Sort::Popularity => "POPULARITY_DESC"@,
        Sort::Favorites => "FAVOURITES_DESC"@,
        Sort::Episodes => "EPISODES_DESC"@,
    }
}

impl Sort {
    /// The upstream token of this sort criterion.
    pub fn token(&self) -> (r: &'static str)
        ensures
            r@ == sort_token_chars(*self),
    {
        match self {
            Sort::Score => "SCORE_DESC",
            Sort::Popularity => "POPULARITY_DESC",
            Sort::Favorites => "FAVOURITES_DESC",
            Sort::Episodes => "EPISODES_DESC",
        }
    }
}

impl PageSize {
    /// The number of records a page size stands for.
    pub open spec fn spec_value(self) -> u32 {
        match self {
            PageSize::Small => 10,
            PageSize::Medium => 25,
            PageSize::Large => 50,
        }
    }

    /// The number of records this page size stands for.
    pub fn value(&self) -> (r: u32)
        ensures
            r == self.spec_value(),
    {
        match self {
            PageSize::Small => 10,
            PageSize::Medium => 25,
            PageSize::Large => 50,
        }
    }
}

/// The fixed query document sent with every request.
pub open spec fn query_chars() -> Seq<char> {
    "query($sort: [MediaSort], $page: Int, $perPage: Int) { Page(page: $page, perPage: $perPage) { media(sort: $sort, type: ANIME) { id popularity favourites title { romaji english } startDate { year month day } status averageScore season seasonYear genres } } }"@
}

/// The fixed query document sent with every request.
pub fn query_document() -> (r: &'static str)
    ensures
        r@ == query_chars(),
{
    "query($sort: [MediaSort], $page: Int, $perPage: Int) { Page(page: $page, perPage: $perPage) { media(sort: $sort, type: ANIME) { id popularity favourites title { romaji english } startDate { year month day } status averageScore season seasonYear genres } } }"
}

/// The request body for one page: the query document and a variables object
/// holding the page index, the numeric page size, and the sort token.
pub open spec fn request_body_chars(sort: Sort, page: u32, page_size: PageSize) -> Seq<char> {
    "{\"query\":\""@ + query_chars() + "\",\"variables\":{\"page\":"@ + dec_chars(page as nat)
        + ",\"perPage\":"@ + dec_chars(page_size.spec_value() as nat) + ",\"sort\":[\""@
        + sort_token_chars(sort) + "\"]}}"@
}

/// A request for one page of media records under one sort criterion.
#[derive(Clone, Copy, Debug)]
pub struct MediaRequest {
    pub sort: Sort,
    pub page: u32,
    pub page_size: PageSize,
}

impl MediaRequest {
    pub fn new(sort: Sort, page: u32, page_size: PageSize) -> (r: Self)
        ensures
            r.sort == sort,
            r.page == page,
            r.page_size == page_size,
    {
        Self { sort, page, page_size }
    }

    /// Assembles the request body to be posted to the catalog endpoint.
    pub fn body(&self) -> (r: String)
        ensures
            r@ == request_body_chars(self.sort, self.page, self.page_size),
    {
        let mut s = String::from_str("{\"query\":\"");
        s.append(query_document());
        s.append("\",\"variables\":{\"page\":");
        push_dec(&mut s, self.page);
        s.append(",\"perPage\":");
        push_dec(&mut s, self.page_size.value());
        s.append(",\"sort\":[\"");
        s.append(self.sort.token());
        s.append("\"]}}");
        proof {
            assert(s@ =~= request_body_chars(self.sort, self.page, self.page_size));
        }
        s
    }
}

} // verus!
