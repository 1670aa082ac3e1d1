//! Query-language strings and the requests that carry them to the engine.
//!
//! The façade never parses a query. It composes a few fixed templates and
//! passes every other string through untouched.

use crate::bbox::BoundingBox;
use crate::error::Error;
use crate::result::QueryResult;
use vstd::prelude::*;

verus! {

/// Nodes and areas with any `amenity` tag.
pub const ALL_AMENITIES: &'static str = "na[amenity]";

/// Nodes and areas that are bars or pubs.
pub const BARS: &'static str = "na[amenity=bar,pub]";

/// Nodes and areas that are bus stops.
pub const BUS_STOPS: &'static str = "na[highway=bus_stop]";

/// Ways with any `highway` tag.
pub const ROADS: &'static str = "w[highway]";

/// The amenity value of restaurants.
pub const RESTAURANT: &'static str = "restaurant";

/// The amenity value of cafes.
pub const CAFE: &'static str = "cafe";

/// The query for nodes and areas whose `amenity` tag equals `amenity_type`.
pub open spec fn amenity_query(amenity_type: Seq<char>) -> Seq<char> {
    "na[amenity="@ + amenity_type + "]"@
}

/// Composes the query for one amenity value.
pub fn amenity_query_string(amenity_type: &str) -> (query: String)
    ensures
        query@ == amenity_query(amenity_type@),
{
    let mut query = "na[amenity=".to_owned();
    query.append(amenity_type);
    query.append("]");
    query
}

/// One call of the engine's query operation, ready to be made: the query
/// string as the engine will read it, and the box that bounds the search.
#[derive(Debug, Clone, PartialEq)]
pub struct QueryRequest<C> {
    pub query: String,
    pub bbox: BoundingBox<C>,
}

/// What a `QueryRequest` holds.
pub struct QueryRequestView<C> {
    pub query: Seq<char>,
    pub bbox: BoundingBox<C>,
}

impl<C> View for QueryRequest<C> {
    type V = QueryRequestView<C>;

    open spec fn view(&self) -> QueryRequestView<C> {
        QueryRequestView { query: self.query@, bbox: self.bbox }
    }
}

impl<C> QueryRequest<C> {
    /// Closes the request with the engine's answer: the number of matches, or
    /// the engine's message if it rejected the query.
    pub fn complete(self, outcome: Result<usize, String>) -> (result: Result<QueryResult, Error>)
        ensures
            match outcome {
                Ok(count) => result matches Ok(matches) && matches.count() == count,
                Err(text) => result == Err::<QueryResult, Error>(Error::QueryFailure(text)),
            },
    {
        match outcome {
            Ok(count) => Ok(QueryResult::new(count)),
            Err(text) => Err(Error::QueryFailure(text)),
        }
    }
}

} // verus!
