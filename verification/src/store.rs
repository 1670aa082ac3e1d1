//! The store handle and the requests it issues.

use crate::bbox::BoundingBox;
use crate::error::Error;
use crate::query::{
    amenity_query, amenity_query_string, QueryRequest, QueryRequestView, ALL_AMENITIES, BARS,
    BUS_STOPS, CAFE, RESTAURANT, ROADS,
};
use vstd::prelude::*;

verus! {

/// One call of the engine's open operation, ready to be made.
#[derive(Debug, Clone, PartialEq, Eq)]
pub struct OpenRequest {
    pub path: String,
}

/// An opened, read-only store. Queries borrow it and never change it.
#[derive(Debug, PartialEq, Eq)]
pub struct GeoDesk {
    path: String,
}

impl OpenRequest {
    /// Closes the request with the engine's answer: the store is open, or
    /// the engine's message says why not.
    pub fn complete(self, outcome: Result<(), String>) -> (store: Result<GeoDesk, Error>)
        ensures
            match outcome {
                Ok(_) => store matches Ok(opened) && opened.path() == self.path@,
                Err(text) => store == Err::<GeoDesk, Error>(Error::OpenFailure(text)),
            },
    {
        match outcome {
            Ok(_) => Ok(GeoDesk { path: self.path }),
            Err(text) => Err(Error::OpenFailure(text)),
        }
    }
}

impl GeoDesk {
    /// The path that the store was opened from.
    pub closed spec fn path(&self) -> Seq<char> {
        self.path@
    }

    /// Begins opening a store. `path` is the text form of the store's path;
    /// a path that has none cannot reach the engine and is refused here.
    pub fn open(path: Option<&str>) -> (request: Result<OpenRequest, Error>)
        ensures
            match path {
                Some(text) => request matches Ok(r) && r.path@ == text@,
                None => request == Err::<OpenRequest, Error>(Error::InvalidPath),
            },
    {
        match path {
            Some(text) => Ok(OpenRequest { path: text.to_owned() }),
            None => Err(Error::InvalidPath),
        }
    }

    /// The request that `query` issues.
    pub open spec fn spec_query<C>(goql_query: Seq<char>, bbox: BoundingBox<C>) -> QueryRequestView<
        C,
    > {
        QueryRequestView { query: goql_query, bbox }
    }

    /// The request that `query_amenities` issues.
    pub open spec fn spec_query_amenities<C>(
        amenity_type: Seq<char>,
        bbox: BoundingBox<C>,
    ) -> QueryRequestView<C> {
        QueryRequestView { query: amenity_query(amenity_type), bbox }
    }

    /// Asks for the nodes and areas inside `bbox` whose `amenity` tag equals
    /// `amenity_type`.
    pub fn query_amenities<C>(&self, amenity_type: &str, bbox: BoundingBox<C>) -> (request:
        QueryRequest<C>)
        ensures
            request@ == Self::spec_query_amenities(amenity_type@, bbox),
    {
        QueryRequest { query: amenity_query_string(amenity_type), bbox }
    }

    /// Asks for the features inside `bbox` that match `goql_query`. The query
    /// string goes to the engine unread.
    pub fn query<C>(&self, goql_query: &str, bbox: BoundingBox<C>) -> (request: QueryRequest<C>)
        ensures
            request@ == Self::spec_query(goql_query@, bbox),
    {
        QueryRequest { query: goql_query.to_owned(), bbox }
    }

    /// Asks for every amenity inside `bbox`, of any type.
    pub fn query_all_amenities<C>(&self, bbox: BoundingBox<C>) -> (request: QueryRequest<C>)
        ensures
            request@ == Self::spec_query(ALL_AMENITIES@, bbox),
    {
        self.query(ALL_AMENITIES, bbox)
    }

    /// Asks for the restaurants inside `bbox`.
    pub fn query_restaurants<C>(&self, bbox: BoundingBox<C>) -> (request: QueryRequest<C>)
        ensures
            request@ == Self::spec_query_amenities(RESTAURANT@, bbox),
    {
        self.query_amenities(RESTAURANT, bbox)
    }

    /// Asks for the cafes inside `bbox`.
    pub fn query_cafes<C>(&self, bbox: BoundingBox<C>) -> (request: QueryRequest<C>)
        ensures
            request@ == Self::spec_query_amenities(CAFE@, bbox),
    {
        self.query_amenities(CAFE, bbox)
    }

    /// Asks for the bars and pubs inside `bbox`.
    pub fn query_bars<C>(&self, bbox: BoundingBox<C>) -> (request: QueryRequest<C>)
        ensures
            request@ == Self::spec_query(BARS@, bbox),
    {
        self.query(BARS, bbox)
    }

    /// Asks for the bus stops inside `bbox`.
    pub fn query_bus_stops<C>(&self, bbox: BoundingBox<C>) -> (request: QueryRequest<C>)
        ensures
            request@ == Self::spec_query(BUS_STOPS@, bbox),
    {
        self.query(BUS_STOPS, bbox)
    }

    /// Asks for the roads inside `bbox`.
    pub fn query_roads<C>(&self, bbox: BoundingBox<C>) -> (request: QueryRequest<C>)
        ensures
            request@ == Self::spec_query(ROADS@, bbox),
    {
        self.query(ROADS, bbox)
    }
}

/// Asking for an amenity type is asking with the query `na[amenity=<type>]`:
/// both hand the engine the same request, so whatever it answers to one it
/// answers to the other.
pub proof fn lemma_amenity_query_is_template<C>(amenity_type: Seq<char>, bbox: BoundingBox<C>)
    ensures
        GeoDesk::spec_query_amenities(amenity_type, bbox) == GeoDesk::spec_query(
            "na[amenity="@ + amenity_type + "]"@,
            bbox,
        ),
{
}

} // verus!
