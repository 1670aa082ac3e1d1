//! Results of a query: counted when the query ran, materialized on demand.

use crate::error::Error;
use crate::feature::{Feature, FeatureData, FeatureDataView, FeatureView};
use vstd::prelude::*;

verus! {

/// The matches of one query. The engine counted them when it ran the query;
/// the records themselves are copied out only when asked for.
#[derive(Debug, PartialEq, Eq)]
pub struct QueryResult {
    count: usize,
}

/// What each record of a list holds, in order.
pub open spec fn record_views<C>(records: Seq<FeatureData<C>>) -> Seq<FeatureDataView<C>> {
    Seq::new(records.len(), |i: int| records[i]@)
}

/// What each feature of a list holds, in order.
pub open spec fn feature_views<C>(features: Seq<Feature<C>>) -> Seq<FeatureView<C>> {
    Seq::new(features.len(), |i: int| features[i]@)
}

/// The features that a list of engine records becomes: one for each record,
/// in the same order.
pub open spec fn materialized<C>(records: Seq<FeatureDataView<C>>) -> Seq<FeatureView<C>> {
    Seq::new(records.len(), |i: int| records[i].feature())
}

impl QueryResult {
    /// What `count` returns.
    pub closed spec fn spec_count(&self) -> usize {
        self.count
    }

    pub(crate) fn new(count: usize) -> (result: Self)
        ensures
            result.spec_count() == count,
    {
        QueryResult { count }
    }

    /// The number of matches, as the engine counted them at query time.
    #[verifier::when_used_as_spec(spec_count)]
    pub fn count(&self) -> (count: usize)
        ensures
            count == self.spec_count(),
    {
        self.count
    }

    /// Whether the query matched nothing.
    pub fn is_empty(&self) -> (empty: bool)
        ensures
            empty == (self.count() == 0),
    {
        self.count() == 0
    }

    /// Turns the engine's copy of the matches into features. Every record
    /// becomes one feature, in the engine's order; where the engine failed to
    /// copy, its message comes back as a materialization failure.
    pub fn to_vec<C>(&self, outcome: Result<Vec<FeatureData<C>>, String>) -> (result: Result<
        Vec<Feature<C>>,
        Error,
    >)
        ensures
            match outcome {
                Ok(records) => result matches Ok(features) && features.len() == records.len()
                    && feature_views(features@) == materialized(record_views(records@)),
                Err(text) => result == Err::<Vec<Feature<C>>, Error>(
                    Error::MaterializeFailure(text),
                ),
            },
    {
        match outcome {
            Ok(records) => {
                let ghost all = records@;
                let mut features: Vec<Feature<C>> = Vec::new();
                for record in it: records
                    invariant
                        it.seq() == all,
                        features.len() == it.index(),
                        forall|j: int|
                            0 <= j < features.len() ==> (#[trigger] features[j])@
                                == all[j]@.feature(),
                {
                    features.push(Feature::from(record));
                }
                assert(feature_views(features@) =~= materialized(record_views(all)));
                Ok(features)
            },
            Err(text) => Err(Error::MaterializeFailure(text)),
        }
    }
}

/// Materializing neither adds nor drops a match: where the engine hands out
/// as many records as it counted when the query ran, there are as many
/// features as `count` says.
pub proof fn lemma_count_matches_materialized<C>(
    result: QueryResult,
    records: Seq<FeatureDataView<C>>,
)
    requires
        records.len() == result.count(),
    ensures
        materialized(records).len() == result.count(),
{
}

/// The members of a materialized result do not depend on the order in which
/// the engine hands the records out: two answers with the same records give
/// the same features, and as many of them as there are records.
pub proof fn lemma_same_records_same_features<C>(
    first: Seq<FeatureDataView<C>>,
    second: Seq<FeatureDataView<C>>,
)
    requires
        first.to_set() == second.to_set(),
    ensures
        materialized(first).to_set() == materialized(second).to_set(),
        first.len() == second.len() ==> materialized(first).len() == materialized(second).len(),
{
    assert forall|feature: FeatureView<C>|
        materialized(first).to_set().contains(feature) <==> materialized(
            second,
        ).to_set().contains(feature) by {
        lemma_member_has_source(first, feature);
        lemma_member_has_source(second, feature);
        if materialized(first).contains(feature) {
            let record = choose|record: FeatureDataView<C>|
                first.contains(record) && record.feature() == feature;
            assert(first.to_set().contains(record));
            assert(second.contains(record));
        }
        if materialized(second).contains(feature) {
            let record = choose|record: FeatureDataView<C>|
                second.contains(record) && record.feature() == feature;
            assert(second.to_set().contains(record));
            assert(first.contains(record));
        }
    }
    assert(materialized(first).to_set() =~= materialized(second).to_set());
}

/// A feature is among the materialized ones exactly when some record turns
/// into it.
proof fn lemma_member_has_source<C>(records: Seq<FeatureDataView<C>>, feature: FeatureView<C>)
    ensures
        materialized(records).contains(feature) <==> exists|record: FeatureDataView<C>|
            records.contains(record) && #[trigger] record.feature() == feature,
{
    if materialized(records).contains(feature) {
        let i = choose|i: int|
            0 <= i < materialized(records).len() && materialized(records)[i] == feature;
        assert(records.contains(records[i]));
        assert(records[i].feature() == feature);
    }
    if exists|record: FeatureDataView<C>|
        records.contains(record) && #[trigger] record.feature() == feature {
        let record = choose|record: FeatureDataView<C>|
            records.contains(record) && #[trigger] record.feature() == feature;
        let i = choose|i: int| 0 <= i < records.len() && records[i] == record;
        assert(materialized(records)[i] == feature);
    }
}

} // verus!
