//! The retrieve stage: indicator metadata and time-series rows, already
//! fetched from the store by the application, validated and counted here.
//! Point values are held in centi-units (hundredths), the precision the
//! report renders.

use crate::dates::Date;
use crate::errors::AppError;
use vstd::prelude::*;

verus! {

/// One observation of an indicator.
#[derive(Clone, Debug)]
pub struct DataPoint {
    pub observation_date: Date,
    /// The observed value in centi-units: 325 stands for 3.25.
    pub value_centi: i64,
}

/// An indicator's metadata with its ordered observations.
#[derive(Clone, Debug)]
pub struct IndicatorData {
    pub code: String,
    pub name: String,
    pub unit: String,
    pub frequency: String,
    pub values: Vec<DataPoint>,
}

/// An indicator's catalogue record.
#[derive(Clone, Debug)]
pub struct Indicator {
    pub id: i32,
    pub code: String,
    pub name: String,
    pub frequency: String,
    pub unit: String,
    pub description: Option<String>,
}

/// What the retrieve stage hands on: the grouped rows and their total count.
#[derive(Clone, Debug)]
pub struct RetrieveResult {
    pub indicators: Vec<IndicatorData>,
    pub total_data_points: usize,
}

/// Total number of data points across a group of indicators.
pub open spec fn total_points(s: Seq<IndicatorData>) -> int
    decreases s.len(),
{
    if s.len() == 0 {
        0
    } else {
        total_points(s.drop_last()) + s.last().values@.len()
    }
}

proof fn lemma_total_points_push(s: Seq<IndicatorData>, i: int)
    requires
        0 <= i < s.len(),
    ensures
        total_points(s.take(i + 1)) == total_points(s.take(i)) + s[i].values@.len(),
{
    assert(s.take(i + 1).drop_last() =~= s.take(i));
    assert(s.take(i + 1).last() == s[i]);
}

/// The retrieve stage: fails with the pipeline's terminal no-data condition
/// when the result set is empty, otherwise passes the rows on with their
/// total point count.
pub fn retrieve(indicators: Vec<IndicatorData>) -> (r: Result<RetrieveResult, AppError>)
    requires
        total_points(indicators@) <= usize::MAX,
    ensures
        indicators@.len() == 0 ==> (r matches Err(e) && e matches AppError::Pipeline(m)
            && m@ == "No data found for requested indicators"@),
        indicators@.len() > 0 ==> (r matches Ok(rr) && rr.indicators@ == indicators@
            && rr.total_data_points == total_points(indicators@)),
{
    let n = indicators.len();
    let mut total: usize = 0;
    let mut i: usize = 0;
    proof {
        assert(indicators@.take(0) =~= Seq::<IndicatorData>::empty());
    }
    while i < n
        invariant
            0 <= i <= n,
            n == indicators@.len(),
            total == total_points(indicators@.take(i as int)),
            total_points(indicators@) <= usize::MAX,
        decreases n - i,
    {
        proof {
            lemma_total_points_push(indicators@, i as int);
            lemma_total_points_prefix(indicators@, i as int + 1);
        }
        total = total + indicators[i].values.len();
        i = i + 1;
    }
    proof {
        assert(indicators@.take(n as int) =~= indicators@);
    }
    if n == 0 {
        return Err(AppError::Pipeline("No data found for requested indicators".to_owned()));
    }
    Ok(RetrieveResult { indicators, total_data_points: total })
}

/// A prefix never holds more points than the whole.
proof fn lemma_total_points_prefix(s: Seq<IndicatorData>, i: int)
    requires
        0 <= i <= s.len(),
    ensures
        total_points(s.take(i)) <= total_points(s),
    decreases s.len() - i,
{
    if i < s.len() {
        lemma_total_points_push(s, i);
        lemma_total_points_prefix(s, i + 1);
        assert(s.take(s.len() as int) =~= s);
    } else {
        assert(s.take(i) =~= s);
    }
}

} // verus!
