use vstd::prelude::*;

verus! {

/// Millionths in one whole: a ratio of one is held as this many parts.
pub const PARTS_PER_WHOLE: u32 = 1_000_000;

/// A ratio in training and, where production data was logged, in production; each held in
/// millionths.
#[derive(Clone, Copy, Debug, PartialEq, Eq, Structural)]
pub struct TrainingProductionMetrics {
    pub training: u32,
    pub production: Option<u32>,
}

impl TrainingProductionMetrics {
    pub open spec fn well_formed(&self) -> bool {
        &&& self.training <= PARTS_PER_WHOLE
        &&& self.production matches Some(p) ==> p <= PARTS_PER_WHOLE
    }
}

/// Precision and recall of one class.
#[derive(Clone, Debug)]
pub struct ClassMetricsTableEntry {
    pub class_name: String,
    pub precision: TrainingProductionMetrics,
    pub recall: TrainingProductionMetrics,
}

/// Production metrics of a multiclass classifier over a date window.
pub struct MulticlassClassificationOverallProductionMetrics {
    pub accuracy: TrainingProductionMetrics,
    pub class_metrics_table: Vec<ClassMetricsTableEntry>,
    pub true_values_count: u64,
}

/// The rows of the per-class precision and recall table.
pub struct ClassMetricsTableProps {
    pub rows: Vec<ClassMetricsTableEntry>,
}

impl MulticlassClassificationOverallProductionMetrics {
    pub open spec fn well_formed(&self) -> bool {
        &&& self.accuracy.well_formed()
        &&& forall|i: int|
            0 <= i < self.class_metrics_table@.len() ==> {
                &&& (#[trigger] self.class_metrics_table@[i]).precision.well_formed()
                &&& self.class_metrics_table@[i].recall.well_formed()
            }
    }

    /// Hands the per-class rows, in order, to the precision and recall table.
    pub fn into_class_metrics_table(self) -> (r: ClassMetricsTableProps)
        ensures
            r.rows@ == self.class_metrics_table@,
    {
        ClassMetricsTableProps { rows: self.class_metrics_table }
    }
}

} // verus!
