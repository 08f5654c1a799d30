use vstd::prelude::*;

verus! {

use crate::codec::{estimate_from, estimate_from_stored, updated_row};
use crate::cost::{all_fields, field_value, CostField, ExecutionCost};
use crate::error::EstimatorError;
use crate::payload::{descriptor_of, get_estimate_key, key_of, TransactionPayload};
use crate::sqlite::{
    begin_immediate,
    commit,
    execute_batch,
    execute_row,
    is_cannot_open,
    open_or_create,
    open_read_write,
    query_integer,
    query_text,
};

const CREATE_TABLE: &'static str = "
CREATE TABLE pessimistic_estimator (
    estimate_key TEXT PRIMARY KEY,
    current_value NUMBER NOT NULL,
    samples TEXT NOT NULL
)";

const SELECT_SAMPLES: &'static str = "SELECT samples FROM pessimistic_estimator WHERE estimate_key = ?";

const SELECT_ESTIMATE: &'static str =
    "SELECT current_value FROM pessimistic_estimator WHERE estimate_key = ?";

const UPSERT_ROW: &'static str = "INSERT OR REPLACE INTO pessimistic_estimator
                     (estimate_key, current_value, samples) VALUES (?, ?, ?)";

/// Estimates the cost of an operation pessimistically.
///
/// For each pair of an operation class (see `get_estimate_key`) and a
/// dimension of `ExecutionCost`, the estimator keeps the highest
/// `SAMPLE_SIZE` amounts observed, and estimates their mean. The windows
/// live in an SQLite database, one row per key.
pub struct PessimisticEstimator {
    db: rusqlite::Connection,
    /// Whether the caller asked for estimate-quality diagnostics; the
    /// estimates never depend on it.
    #[allow(dead_code)]
    log_error: bool,
}

impl PessimisticEstimator {
    /// Whether the caller asked for estimate-quality diagnostics.
    pub closed spec fn log_error(&self) -> bool {
        self.log_error
    }

    /// Opens the store at `path`, creating it with its table when the file
    /// cannot be opened. Any failure is `StorageUnavailable`.
    pub fn open(path: &str, log_error: bool) -> (r: Result<PessimisticEstimator, EstimatorError>)
        ensures
            r matches Ok(e) ==> e.log_error() == log_error,
            r matches Err(e) ==> e is StorageUnavailable,
    {
        match open_read_write(path) {
            Ok(db) => Ok(PessimisticEstimator { db, log_error }),
            Err(e) => {
                if !is_cannot_open(&e) {
                    return Err(EstimatorError::StorageUnavailable(e));
                }
                match PessimisticEstimator::create(path) {
                    Ok(db) => Ok(PessimisticEstimator { db, log_error }),
                    Err(e) => Err(EstimatorError::StorageUnavailable(e)),
                }
            },
        }
    }

    /// Creates the database at `path` and its table, in one transaction.
    fn create(path: &str) -> (r: Result<rusqlite::Connection, rusqlite::Error>) {
        let mut db = match open_or_create(path) {
            Ok(db) => db,
            Err(e) => return Err(e),
        };
        let outcome = match begin_immediate(&mut db) {
            Ok(tx) => match PessimisticEstimator::instantiate_db(&tx) {
                Ok(()) => commit(tx),
                Err(e) => Err(e),
            },
            Err(e) => Err(e),
        };
        match outcome {
            Ok(()) => Ok(db),
            Err(e) => Err(e),
        }
    }

    fn instantiate_db(tx: &rusqlite::Transaction<'_>) -> (r: Result<(), rusqlite::Error>) {
        execute_batch(tx, CREATE_TABLE)
    }

    /// Records `actual_cost` as an observation of `tx`'s class: for every
    /// dimension in turn, the stored window is read, offered the observed
    /// amount, and written back with its new mean. All of it happens in one
    /// transaction, which commits only once every dimension is written; on
    /// any failure it is rolled back and nothing is changed.
    pub fn notify_event(&mut self, tx: &TransactionPayload, actual_cost: &ExecutionCost) -> (r:
        Result<(), EstimatorError>)
        ensures
            final(self).log_error() == old(self).log_error(),
            r matches Err(e) ==> (e is StorageError || e is DeserializationError),
    {
        let sql_tx = match begin_immediate(&mut self.db) {
            Ok(t) => t,
            Err(e) => return Err(EstimatorError::StorageError(e)),
        };
        let fields = CostField::all();
        // The (key, amount) pairs written so far, one per dimension in order.
        let ghost mut written: Seq<(Seq<char>, u64)> = Seq::empty();
        let mut i: usize = 0;
        while i < fields.len()
            invariant
                self.log_error == old(self).log_error,
                fields@ == all_fields(),
                i <= fields.len(),
                written.len() == i,
                forall|j: int|
                    0 <= j < i ==> #[trigger] written[j] == (
                        key_of(descriptor_of(*tx), all_fields()[j]),
                        field_value(all_fields()[j], *actual_cost),
                    ),
            decreases fields.len() - i,
        {
            let field = fields[i];
            let key = get_estimate_key(tx, &field);
            let amount = field.select_key(actual_cost);
            let stored = match query_text(&sql_tx, SELECT_SAMPLES, key.as_str()) {
                Ok(s) => s,
                Err(e) => return Err(EstimatorError::StorageError(e)),
            };
            let row = match updated_row(stored, amount) {
                Ok(row) => row,
                Err(e) => return Err(e),
            };
            match execute_row(&sql_tx, UPSERT_ROW, key.as_str(), row.0, row.1.as_str()) {
                Ok(_) => {},
                Err(e) => return Err(EstimatorError::StorageError(e)),
            }
            proof {
                written = written.push((key@, amount));
            }
            i = i + 1;
        }
        assert(written.len() == all_fields().len());
        match commit(sql_tx) {
            Ok(()) => Ok(()),
            Err(e) => Err(EstimatorError::StorageError(e)),
        }
    }

    /// The stored column value of one dimension of `tx`'s class, `None`
    /// when that row is absent.
    fn stored_value(&self, tx: &TransactionPayload, field: CostField) -> (r: Result<
        Option<i64>,
        EstimatorError,
    >)
        ensures
            r matches Err(e) ==> e is StorageError,
    {
        let key = get_estimate_key(tx, &field);
        match query_integer(&self.db, SELECT_ESTIMATE, key.as_str()) {
            Ok(stored) => Ok(stored),
            Err(e) => Err(EstimatorError::StorageError(e)),
        }
    }

    /// The estimated cost of `tx`: the stored mean of every dimension of its
    /// class, assembled by `estimate_from_stored`. Fails with
    /// `NoEstimateAvailable` when a dimension has never been observed; a
    /// partial estimate is never returned.
    pub fn estimate_cost(&self, tx: &TransactionPayload) -> (r: Result<
        ExecutionCost,
        EstimatorError,
    >)
        ensures
            (r matches Err(e) && e is StorageError) || exists|
                rt: Option<i64>,
                rc: Option<i64>,
                rl: Option<i64>,
                wc: Option<i64>,
                wl: Option<i64>,
            |
                r == estimate_from(rt, rc, rl, wc, wl),
    {
        let runtime = match self.stored_value(tx, CostField::RuntimeCost) {
            Ok(v) => v,
            Err(e) => return Err(e),
        };
        let read_count = match self.stored_value(tx, CostField::ReadCount) {
            Ok(v) => v,
            Err(e) => return Err(e),
        };
        let read_length = match self.stored_value(tx, CostField::ReadLength) {
            Ok(v) => v,
            Err(e) => return Err(e),
        };
        let write_count = match self.stored_value(tx, CostField::WriteCount) {
            Ok(v) => v,
            Err(e) => return Err(e),
        };
        let write_length = match self.stored_value(tx, CostField::WriteLength) {
            Ok(v) => v,
            Err(e) => return Err(e),
        };
        estimate_from_stored(runtime, read_count, read_length, write_count, write_length)
    }
}

} // verus!
