use vstd::prelude::*;

verus! {

use crate::cost::ExecutionCost;
use crate::error::EstimatorError;
use crate::samples::{mean_of, window_update, Samples, SAMPLE_SIZE};

#[verifier::external_type_specification]
#[verifier::external_body]
pub struct ExJsonError(serde_json::Error);

/// The character of decimal digit `d`.
pub open spec fn digit_char(d: int) -> char {
    seq!['0', '1', '2', '3', '4', '5', '6', '7', '8', '9'][d]
}

/// Decimal digits of `n`, without leading zeros.
pub open spec fn decimal(n: nat) -> Seq<char>
    decreases n,
{
    if n < 10 {
        seq![digit_char(n as int)]
    } else {
        decimal(n / 10) + seq![digit_char((n % 10) as int)]
    }
}

/// The elements of `s` in decimal, separated by commas.
pub open spec fn json_items(s: Seq<u64>) -> Seq<char>
    decreases s.len(),
{
    if s.len() == 0 {
        Seq::empty()
    } else if s.len() == 1 {
        decimal(s[0] as nat)
    } else {
        json_items(s.drop_last()) + seq![','] + decimal(s.last() as nat)
    }
}

/// Compact JSON text of an array of integers: `[1,2,3]`.
pub open spec fn json_array(s: Seq<u64>) -> Seq<char> {
    seq!['['] + json_items(s) + seq![']']
}

/// The integers that `text` holds when it is read as a JSON array of
/// unsigned 64-bit integers, if it can be read so.
pub uninterp spec fn parsed_u64_array(text: Seq<char>) -> Option<Seq<u64>>;

/// Relies on serde_json::to_string: a sequence of integers serializes
/// without failure, in compact form, each integer in decimal, and the text
/// reads back through serde_json::from_str as the same integers.
#[verifier::external_body]
fn write_json_array(items: &Vec<u64>) -> (r: Result<String, serde_json::Error>)
    ensures
        r is Ok,
        r matches Ok(t) ==> t@ == json_array(items@),
        r matches Ok(t) ==> parsed_u64_array(t@) == Some(items@),
{
    serde_json::to_string(items)
}

/// Relies on serde_json::from_str: reads `text` as a JSON array of unsigned
/// 64-bit integers; the outcome depends on the text alone.
#[verifier::external_body]
fn read_json_array(text: &str) -> (r: Result<Vec<u64>, serde_json::Error>)
    ensures
        r is Ok <==> parsed_u64_array(text@) is Some,
        r matches Ok(v) ==> parsed_u64_array(text@) == Some(v@),
{
    serde_json::from_str(text)
}

/// The window that stored text describes: a JSON array of at most
/// `SAMPLE_SIZE` unsigned integers.
pub open spec fn decode_window(text: Seq<char>) -> Option<Seq<u64>> {
    match parsed_u64_array(text) {
        Some(s) => if s.len() <= SAMPLE_SIZE {
            Some(s)
        } else {
            None
        },
        None => None,
    }
}

/// The window held by a row that may be absent: an absent row holds the
/// empty window.
pub open spec fn stored_window(stored: Option<Seq<char>>) -> Option<Seq<u64>> {
    match stored {
        Some(t) => decode_window(t),
        None => Some(Seq::empty()),
    }
}

/// The text of a row that may be absent.
pub open spec fn stored_text(stored: Option<String>) -> Option<Seq<char>> {
    match stored {
        Some(t) => Some(t@),
        None => None,
    }
}

/// How an estimate is written to its integer column: values beyond the
/// column's range are stored as its largest value.
pub open spec fn sql_value(m: int) -> i64 {
    if m > i64::MAX {
        i64::MAX
    } else {
        m as i64
    }
}

/// The estimate a stored column value stands for: absent means never
/// observed, negative means the row is corrupt.
pub open spec fn estimate_of(stored: Option<i64>) -> Result<u64, EstimatorError> {
    match stored {
        None => Err(EstimatorError::NoEstimateAvailable),
        Some(x) => if x < 0 {
            Err(EstimatorError::DeserializationError)
        } else {
            Ok(x as u64)
        },
    }
}

/// The estimate assembled from the stored column values of the five
/// dimensions: each value fills its own field, and the first value (in the
/// order runtime, read count, read length, write count, write length) that
/// gives no estimate decides the error.
pub open spec fn estimate_from(
    runtime: Option<i64>,
    read_count: Option<i64>,
    read_length: Option<i64>,
    write_count: Option<i64>,
    write_length: Option<i64>,
) -> Result<ExecutionCost, EstimatorError> {
    match estimate_of(runtime) {
        Err(e) => Err(e),
        Ok(rt) => match estimate_of(read_count) {
            Err(e) => Err(e),
            Ok(rc) => match estimate_of(read_length) {
                Err(e) => Err(e),
                Ok(rl) => match estimate_of(write_count) {
                    Err(e) => Err(e),
                    Ok(wc) => match estimate_of(write_length) {
                        Err(e) => Err(e),
                        Ok(wl) => Ok(
                            ExecutionCost {
                                runtime: rt,
                                read_count: rc,
                                read_length: rl,
                                write_count: wc,
                                write_length: wl,
                            },
                        ),
                    },
                },
            },
        },
    }
}

impl Samples {
    /// The window as stored: compact JSON text, which reads back as the
    /// same window.
    pub fn to_json(&self) -> (r: String)
        requires
            self.wf(),
        ensures
            r@ == json_array(self@),
            decode_window(r@) == Some(self@),
    {
        write_json_array(self.items()).unwrap()
    }

    /// Reads a window back from stored text. Text that is not a JSON array
    /// of at most `SAMPLE_SIZE` unsigned integers is refused as corrupt.
    pub fn from_json(text: &str) -> (r: Result<Samples, EstimatorError>)
        ensures
            decode_window(text@) is Some <==> r is Ok,
            r matches Ok(w) ==> w.wf() && Some(w@) == decode_window(text@),
            r matches Err(e) ==> e is DeserializationError,
    {
        match read_json_array(text) {
            Ok(items) => match Samples::from_items(items) {
                Some(w) => Ok(w),
                None => Err(EstimatorError::DeserializationError),
            },
            Err(_) => Err(EstimatorError::DeserializationError),
        }
    }
}

/// The integer column value of an estimate.
pub fn to_sql_value(m: u64) -> (r: i64)
    ensures
        r == sql_value(m as int),
{
    if m > i64::MAX as u64 {
        i64::MAX
    } else {
        m as i64
    }
}

/// The row that replaces `stored` once `sample` has been observed: the
/// updated window's mean and its stored text. Corrupt stored text is an
/// error, and an absent row counts as the empty window.
pub fn updated_row(stored: Option<String>, sample: u64) -> (r: Result<(i64, String), EstimatorError>)
    ensures
        match stored_window(stored_text(stored)) {
            Some(w) => (r matches Ok(row) && row.0 == sql_value(mean_of(window_update(w, sample)))
                && row.1@ == json_array(window_update(w, sample))),
            None => (r matches Err(e) && e is DeserializationError),
        },
{
    let mut window = match stored {
        Some(text) => match Samples::from_json(text.as_str()) {
            Ok(w) => w,
            Err(e) => return Err(e),
        },
        None => Samples::new(),
    };
    window.update_with(sample);
    let value = to_sql_value(window.mean());
    Ok((value, window.to_json()))
}

/// The estimate read from a stored column value.
pub fn stored_estimate(stored: Option<i64>) -> (r: Result<u64, EstimatorError>)
    ensures
        r == estimate_of(stored),
{
    match stored {
        None => Err(EstimatorError::NoEstimateAvailable),
        Some(x) => if x < 0 {
            Err(EstimatorError::DeserializationError)
        } else {
            Ok(x as u64)
        },
    }
}

/// The estimated cost of a class from the stored column values of its five
/// dimensions (`None` where a dimension's row is absent). It succeeds
/// exactly when every value gives an estimate, and then each dimension's
/// estimate fills its own field; otherwise the first dimension that gives
/// none decides the error, so no partial estimate is ever returned.
pub fn estimate_from_stored(
    runtime: Option<i64>,
    read_count: Option<i64>,
    read_length: Option<i64>,
    write_count: Option<i64>,
    write_length: Option<i64>,
) -> (r: Result<ExecutionCost, EstimatorError>)
    ensures
        r == estimate_from(runtime, read_count, read_length, write_count, write_length),
        r is Ok <==> (estimate_of(runtime) is Ok && estimate_of(read_count) is Ok && estimate_of(
            read_length,
        ) is Ok && estimate_of(write_count) is Ok && estimate_of(write_length) is Ok),
        r matches Ok(c) ==> c.runtime == estimate_of(runtime)->Ok_0 && c.read_count == estimate_of(
            read_count,
        )->Ok_0 && c.read_length == estimate_of(read_length)->Ok_0 && c.write_count
            == estimate_of(write_count)->Ok_0 && c.write_length == estimate_of(
            write_length,
        )->Ok_0,
        runtime is None && read_count is None && read_length is None && write_count is None
            && write_length is None ==> (r matches Err(e) && e is NoEstimateAvailable),
{
    let runtime = match stored_estimate(runtime) {
        Ok(v) => v,
        Err(e) => return Err(e),
    };
    let read_count = match stored_estimate(read_count) {
        Ok(v) => v,
        Err(e) => return Err(e),
    };
    let read_length = match stored_estimate(read_length) {
        Ok(v) => v,
        Err(e) => return Err(e),
    };
    let write_count = match stored_estimate(write_count) {
        Ok(v) => v,
        Err(e) => return Err(e),
    };
    let write_length = match stored_estimate(write_length) {
        Ok(v) => v,
        Err(e) => return Err(e),
    };
    Ok(ExecutionCost { runtime, read_count, read_length, write_count, write_length })
}

} // verus!
