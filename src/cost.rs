use vstd::prelude::*;

verus! {

/// Resources consumed by one operation, one unsigned amount per dimension.
#[derive(Clone, Copy, Debug, PartialEq, Eq, Structural)]
pub struct ExecutionCost {
    pub write_length: u64,
    pub write_count: u64,
    pub read_length: u64,
    pub read_count: u64,
    pub runtime: u64,
}

/// One independent dimension of an `ExecutionCost`.
#[derive(Clone, Copy, Debug, PartialEq, Eq, Structural)]
pub enum CostField {
    RuntimeCost,
    WriteLength,
    WriteCount,
    ReadLength,
    ReadCount,
}

/// The amount that `cost` records for dimension `field`.
pub open spec fn field_value(field: CostField, cost: ExecutionCost) -> u64 {
    match field {
        CostField::RuntimeCost => cost.runtime,
        CostField::WriteLength => cost.write_length,
        CostField::WriteCount => cost.write_count,
        CostField::ReadLength => cost.read_length,
        CostField::ReadCount => cost.read_count,
    }
}

/// The name under which a dimension is stored.
pub open spec fn field_name(field: CostField) -> Seq<char> {
    match field {
        CostField::RuntimeCost => "runtime"@,
        CostField::WriteLength => "write-length"@,
        CostField::WriteCount => "write-count"@,
        CostField::ReadLength => "read-length"@,
        CostField::ReadCount => "read-count"@,
    }
}

/// The dimensions in the order in which an observation is recorded.
pub open spec fn all_fields() -> Seq<CostField> {
    seq![
        CostField::RuntimeCost,
        CostField::WriteLength,
        CostField::WriteCount,
        CostField::ReadLength,
        CostField::ReadCount,
    ]
}

/// No dimension name holds a colon, and distinct dimensions have
/// distinct names.
pub proof fn lemma_field_names(f: CostField, g: CostField)
    ensures
        forall|i: int| 0 <= i < field_name(f).len() ==> #[trigger] field_name(f)[i] != ':',
        field_name(f) == field_name(g) ==> f == g,
{
    reveal_strlit("runtime");
    reveal_strlit("write-length");
    reveal_strlit("write-count");
    reveal_strlit("read-length");
    reveal_strlit("read-count");
    if field_name(f) == field_name(g) && f != g {
        let (a, b) = (field_name(f), field_name(g));
        assert(a.len() == b.len());
        assert(a[0] == b[0]);
        assert(a[1] == b[1]);
    }
}

impl CostField {
    /// Every dimension, in the order in which an observation is recorded.
    pub fn all() -> (r: Vec<CostField>)
        ensures
            r@ == all_fields(),
    {
        let r = vec![
            CostField::RuntimeCost,
            CostField::WriteLength,
            CostField::WriteCount,
            CostField::ReadLength,
            CostField::ReadCount,
        ];
        assert(r@ =~= all_fields());
        r
    }

    /// Selects this dimension out of `from_cost`.
    pub fn select_key(&self, from_cost: &ExecutionCost) -> (r: u64)
        ensures
            r == field_value(*self, *from_cost),
    {
        match self {
            CostField::RuntimeCost => from_cost.runtime,
            CostField::WriteLength => from_cost.write_length,
            CostField::WriteCount => from_cost.write_count,
            CostField::ReadLength => from_cost.read_length,
            CostField::ReadCount => from_cost.read_count,
        }
    }

    /// The name under which this dimension is stored.
    pub fn name(&self) -> (r: &'static str)
        ensures
            r@ == field_name(*self),
    {
        match self {
            CostField::RuntimeCost => "runtime",
            CostField::WriteLength => "write-length",
            CostField::WriteCount => "write-count",
            CostField::ReadLength => "read-length",
            CostField::ReadCount => "read-count",
        }
    }
}

} // verus!
