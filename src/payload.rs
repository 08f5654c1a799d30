use vstd::prelude::*;

verus! {

use crate::cost::{field_name, lemma_field_names, CostField};

/// What the estimator reads of an operation: its kind and, for a contract
/// call, the contract and the function called.
#[derive(Debug)]
pub enum TransactionPayload {
    TokenTransfer,
    ContractCall { contract_name: String, function_name: String },
    SmartContract,
    PoisonMicroblock,
    Coinbase,
}

/// The estimation class of an operation: operations with the same
/// descriptor share all statistics.
pub open spec fn descriptor_of(tx: TransactionPayload) -> Seq<char> {
    match tx {
        TransactionPayload::TokenTransfer => "stx-transfer"@,
        TransactionPayload::ContractCall { contract_name, function_name } => "cc:"@ + contract_name@
            + "."@ + function_name@,
        TransactionPayload::SmartContract => "contract-publish"@,
        TransactionPayload::PoisonMicroblock => "poison-ublock"@,
        TransactionPayload::Coinbase => "coinbase"@,
    }
}

/// The key of the statistic kept for dimension `field` of class `descriptor`.
pub open spec fn key_of(descriptor: Seq<char>, field: CostField) -> Seq<char> {
    descriptor + ":"@ + field_name(field)
}

/// Distinct (class, dimension) pairs never share a key.
pub proof fn lemma_estimate_key_injective(
    d1: Seq<char>,
    f1: CostField,
    d2: Seq<char>,
    f2: CostField,
)
    ensures
        key_of(d1, f1) == key_of(d2, f2) ==> d1 == d2 && f1 == f2,
{
    reveal_strlit(":");
    lemma_field_names(f1, f2);
    lemma_field_names(f2, f1);
    let (n1, n2) = (field_name(f1), field_name(f2));
    let (k1, k2) = (key_of(d1, f1), key_of(d2, f2));
    if k1 == k2 {
        let c1 = d1 + ":"@;
        let c2 = d2 + ":"@;
        assert(c1.len() == d1.len() + 1);
        assert(c2.len() == d2.len() + 1);
        assert(k1.len() == c1.len() + n1.len());
        assert(k2.len() == c2.len() + n2.len());
        assert(c1[d1.len() as int] == ':');
        assert(c2[d2.len() as int] == ':');
        assert(k1[d1.len() as int] == ':');
        assert(k2[d2.len() as int] == ':');
        if d1.len() < d2.len() {
            assert(k1[d2.len() as int] == n1[d2.len() - d1.len() - 1]);
        } else if d2.len() < d1.len() {
            assert(k2[d1.len() as int] == n2[d1.len() - d2.len() - 1]);
        } else {
            assert(d1 =~= k1.subrange(0, d1.len() as int));
            assert(d2 =~= k2.subrange(0, d2.len() as int));
            assert(n1 =~= k1.subrange(d1.len() as int + 1, k1.len() as int));
            assert(n2 =~= k2.subrange(d2.len() as int + 1, k2.len() as int));
        }
    }
}

/// Which kind of operation `tx` is.
pub open spec fn kind_of(tx: TransactionPayload) -> int {
    match tx {
        TransactionPayload::TokenTransfer => 0,
        TransactionPayload::ContractCall { .. } => 1,
        TransactionPayload::SmartContract => 2,
        TransactionPayload::PoisonMicroblock => 3,
        TransactionPayload::Coinbase => 4,
    }
}

/// Operations of different kinds never share a class, so they never share
/// statistics.
pub proof fn lemma_kinds_have_distinct_classes(a: TransactionPayload, b: TransactionPayload)
    ensures
        descriptor_of(a) == descriptor_of(b) ==> kind_of(a) == kind_of(b),
{
    reveal_strlit("stx-transfer");
    reveal_strlit("cc:");
    reveal_strlit(".");
    reveal_strlit("contract-publish");
    reveal_strlit("poison-ublock");
    reveal_strlit("coinbase");
    let (da, db) = (descriptor_of(a), descriptor_of(b));
    if da == db && kind_of(a) != kind_of(b) {
        assert(da[0] == db[0]);
        assert(da[1] == db[1]);
        assert(da[2] == db[2]);
        assert(da.len() == db.len());
    }
}

impl TransactionPayload {
    /// The estimation class of this operation.
    pub fn descriptor(&self) -> (r: String)
        ensures
            r@ == descriptor_of(*self),
    {
        match self {
            TransactionPayload::TokenTransfer => String::from_str("stx-transfer"),
            TransactionPayload::ContractCall { contract_name, function_name } => {
                let mut s = String::from_str("cc:");
                s.append(contract_name.as_str());
                s.append(".");
                s.append(function_name.as_str());
                s
            },
            TransactionPayload::SmartContract => String::from_str("contract-publish"),
            TransactionPayload::PoisonMicroblock => String::from_str("poison-ublock"),
            TransactionPayload::Coinbase => String::from_str("coinbase"),
        }
    }
}

/// The key under which the statistic for dimension `field` of operation
/// `tx` is stored: its class, a colon, and the dimension's name.
pub fn get_estimate_key(tx: &TransactionPayload, field: &CostField) -> (r: String)
    ensures
        r@ == key_of(descriptor_of(*tx), *field),
{
    let mut key = tx.descriptor();
    key.append(":");
    key.append(field.name());
    key
}

} // verus!
