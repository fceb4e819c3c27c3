//! Rows of the record store, and what the address check makes of each.

use crate::address::{address_of, validate_address, Address, ValidationError};
use vstd::prelude::*;

verus! {

/// One entry of the record store, as a snapshot holds it.
#[derive(Clone, Debug, PartialEq, Eq)]
pub struct Row {
    /// The row's stable identifier, and the key of the write-back.
    pub index: u32,
    /// The raw address text, where the row has one.
    pub address: Option<String>,
    /// Set by the operator, outside this library.
    pub approved: bool,
    /// Set by the write-back that follows a confirmed submission.
    pub synced: bool,
}

/// What the address check found of a row.
#[derive(Clone, Copy, Debug, PartialEq, Eq)]
pub enum Validity {
    /// The row is not approved, or is synchronised already: it takes no part
    /// in the run.
    NotPending,
    /// The row is pending but has no address.
    Missing,
    /// The row is pending and its address was refused.
    Invalid { error: ValidationError },
    /// The row is pending and its address is a ledger address.
    Valid { address: Address },
}

/// A row after the address check: its index and the finding.
#[derive(Clone, Copy, Debug, PartialEq, Eq)]
pub struct CheckedRow {
    pub index: u32,
    pub validity: Validity,
}

impl Row {
    /// The address text, as a sequence of characters.
    pub open spec fn text(self) -> Option<Seq<char>> {
        match self.address {
            Some(s) => Some(s@),
            None => None,
        }
    }

    /// Approved and not yet synchronised.
    pub open spec fn pending(self) -> bool {
        self.approved && !self.synced
    }

    /// The finding of the address check on this row.
    pub open spec fn validity(self) -> Validity {
        if !self.pending() {
            Validity::NotPending
        } else {
            match self.text() {
                None => Validity::Missing,
                Some(text) => match address_of(text) {
                    Ok(address) => Validity::Valid { address },
                    Err(error) => Validity::Invalid { error },
                },
            }
        }
    }

    /// The row after the address check.
    pub open spec fn checked(self) -> CheckedRow {
        CheckedRow { index: self.index, validity: self.validity() }
    }
}

/// The rows of a snapshot after the address check, in the snapshot's order.
pub open spec fn checked_rows(rows: Seq<Row>) -> Seq<CheckedRow> {
    Seq::new(rows.len(), |p: int| rows[p].checked())
}

/// Sorts a finding on a pending row's address text into a [`Validity`].
pub fn classify(parsed: Option<Result<Address, ValidationError>>) -> (v: Validity)
    ensures
        v == match parsed {
            None => Validity::Missing,
            Some(Ok(address)) => Validity::Valid { address },
            Some(Err(error)) => Validity::Invalid { error },
        },
{
    match parsed {
        None => Validity::Missing,
        Some(Ok(address)) => Validity::Valid { address },
        Some(Err(error)) => Validity::Invalid { error },
    }
}

/// Checks one row: only a pending row has its address validated.
pub fn check_row(row: &Row) -> (c: CheckedRow)
    ensures
        c == row.checked(),
{
    if !row.approved || row.synced {
        CheckedRow { index: row.index, validity: Validity::NotPending }
    } else {
        let parsed = match &row.address {
            None => None,
            Some(text) => Some(validate_address(text.as_str())),
        };
        CheckedRow { index: row.index, validity: classify(parsed) }
    }
}

/// Checks every row of a snapshot, keeping the order.
pub fn check_rows(rows: &Vec<Row>) -> (checked: Vec<CheckedRow>)
    ensures
        checked@ == checked_rows(rows@),
{
    let mut checked: Vec<CheckedRow> = Vec::new();
    let mut i: usize = 0;
    while i < rows.len()
        invariant
            0 <= i <= rows.len(),
            checked@.len() == i,
            forall|p: int| 0 <= p < i ==> checked@[p] == (#[trigger] rows@[p]).checked(),
        decreases rows.len() - i,
    {
        let c = check_row(&rows[i]);
        checked.push(c);
        i += 1;
    }
    assert(checked@ =~= checked_rows(rows@));
    checked
}

} // verus!
