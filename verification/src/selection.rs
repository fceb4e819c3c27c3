//! The choice of the rows that one run submits.
//!
//! Of the checked rows of a snapshot, the valid ones are candidates for the
//! ledger call, in the snapshot's order; the first [`BATCH_CAP`] of them form
//! the batch. Pending rows that cannot be submitted are reported, and an
//! address that was refused raises the flag that puts the run before the
//! operator.

use crate::address::{Address, ValidationError};
use crate::rows::{CheckedRow, Validity};
use vstd::prelude::*;

verus! {

/// The most addresses that a single ledger call carries.
pub const BATCH_CAP: usize = 10;

/// One address of a batch, with the index of the row it came from.
#[derive(Clone, Copy, Debug, PartialEq, Eq)]
pub struct BatchEntry {
    pub row: u32,
    pub address: Address,
}

/// Why a pending row was left out of the batch.
#[derive(Clone, Copy, Debug, PartialEq, Eq)]
pub enum IssueKind {
    MissingAddress,
    InvalidAddress { error: ValidationError },
}

/// A pending row that was dropped, to be reported to the operator.
#[derive(Clone, Copy, Debug, PartialEq, Eq)]
pub struct RowIssue {
    pub row: u32,
    pub kind: IssueKind,
}

/// What a snapshot yields: the batch, the rows to report, and whether an
/// address was refused.
#[derive(Clone, Debug, PartialEq, Eq)]
pub struct Selection {
    pub batch: Vec<BatchEntry>,
    pub issues: Vec<RowIssue>,
    pub errors_present: bool,
}

impl CheckedRow {
    /// The row is pending and carries a ledger address.
    pub open spec fn is_valid(self) -> bool {
        self.validity is Valid
    }

    /// The row is pending and its address was refused.
    pub open spec fn is_invalid(self) -> bool {
        self.validity is Invalid
    }

    /// The batch entry of a valid row.
    pub open spec fn entry(self) -> BatchEntry
        recommends
            self.is_valid(),
    {
        BatchEntry { row: self.index, address: self.validity->address }
    }

    /// The report that the row calls for, if any.
    pub open spec fn issue(self) -> Option<RowIssue> {
        match self.validity {
            Validity::Missing => Some(RowIssue { row: self.index, kind: IssueKind::MissingAddress }),
            Validity::Invalid { error } => Some(
                RowIssue { row: self.index, kind: IssueKind::InvalidAddress { error } },
            ),
            _ => None,
        }
    }
}

/// The positions of the valid rows, ascending.
pub open spec fn valid_positions(rows: Seq<CheckedRow>) -> Seq<int>
    decreases rows.len(),
{
    if rows.len() == 0 {
        Seq::empty()
    } else if rows.last().is_valid() {
        valid_positions(rows.drop_last()).push(rows.len() - 1)
    } else {
        valid_positions(rows.drop_last())
    }
}

/// The entries of the valid rows, in the order of the rows.
pub open spec fn valid_entries(rows: Seq<CheckedRow>) -> Seq<BatchEntry>
    decreases rows.len(),
{
    if rows.len() == 0 {
        Seq::empty()
    } else if rows.last().is_valid() {
        valid_entries(rows.drop_last()).push(rows.last().entry())
    } else {
        valid_entries(rows.drop_last())
    }
}

/// The first `cap` items of `s`, or all of `s` where it has fewer.
pub open spec fn capped<T>(s: Seq<T>, cap: int) -> Seq<T> {
    if s.len() <= cap {
        s
    } else {
        s.take(cap)
    }
}

/// The batch of a snapshot: its first [`BATCH_CAP`] valid entries.
pub open spec fn batch_of(rows: Seq<CheckedRow>) -> Seq<BatchEntry> {
    capped(valid_entries(rows), BATCH_CAP as int)
}

/// The positions of the rows that the batch was taken from.
pub open spec fn selected_positions(rows: Seq<CheckedRow>) -> Seq<int> {
    capped(valid_positions(rows), BATCH_CAP as int)
}

/// The reports of a snapshot, in the order of the rows.
pub open spec fn issues_of(rows: Seq<CheckedRow>) -> Seq<RowIssue>
    decreases rows.len(),
{
    if rows.len() == 0 {
        Seq::empty()
    } else {
        match rows.last().issue() {
            Some(issue) => issues_of(rows.drop_last()).push(issue),
            None => issues_of(rows.drop_last()),
        }
    }
}

/// Some pending row of the snapshot has an address that was refused.
pub open spec fn errors_present(rows: Seq<CheckedRow>) -> bool {
    exists|p: int| 0 <= p < rows.len() && (#[trigger] rows[p]).is_invalid()
}

/// The addresses of a batch, in its order.
pub open spec fn addresses_of(batch: Seq<BatchEntry>) -> Seq<Address> {
    Seq::new(batch.len(), |j: int| batch[j].address)
}

/// The row indices of a batch, in its order.
pub open spec fn indices_of(batch: Seq<BatchEntry>) -> Seq<u32> {
    Seq::new(batch.len(), |j: int| batch[j].row)
}

/// The valid entries and the valid positions go together: the entry at any
/// place is that of the row at the position of the same place; the positions
/// are those of valid rows, ascend strictly, and leave no valid row out.
pub proof fn lemma_valid_positions(rows: Seq<CheckedRow>)
    ensures
        valid_positions(rows).len() == valid_entries(rows).len(),
        forall|j: int|
            0 <= j < valid_positions(rows).len() ==> {
                let p = #[trigger] valid_positions(rows)[j];
                &&& 0 <= p < rows.len()
                &&& rows[p].is_valid()
                &&& valid_entries(rows)[j] == rows[p].entry()
            },
        forall|j: int, k: int|
            0 <= j < k < valid_positions(rows).len() ==> #[trigger] valid_positions(rows)[j]
                < #[trigger] valid_positions(rows)[k],
        forall|p: int|
            0 <= p < rows.len() && (#[trigger] rows[p]).is_valid() ==> valid_positions(
                rows,
            ).contains(p),
    decreases rows.len(),
{
    if rows.len() > 0 {
        let before = rows.drop_last();
        lemma_valid_positions(before);
        let last = rows.len() - 1;
        assert forall|p: int| 0 <= p < rows.len() && (#[trigger] rows[p]).is_valid() implies valid_positions(
            rows,
        ).contains(p) by {
            if p < last {
                assert(before[p].is_valid());
                let j = choose|j: int|
                    0 <= j < valid_positions(before).len() && valid_positions(before)[j] == p;
                assert(valid_positions(rows)[j] == p);
            } else {
                assert(valid_positions(rows)[valid_positions(before).len() as int] == p);
            }
        }
    }
}

/// The batch never exceeds the cap: it is all of the valid entries where
/// they fit, and the first [`BATCH_CAP`] of them where they do not. The
/// selected positions are cut in the same way.
pub proof fn lemma_batch_is_capped(rows: Seq<CheckedRow>)
    ensures
        batch_of(rows).len() <= BATCH_CAP,
        batch_of(rows).len() == selected_positions(rows).len(),
        valid_entries(rows).len() <= BATCH_CAP ==> batch_of(rows) == valid_entries(rows),
        valid_entries(rows).len() > BATCH_CAP ==> batch_of(rows) == valid_entries(rows).take(
            BATCH_CAP as int,
        ),
        forall|j: int|
            0 <= j < batch_of(rows).len() ==> #[trigger] batch_of(rows)[j] == valid_entries(rows)[j]
                && selected_positions(rows)[j] == valid_positions(rows)[j],
{
    lemma_valid_positions(rows);
}

/// Every entry of the batch is the entry of a valid row, the rows being
/// taken in ascending order of position.
pub proof fn lemma_batch_sources(rows: Seq<CheckedRow>)
    ensures
        selected_positions(rows).len() == batch_of(rows).len(),
        forall|j: int|
            0 <= j < batch_of(rows).len() ==> {
                let p = #[trigger] selected_positions(rows)[j];
                &&& 0 <= p < rows.len()
                &&& rows[p].is_valid()
                &&& batch_of(rows)[j] == rows[p].entry()
            },
        forall|j: int, k: int|
            0 <= j < k < batch_of(rows).len() ==> #[trigger] selected_positions(rows)[j]
                < #[trigger] selected_positions(rows)[k],
{
    lemma_valid_positions(rows);
    lemma_batch_is_capped(rows);
    assert forall|j: int| 0 <= j < batch_of(rows).len() implies {
        let p = #[trigger] selected_positions(rows)[j];
        &&& 0 <= p < rows.len()
        &&& rows[p].is_valid()
        &&& batch_of(rows)[j] == rows[p].entry()
    } by {
        assert(selected_positions(rows)[j] == valid_positions(rows)[j]);
        assert(batch_of(rows)[j] == valid_entries(rows)[j]);
    }
}

/// A snapshot without a valid row has an empty batch, and the other way
/// round.
pub proof fn lemma_empty_batch(rows: Seq<CheckedRow>)
    ensures
        batch_of(rows).len() == 0 <==> forall|p: int|
            0 <= p < rows.len() ==> !(#[trigger] rows[p]).is_valid(),
{
    lemma_valid_positions(rows);
    if batch_of(rows).len() > 0 {
        let p = valid_positions(rows)[0];
        assert(rows[p].is_valid());
    }
    if exists|p: int| 0 <= p < rows.len() && (#[trigger] rows[p]).is_valid() {
        let p = choose|p: int| 0 <= p < rows.len() && (#[trigger] rows[p]).is_valid();
        assert(valid_positions(rows).contains(p));
    }
}

/// What one more row adds to the selection of the rows before it.
proof fn lemma_one_more_row(rows: Seq<CheckedRow>, i: int)
    requires
        0 <= i < rows.len(),
    ensures
        valid_entries(rows.take(i + 1)) == if rows[i].is_valid() {
            valid_entries(rows.take(i)).push(rows[i].entry())
        } else {
            valid_entries(rows.take(i))
        },
        issues_of(rows.take(i + 1)) == match rows[i].issue() {
            Some(issue) => issues_of(rows.take(i)).push(issue),
            None => issues_of(rows.take(i)),
        },
        errors_present(rows.take(i + 1)) == (errors_present(rows.take(i)) || rows[i].is_invalid()),
{
    let before = rows.take(i);
    let upto = rows.take(i + 1);
    assert(upto.drop_last() =~= before);
    assert(upto.last() == rows[i]);
    if errors_present(before) {
        let p = choose|p: int| 0 <= p < before.len() && (#[trigger] before[p]).is_invalid();
        assert(upto[p].is_invalid());
    }
    if rows[i].is_invalid() {
        assert(upto[i].is_invalid());
    }
    if errors_present(upto) {
        let p = choose|p: int| 0 <= p < upto.len() && (#[trigger] upto[p]).is_invalid();
        if p < i {
            assert(before[p].is_invalid());
        }
    }
}

/// Builds the selection of a snapshot of checked rows.
///
/// The batch holds the first [`BATCH_CAP`] valid rows in their order; every
/// pending row without a usable address is reported, whether or not the batch
/// is full; the flag is raised by any refused address of the snapshot.
pub fn select(rows: &Vec<CheckedRow>) -> (sel: Selection)
    ensures
        sel.batch@ == batch_of(rows@),
        sel.issues@ == issues_of(rows@),
        sel.errors_present == errors_present(rows@),
{
    let mut batch: Vec<BatchEntry> = Vec::new();
    let mut issues: Vec<RowIssue> = Vec::new();
    let mut flagged = false;
    let mut i: usize = 0;
    while i < rows.len()
        invariant
            0 <= i <= rows.len(),
            batch@ == batch_of(rows@.take(i as int)),
            issues@ == issues_of(rows@.take(i as int)),
            flagged == errors_present(rows@.take(i as int)),
        decreases rows.len() - i,
    {
        proof {
            lemma_one_more_row(rows@, i as int);
        }
        let row = rows[i];
        match row.validity {
            Validity::Valid { address } => {
                if batch.len() < BATCH_CAP {
                    batch.push(BatchEntry { row: row.index, address });
                }
            },
            Validity::Invalid { error } => {
                flagged = true;
                issues.push(RowIssue { row: row.index, kind: IssueKind::InvalidAddress { error } });
            },
            Validity::Missing => {
                issues.push(RowIssue { row: row.index, kind: IssueKind::MissingAddress });
            },
            Validity::NotPending => {},
        }
        assert(batch@ =~= batch_of(rows@.take(i + 1)));
        i += 1;
    }
    assert(rows@.take(rows.len() as int) =~= rows@);
    Selection { batch, issues, errors_present: flagged }
}

} // verus!
