//! The March C module: stuck-at faults, each address reported at most once.
use vstd::prelude::*;
use crate::modules::commons::{MemoryError, MemoryReport, contains_usize, report_addresses};

verus! {

/// Records the read-back at `address` of one March element: when `observed` is not
/// `expected` and the address has not been reported yet, the address joins
/// `errors` and a stuck-at report joins `reports`; otherwise nothing changes.
pub fn record_stuck_at(
    errors: &mut Vec<usize>,
    reports: &mut Vec<MemoryReport>,
    address: usize,
    observed: u8,
    expected: u8,
)
    ensures
        ({
            let hit = observed != expected && !old(errors)@.contains(address);
            &&& final(errors)@ == if hit {
                old(errors)@.push(address)
            } else {
                old(errors)@
            }
            &&& final(reports)@ == if hit {
                old(reports)@.push(MemoryReport { address, kind: MemoryError::StuckAt })
            } else {
                old(reports)@
            }
        }),
{
    if observed != expected && !contains_usize(errors, address) {
        errors.push(address);
        reports.push(MemoryReport { address, kind: MemoryError::StuckAt });
    }
}

/// Recording keeps the error list free of repetitions, and keeps the reports in
/// step with it: the reports name exactly the listed addresses, in order.
pub proof fn lemma_record_keeps_errors_unique(
    errors: Seq<usize>,
    reports: Seq<MemoryReport>,
    address: usize,
    observed: u8,
    expected: u8,
)
    requires
        errors.no_duplicates(),
        report_addresses(reports) == errors,
    ensures
        ({
            let hit = observed != expected && !errors.contains(address);
            let new_errors = if hit {
                errors.push(address)
            } else {
                errors
            };
            let new_reports = if hit {
                reports.push(MemoryReport { address, kind: MemoryError::StuckAt })
            } else {
                reports
            };
            &&& new_errors.no_duplicates()
            &&& report_addresses(new_reports) == new_errors
        }),
{
    let hit = observed != expected && !errors.contains(address);
    if hit {
        let new_errors = errors.push(address);
        assert forall|i: int, j: int|
            0 <= i < new_errors.len() && 0 <= j < new_errors.len() && i != j implies new_errors[i]
            != new_errors[j] by {
            if i == errors.len() as int {
                assert(errors[j] == new_errors[j]);
            } else if j == errors.len() as int {
                assert(errors[i] == new_errors[i]);
            }
        }
        let new_reports = reports.push(MemoryReport { address, kind: MemoryError::StuckAt });
        assert(report_addresses(new_reports) =~= new_errors);
    }
}

/// One cell of the buffer March C: whether the cell read `observed` holds the
/// `expected` value, so that the element goes on to write it.
pub fn march_c_cell(observed: u8, expected: u8) -> (write: bool)
    ensures
        write == (observed == expected),
{
    observed == expected
}

} // verus!
