//! Per-processor ledgers of accepted payments and the summary report.
//!
//! A ledger maps each correlation id to at most one record; writing an
//! id that is already present overwrites its record, which is safe
//! because a retried request carries identical content. The summary
//! filters records whose dispatch-time stamp lies in an inclusive
//! range and totals their count and amount.

use vstd::prelude::*;

use crate::model::{Payment, PaymentsSummary, ProcessorKind, Summary};

verus! {

/// No two records share a correlation id.
pub open spec fn spec_unique_ids(records: Seq<Payment>) -> bool {
    forall|i: int, j: int|
        0 <= i < j < records.len() ==> (#[trigger] records[i]).correlation_id@ != (
        #[trigger] records[j]).correlation_id@
}

/// Some record carries the given correlation id.
pub open spec fn spec_has_id(records: Seq<Payment>, id: Seq<char>) -> bool {
    exists|i: int| 0 <= i < records.len() && (#[trigger] records[i]).correlation_id@ == id
}

/// How a write relates a ledger's records after to those before: the
/// record under the payment's id is overwritten where it exists, and
/// appended where it does not.
pub open spec fn spec_upserted(before: Seq<Payment>, after: Seq<Payment>, p: Payment) -> bool {
    if spec_has_id(before, p.correlation_id@) {
        exists|i: int|
            0 <= i < before.len() && (#[trigger] before[i]).correlation_id@ == p.correlation_id@
                && after == before.update(i, p)
    } else {
        after == before.push(p)
    }
}

/// Law: a well-formed ledger is never written twice for one
/// correlation id — any two positions carrying the same id are the
/// same position.
pub proof fn lemma_at_most_one_record_per_id(records: Seq<Payment>, i: int, j: int)
    requires
        spec_unique_ids(records),
        0 <= i < records.len(),
        0 <= j < records.len(),
        records[i].correlation_id@ == records[j].correlation_id@,
    ensures
        i == j,
{
}

/// Whether a record's dispatch-time stamp lies in the inclusive range.
pub open spec fn spec_in_range(p: Payment, from: i64, to: i64) -> bool {
    from <= p.requested_at <= to
}

/// How many records have their stamp in the inclusive range.
pub open spec fn spec_count_in_range(records: Seq<Payment>, from: i64, to: i64) -> int
    decreases records.len(),
{
    if records.len() == 0 {
        0
    } else {
        spec_count_in_range(records.drop_last(), from, to) + if spec_in_range(
            records.last(),
            from,
            to,
        ) {
            1int
        } else {
            0int
        }
    }
}

/// The total amount, in cents, of the records in the inclusive range.
pub open spec fn spec_sum_in_range(records: Seq<Payment>, from: i64, to: i64) -> int
    decreases records.len(),
{
    if records.len() == 0 {
        0
    } else {
        spec_sum_in_range(records.drop_last(), from, to) + if spec_in_range(
            records.last(),
            from,
            to,
        ) {
            records.last().amount as int
        } else {
            0int
        }
    }
}

/// One processor's ledger of accepted payments.
pub struct Ledger {
    records: Vec<Payment>,
}

impl View for Ledger {
    type V = Seq<Payment>;

    closed spec fn view(&self) -> Seq<Payment> {
        self.records@
    }
}

impl Ledger {
    /// Well-formed: correlation ids are unique.
    pub open spec fn wf(&self) -> bool {
        spec_unique_ids(self@)
    }

    /// An empty ledger.
    pub fn new() -> (ledger: Ledger)
        ensures
            ledger@ == Seq::<Payment>::empty(),
            ledger.wf(),
    {
        Ledger { records: Vec::new() }
    }

    /// Number of records held.
    pub fn len(&self) -> (n: usize)
        ensures
            n == self@.len(),
    {
        self.records.len()
    }

    /// Whether a record with this correlation id is present.
    pub fn contains_id(&self, id: &String) -> (present: bool)
        ensures
            present == spec_has_id(self@, id@),
    {
        let n: usize = self.records.len();
        for i in 0..n
            invariant
                n == self@.len(),
                forall|j: int| 0 <= j < i ==> (#[trigger] self@[j]).correlation_id@ != id@,
        {
            if self.records[i].correlation_id == *id {
                proof {
                    assert((#[trigger] self@[i as int]).correlation_id@ == id@);
                }
                return true;
            }
        }
        false
    }

    /// Write or overwrite the record under the payment's correlation
    /// id; every other record is untouched, and ids stay unique.
    pub fn upsert(&mut self, payment: Payment)
        requires
            old(self).wf(),
        ensures
            final(self).wf(),
            spec_upserted(old(self)@, final(self)@, payment),
            spec_has_id(final(self)@, payment.correlation_id@),
    {
        let n: usize = self.records.len();
        for i in 0..n
            invariant
                n == self@.len(),
                self@ == old(self)@,
                old(self).wf(),
                forall|j: int| 0 <= j < i ==> (#[trigger] self@[j]).correlation_id@
                    != payment.correlation_id@,
        {
            if self.records[i].correlation_id == payment.correlation_id {
                self.records[i] = payment;
                proof {
                    let before = old(self)@;
                    let after = self@;
                    assert(after =~= before.update(i as int, payment));
                    assert((#[trigger] before[i as int]).correlation_id@
                        == payment.correlation_id@);
                    assert forall|x: int, y: int| 0 <= x < y < after.len() implies (
                    #[trigger] after[x]).correlation_id@ != (#[trigger] after[y]).correlation_id@ by {
                        assert(before[x].correlation_id@ != before[y].correlation_id@);
                    }
                }
                return ;
            }
        }
        self.records.push(payment);
        proof {
            let before = old(self)@;
            let after = self@;
            assert(after =~= before.push(payment));
            assert((#[trigger] after[before.len() as int]).correlation_id@
                == payment.correlation_id@);
            assert forall|x: int, y: int| 0 <= x < y < after.len() implies (
            #[trigger] after[x]).correlation_id@ != (#[trigger] after[y]).correlation_id@ by {
                if y < before.len() {
                    assert(before[x].correlation_id@ != before[y].correlation_id@);
                } else {
                    assert(before[x].correlation_id@ != payment.correlation_id@);
                }
            }
        }
    }

    /// Totals over the records whose stamp lies in `[from, to]`.
    pub fn summarize(&self, from: i64, to: i64) -> (summary: Summary)
        ensures
            summary.total_requests == spec_count_in_range(self@, from, to),
            summary.total_amount == spec_sum_in_range(self@, from, to),
    {
        let n: usize = self.records.len();
        let mut total_requests: usize = 0;
        let mut total_amount: u128 = 0;
        for i in 0..n
            invariant
                n == self@.len(),
                total_requests == spec_count_in_range(self@.take(i as int), from, to),
                total_amount == spec_sum_in_range(self@.take(i as int), from, to),
                total_requests <= i,
                total_amount <= i * (u64::MAX as u128),
        {
            let record = &self.records[i];
            proof {
                assert(self@.take(i + 1).drop_last() == self@.take(i as int));
                assert(self@.take(i + 1).last() == self@[i as int]);
            }
            if from <= record.requested_at && record.requested_at <= to {
                total_requests = total_requests + 1;
                total_amount = total_amount + record.amount as u128;
            }
        }
        proof {
            assert(self@.take(n as int) == self@);
        }
        Summary { total_requests, total_amount }
    }
}

/// The two ledgers, one per processor.
pub struct LedgerPair {
    pub default_ledger: Ledger,
    pub fallback_ledger: Ledger,
}

impl LedgerPair {
    /// Well-formed: both ledgers are.
    pub open spec fn wf(&self) -> bool {
        self.default_ledger.wf() && self.fallback_ledger.wf()
    }

    /// Two empty ledgers.
    pub fn new() -> (ledgers: LedgerPair)
        ensures
            ledgers.default_ledger@ == Seq::<Payment>::empty(),
            ledgers.fallback_ledger@ == Seq::<Payment>::empty(),
            ledgers.wf(),
    {
        LedgerPair { default_ledger: Ledger::new(), fallback_ledger: Ledger::new() }
    }

    /// Record an accepted payment in the chosen processor's ledger;
    /// the other ledger is untouched.
    pub fn record_payment(&mut self, processor: ProcessorKind, payment: Payment)
        requires
            old(self).wf(),
        ensures
            final(self).wf(),
            processor == ProcessorKind::DefaultProcessor ==> spec_upserted(
                old(self).default_ledger@,
                final(self).default_ledger@,
                payment,
            ) && final(self).fallback_ledger@ == old(self).fallback_ledger@,
            processor == ProcessorKind::FallbackProcessor ==> spec_upserted(
                old(self).fallback_ledger@,
                final(self).fallback_ledger@,
                payment,
            ) && final(self).default_ledger@ == old(self).default_ledger@,
    {
        match processor {
            ProcessorKind::DefaultProcessor => self.default_ledger.upsert(payment),
            ProcessorKind::FallbackProcessor => self.fallback_ledger.upsert(payment),
        }
    }

    /// The report over both ledgers for the inclusive range.
    pub fn payments_summary(&self, from: i64, to: i64) -> (report: PaymentsSummary)
        ensures
            report.default_summary.total_requests == spec_count_in_range(
                self.default_ledger@,
                from,
                to,
            ),
            report.default_summary.total_amount == spec_sum_in_range(
                self.default_ledger@,
                from,
                to,
            ),
            report.fallback_summary.total_requests == spec_count_in_range(
                self.fallback_ledger@,
                from,
                to,
            ),
            report.fallback_summary.total_amount == spec_sum_in_range(
                self.fallback_ledger@,
                from,
                to,
            ),
    {
        PaymentsSummary {
            default_summary: self.default_ledger.summarize(from, to),
            fallback_summary: self.fallback_ledger.summarize(from, to),
        }
    }
}

} // verus!
