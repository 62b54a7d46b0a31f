//! The report store: an append-only, order-preserving collection of
//! diagnostics for one compilation pass.

use vstd::prelude::*;

use crate::semantic::{severity_of, SemanticKind, Severity};

verus! {

/// One diagnostic occurrence, tagged by the family it belongs to. Only
/// semantic reports are produced here; parse diagnostics live upstream.
#[derive(Clone, Debug)]
pub enum Report {
    Semantic(SemanticKind),
}

/// The severity of one report.
pub open spec fn report_severity(report: Report) -> Severity {
    match report {
        Report::Semantic(kind) => severity_of(kind),
    }
}

/// Whether any report in the sequence has error severity.
pub open spec fn has_error(reports: Seq<Report>) -> bool {
    exists|i: int| 0 <= i < reports.len() && report_severity(reports[i]) == Severity::Error
}

/// Accumulates reports in emission order for one compilation unit,
/// together with the displayable path of its source file.
#[derive(Debug)]
pub struct Reporter {
    pub reports: Vec<Report>,
    pub path: String,
}

impl Reporter {
    /// A fresh reporter with no accumulated reports.
    pub fn new(path: String) -> (reporter: Reporter)
        ensures
            reporter.reports@ == Seq::<Report>::empty(),
            reporter.path == path,
    {
        Reporter { reports: Vec::new(), path }
    }

    /// Appends one report; every earlier report keeps its place, so
    /// rendering order equals emission order.
    pub fn add_report(&mut self, report: Report)
        ensures
            final(self).reports@ == old(self).reports@.push(report),
            final(self).path == old(self).path,
    {
        self.reports.push(report);
    }

    /// The abort checkpoint: true exactly when an error-severity report
    /// has accumulated, so no downstream stage may run. Warnings never
    /// make this true.
    pub fn abort_if_has_error(&self) -> (abort: bool)
        ensures
            abort == has_error(self.reports@),
    {
        let mut i: usize = 0;
        while i < self.reports.len()
            invariant
                0 <= i <= self.reports@.len(),
                forall|j: int|
                    0 <= j < i as int ==> report_severity(self.reports@[j]) != Severity::Error,
            decreases self.reports@.len() - i,
        {
            let is_error = match &self.reports[i] {
                Report::Semantic(kind) => match kind {
                    SemanticKind::NamingConvention(_, _, _) => false,
                    _ => true,
                },
            };
            if is_error {
                assert(report_severity(self.reports@[i as int]) == Severity::Error);
                return true;
            }
            i = i + 1;
        }
        false
    }
}

} // verus!
