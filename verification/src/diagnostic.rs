//! Errors and diagnostics, which are those of `rspack_error`.
//!
//! The pipeline does not look inside either: it hands them on, notes on an error
//! the source text of the module that asked, and turns an error into a diagnostic
//! where the compilation tolerates it. What those two steps give is named here
//! and believed as the error crate's source shows it.

use crate::ident::ModuleIdentifier;
use rspack_error::{Diagnostic, Error};
use vstd::prelude::*;

verus! {

/// `rspack_error::Error`: a hard failure of a collaborator. Nothing is read from it.
#[verifier::external_type_specification]
#[verifier::external_body]
pub struct ExError(Error);

/// `rspack_error::Diagnostic`: a report for the user. Nothing is read from it.
#[verifier::external_type_specification]
#[verifier::external_body]
pub struct ExDiagnostic(Diagnostic);

/// `error` with `source` as the source code that a rendering of it quotes.
pub uninterp spec fn error_with_source(error: Error, source: Seq<char>) -> Error;

/// The diagnostic that reports `error`.
pub uninterp spec fn diagnostic_of(error: Error) -> Diagnostic;

/// Sets the field `src` of an `rspack_error::Error`, the source code that a
/// rendering quotes. The result depends on the error and the text alone.
#[verifier::external_body]
pub(crate) fn with_source_code(error: Error, source: &str) -> (noted: Error)
    ensures
        noted == error_with_source(error, source@),
{
    let mut noted = error;
    noted.src = Some(source.into());
    noted
}

/// `<rspack_error::Diagnostic as From<rspack_error::Error>>::from`: the
/// diagnostic that holds the error and nothing else. The result depends on the
/// error alone.
#[verifier::external_body]
pub(crate) fn into_diagnostic(error: Error) -> (diagnostic: Diagnostic)
    ensures
        diagnostic == diagnostic_of(error),
{
    Diagnostic::from(error)
}

/// `<rspack_error::Diagnostic as Clone>::clone`, which the error crate derives:
/// the copy holds what the diagnostic holds.
#[verifier::external_body]
pub(crate) fn clone_diagnostic(diagnostic: &Diagnostic) -> (copy: Diagnostic)
    ensures
        copy == *diagnostic,
{
    diagnostic.clone()
}

/// A diagnostic with the module that it was reported for.
#[derive(Debug)]
pub struct ModuleDiagnostic {
    pub diagnostic: Diagnostic,
    pub module_identifier: Option<ModuleIdentifier>,
}

impl ModuleDiagnostic {
    /// `diagnostic`, reported for no module in particular.
    pub fn new(diagnostic: Diagnostic) -> (report: ModuleDiagnostic)
        ensures
            report == (ModuleDiagnostic { diagnostic, module_identifier: None }),
    {
        ModuleDiagnostic { diagnostic, module_identifier: None }
    }

    /// The same diagnostic, reported for `module_identifier`.
    pub fn with_module_identifier(self, module_identifier: Option<ModuleIdentifier>) -> (report:
        ModuleDiagnostic)
        ensures
            report == (ModuleDiagnostic { diagnostic: self.diagnostic, module_identifier }),
    {
        ModuleDiagnostic { diagnostic: self.diagnostic, module_identifier }
    }
}

impl Clone for ModuleDiagnostic {
    fn clone(&self) -> (copy: ModuleDiagnostic)
        ensures
            copy == *self,
    {
        ModuleDiagnostic {
            diagnostic: clone_diagnostic(&self.diagnostic),
            module_identifier: self.module_identifier,
        }
    }
}

/// Each diagnostic of `diagnostics`, in their order, reported for `module_identifier`.
pub open spec fn tagged(diagnostics: Seq<Diagnostic>, module_identifier: ModuleIdentifier) -> Seq<
    ModuleDiagnostic,
> {
    Seq::new(
        diagnostics.len(),
        |i: int|
            ModuleDiagnostic {
                diagnostic: diagnostics[i],
                module_identifier: Some(module_identifier),
            },
    )
}

/// Reports each diagnostic of a module for that module.
pub fn tag_diagnostics(diagnostics: Vec<Diagnostic>, module_identifier: ModuleIdentifier) -> (reports:
    Vec<ModuleDiagnostic>)
    ensures
        reports@ == tagged(diagnostics@, module_identifier),
{
    // A diagnostic is moved, not copied: they are taken from the end, which
    // turns their order round, and then once more, which sets it right.
    let ghost all = diagnostics@;
    let mut rest = diagnostics;
    let mut reversed: Vec<ModuleDiagnostic> = Vec::new();
    while rest.len() > 0
        invariant
            rest@.len() + reversed@.len() == all.len(),
            rest@ == all.subrange(0, rest@.len() as int),
            forall|j: int|
                0 <= j < reversed@.len() ==> reversed@[j] == tagged(all, module_identifier)[all.len()
                    - 1 - j],
        decreases rest.len(),
    {
        let last = rest.pop().unwrap();
        reversed.push(ModuleDiagnostic::new(last).with_module_identifier(Some(module_identifier)));
    }
    let mut reports: Vec<ModuleDiagnostic> = Vec::new();
    while reversed.len() > 0
        invariant
            reports@.len() + reversed@.len() == all.len(),
            forall|j: int|
                0 <= j < reversed@.len() ==> reversed@[j] == tagged(all, module_identifier)[all.len()
                    - 1 - j],
            forall|j: int|
                0 <= j < reports@.len() ==> reports@[j] == tagged(all, module_identifier)[j],
        decreases reversed.len(),
    {
        let next = reversed.pop().unwrap();
        reports.push(next);
    }
    assert(reports@ =~= tagged(all, module_identifier));
    reports
}

/// A copy of each report of `reports`, in their order.
pub fn clone_reports(reports: &Vec<ModuleDiagnostic>) -> (copy: Vec<ModuleDiagnostic>)
    ensures
        copy@ == reports@,
{
    let mut copy: Vec<ModuleDiagnostic> = Vec::new();
    let mut i: usize = 0;
    while i < reports.len()
        invariant
            i <= reports.len(),
            copy@ == reports@.subrange(0, i as int),
        decreases reports.len() - i,
    {
        copy.push(reports[i].clone());
        assert(reports@.subrange(0, i + 1) == reports@.subrange(0, i as int).push(
            reports@[i as int],
        ));
        i += 1;
    }
    assert(reports@.subrange(0, reports@.len() as int) == reports@);
    copy
}

} // verus!
