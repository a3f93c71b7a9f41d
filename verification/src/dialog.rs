//! The export and import operations, as decisions over dialog outcomes.
//!
//! Each operation runs in two steps. First the host presents a native file
//! dialog; its outcome — a confirmed path, a non-filesystem reference, or a
//! dismissal — decides whether the operation proceeds and with which path.
//! Then the host performs the one filesystem action; its result decides the
//! operation's answer. Both decisions live here; the dialog and the
//! filesystem call themselves are the host's.

use vstd::prelude::*;

use crate::error::{unit_result_view, BridgeError, ErrorView};

verus! {

/// What a native file dialog came back with: the user dismissed it, the
/// platform handed back a reference that is no filesystem path (with the
/// message to report), or the user confirmed a path.
pub enum DialogOutcome {
    Cancelled,
    Unusable(String),
    Chosen(String),
}

/// The mathematical image of a [`DialogOutcome`].
pub enum OutcomeView {
    Cancelled,
    Unusable(Seq<char>),
    Chosen(Seq<char>),
}

impl View for DialogOutcome {
    type V = OutcomeView;

    open spec fn view(&self) -> OutcomeView {
        match self {
            DialogOutcome::Cancelled => OutcomeView::Cancelled,
            DialogOutcome::Unusable(m) => OutcomeView::Unusable(m@),
            DialogOutcome::Chosen(p) => OutcomeView::Chosen(p@),
        }
    }
}

/// What the export operation does once the save dialog has answered: write
/// the payload to the confirmed path, or fail at once.
pub enum ExportPlan {
    Write { path: String, data: String },
    Fail { error: BridgeError },
}

/// The mathematical image of an [`ExportPlan`].
pub enum ExportPlanView {
    Write { path: Seq<char>, data: Seq<char> },
    Fail { error: ErrorView },
}

impl View for ExportPlan {
    type V = ExportPlanView;

    open spec fn view(&self) -> ExportPlanView {
        match self {
            ExportPlan::Write { path, data } => ExportPlanView::Write {
                path: path@,
                data: data@,
            },
            ExportPlan::Fail { error } => ExportPlanView::Fail { error: error@ },
        }
    }
}

/// The export decision: a dismissal is the cancellation error, an unusable
/// reference is a host error with its message, a confirmed path is a write of
/// the payload, unchanged, to that path.
pub open spec fn export_plan_spec(data: Seq<char>, outcome: OutcomeView) -> ExportPlanView {
    match outcome {
        OutcomeView::Cancelled => ExportPlanView::Fail { error: ErrorView::Cancelled },
        OutcomeView::Unusable(m) => ExportPlanView::Fail { error: ErrorView::Host(m) },
        OutcomeView::Chosen(p) => ExportPlanView::Write { path: p, data: data },
    }
}

/// Decides the export operation's next step from the save dialog's outcome.
/// The payload is never inspected or altered: whatever the dialog filters
/// suggested, the bytes written are exactly the bytes given.
pub fn export_plan(data: String, outcome: DialogOutcome) -> (p: ExportPlan)
    ensures
        p@ == export_plan_spec(data@, outcome@),
{
    match outcome {
        DialogOutcome::Cancelled => ExportPlan::Fail { error: BridgeError::Cancelled },
        DialogOutcome::Unusable(m) => ExportPlan::Fail { error: BridgeError::Host(m) },
        DialogOutcome::Chosen(path) => ExportPlan::Write { path, data },
    }
}

/// The image of a bridge operation's answer: the text returned, or the error.
pub open spec fn bridge_result_view(r: Result<String, BridgeError>) -> Result<
    Seq<char>,
    ErrorView,
> {
    match r {
        Ok(t) => Ok(t@),
        Err(e) => Err(e@),
    }
}

/// The export answer once the write has run: the chosen path on success, a
/// host error carrying the write's own message otherwise.
pub open spec fn export_finish_spec(path: Seq<char>, write_result: Result<(), Seq<char>>) -> Result<
    Seq<char>,
    ErrorView,
> {
    match write_result {
        Ok(_) => Ok(path),
        Err(m) => Err(ErrorView::Host(m)),
    }
}

/// Turns the filesystem write's result into the export operation's answer.
pub fn export_finish(path: String, write_result: Result<(), String>) -> (r: Result<
    String,
    BridgeError,
>)
    ensures
        bridge_result_view(r) == export_finish_spec(path@, unit_result_view(write_result)),
{
    match write_result {
        Ok(_) => Ok(path),
        Err(m) => Err(BridgeError::Host(m)),
    }
}

/// What the import operation does once the open dialog has answered: read the
/// confirmed path, or fail at once.
pub enum ImportPlan {
    Read { path: String },
    Fail { error: BridgeError },
}

/// The mathematical image of an [`ImportPlan`].
pub enum ImportPlanView {
    Read { path: Seq<char> },
    Fail { error: ErrorView },
}

impl View for ImportPlan {
    type V = ImportPlanView;

    open spec fn view(&self) -> ImportPlanView {
        match self {
            ImportPlan::Read { path } => ImportPlanView::Read { path: path@ },
            ImportPlan::Fail { error } => ImportPlanView::Fail { error: error@ },
        }
    }
}

/// The import decision: a dismissal is the cancellation error, an unusable
/// reference is a host error with its message, a confirmed path is a read of
/// that path — whatever its extension.
pub open spec fn import_plan_spec(outcome: OutcomeView) -> ImportPlanView {
    match outcome {
        OutcomeView::Cancelled => ImportPlanView::Fail { error: ErrorView::Cancelled },
        OutcomeView::Unusable(m) => ImportPlanView::Fail { error: ErrorView::Host(m) },
        OutcomeView::Chosen(p) => ImportPlanView::Read { path: p },
    }
}

/// Decides the import operation's next step from the open dialog's outcome.
pub fn import_plan(outcome: DialogOutcome) -> (p: ImportPlan)
    ensures
        p@ == import_plan_spec(outcome@),
{
    match outcome {
        DialogOutcome::Cancelled => ImportPlan::Fail { error: BridgeError::Cancelled },
        DialogOutcome::Unusable(m) => ImportPlan::Fail { error: BridgeError::Host(m) },
        DialogOutcome::Chosen(path) => ImportPlan::Read { path },
    }
}

/// The image of a read's result: the text read, or the message of the
/// decode or filesystem failure.
pub open spec fn read_result_view(r: Result<String, String>) -> Result<Seq<char>, Seq<char>> {
    match r {
        Ok(d) => Ok(d@),
        Err(m) => Err(m@),
    }
}

/// The import answer once the read has run: exactly the text read on success
/// — no transformation — a host error carrying the read's own message
/// otherwise.
pub open spec fn import_finish_spec(read_result: Result<Seq<char>, Seq<char>>) -> Result<
    Seq<char>,
    ErrorView,
> {
    match read_result {
        Ok(d) => Ok(d),
        Err(m) => Err(ErrorView::Host(m)),
    }
}

/// Turns the file read's result into the import operation's answer.
pub fn import_finish(read_result: Result<String, String>) -> (r: Result<String, BridgeError>)
    ensures
        bridge_result_view(r) == import_finish_spec(read_result_view(read_result)),
{
    match read_result {
        Ok(d) => Ok(d),
        Err(m) => Err(BridgeError::Host(m)),
    }
}

/// Cancelling the save dialog yields the cancellation error — never a
/// filesystem or host error — whatever the payload was.
pub proof fn lemma_cancelled_export_is_cancellation(data: Seq<char>)
    ensures
        export_plan_spec(data, OutcomeView::Cancelled) == (ExportPlanView::Fail {
            error: ErrorView::Cancelled,
        }),
{
}

/// Cancelling the open dialog yields the cancellation error — never a decode
/// or host error.
pub proof fn lemma_cancelled_import_is_cancellation()
    ensures
        import_plan_spec(OutcomeView::Cancelled) == (ImportPlanView::Fail {
            error: ErrorView::Cancelled,
        }),
{
}

} // verus!
