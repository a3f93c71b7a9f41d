//! A model of the filesystem, and the round-trip law of export and import.
//!
//! The host's filesystem is modelled as the map from each path to the text
//! it holds. A successful write replaces a path's content wholesale — the
//! operation overwrites, with no staging — and a read returns a path's
//! content exactly when the path holds one.

use vstd::prelude::*;

use crate::dialog::{
    export_finish_spec, export_plan_spec, import_finish_spec, import_plan_spec, ExportPlanView,
    ImportPlanView, OutcomeView,
};
use crate::error::ErrorView;

verus! {

/// The filesystem after a write: the path now holds exactly the text
/// written, and every other path is untouched.
pub open spec fn fs_write(
    fs: Map<Seq<char>, Seq<char>>,
    path: Seq<char>,
    data: Seq<char>,
) -> Map<Seq<char>, Seq<char>> {
    fs.insert(path, data)
}

/// What a read of a path returns: its content, where the path holds one.
pub open spec fn fs_read(fs: Map<Seq<char>, Seq<char>>, path: Seq<char>) -> Option<Seq<char>> {
    if fs.contains_key(path) {
        Some(fs[path])
    } else {
        None
    }
}

/// Round-trip fidelity. For every payload, every filesystem and every path
/// the user confirms: the export operation plans a write of exactly the
/// payload to exactly that path; a successful write makes the export answer
/// that path; the path then holds the payload byte for byte; and an import
/// that reads the same path answers exactly the payload, untransformed.
pub proof fn lemma_export_import_round_trip(
    fs: Map<Seq<char>, Seq<char>>,
    data: Seq<char>,
    path: Seq<char>,
)
    ensures
        ({
            let plan = export_plan_spec(data, OutcomeView::Chosen(path));
            let written = fs_write(fs, path, data);
            &&& plan == (ExportPlanView::Write { path: path, data: data })
            &&& export_finish_spec(path, Ok(())) == Result::<Seq<char>, ErrorView>::Ok(path)
            &&& fs_read(written, path) == Some(data)
            &&& import_plan_spec(OutcomeView::Chosen(path)) == (ImportPlanView::Read {
                path: path,
            })
            &&& import_finish_spec(Ok(data)) == Result::<Seq<char>, ErrorView>::Ok(data)
        }),
{
}

} // verus!
