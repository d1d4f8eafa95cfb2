use vstd::prelude::*;

verus! {

/// The stages of one export run, in the order they must happen; any stage
/// can fail, and failure aborts the rest of the run.
#[derive(Clone, Copy, Debug, PartialEq, Eq, Structural)]
pub enum ExportState {
    Connecting,
    Describing,
    Fetching,
    Encoding,
    Writing,
    Done,
    Failed,
}

/// One export transition: success moves to the next stage in order,
/// failure moves to `Failed`, and `Done` and `Failed` absorb every event.
pub open spec fn export_next(s: ExportState, ok: bool) -> ExportState {
    if s == ExportState::Done {
        ExportState::Done
    } else if s == ExportState::Failed {
        ExportState::Failed
    } else if !ok {
        ExportState::Failed
    } else {
        match s {
            ExportState::Connecting => ExportState::Describing,
            ExportState::Describing => ExportState::Fetching,
            ExportState::Fetching => ExportState::Encoding,
            ExportState::Encoding => ExportState::Writing,
            ExportState::Writing => ExportState::Done,
            _ => s,
        }
    }
}

/// Advances one export run by the outcome of its current stage.
pub fn export_advance(s: ExportState, ok: bool) -> (r: ExportState)
    ensures
        r == export_next(s, ok),
{
    if matches!(s, ExportState::Done) {
        ExportState::Done
    } else if matches!(s, ExportState::Failed) {
        ExportState::Failed
    } else if !ok {
        ExportState::Failed
    } else {
        match s {
            ExportState::Connecting => ExportState::Describing,
            ExportState::Describing => ExportState::Fetching,
            ExportState::Fetching => ExportState::Encoding,
            ExportState::Encoding => ExportState::Writing,
            ExportState::Writing => ExportState::Done,
            _ => s,
        }
    }
}

/// A run that succeeds at every stage walks the export order and ends
/// `Done` after exactly the five stages; `Done` and `Failed` are final.
pub proof fn lemma_export_run()
    ensures
        export_next(
            export_next(
                export_next(
                    export_next(export_next(ExportState::Connecting, true), true),
                    true,
                ),
                true,
            ),
            true,
        ) == ExportState::Done,
        forall|ok: bool| export_next(ExportState::Done, ok) == ExportState::Done,
        forall|ok: bool| export_next(ExportState::Failed, ok) == ExportState::Failed,
        forall|s: ExportState|
            s != ExportState::Done && s != ExportState::Failed ==> export_next(s, false)
                == ExportState::Failed,
{
}

/// The stages of one import run: discovery once, then per file its four
/// stages in order, then on to the next file or done.
#[derive(Clone, Copy, Debug, PartialEq, Eq, Structural)]
pub enum ImportState {
    Discovering,
    ReadingSchema,
    BuildingDdl,
    DecodingRows,
    Inserting,
    Done,
    Failed,
}

/// Where a failed file sends the run: with `abort_on_error` the whole run
/// fails; otherwise the file is skipped and the run moves to the next file,
/// or is done when none is left.
pub open spec fn import_file_failed(files_left: bool, abort_on_error: bool) -> ImportState {
    if abort_on_error {
        ImportState::Failed
    } else if files_left {
        ImportState::ReadingSchema
    } else {
        ImportState::Done
    }
}

/// One import transition: discovery failure always fails the run; inside a
/// file, success walks the file's stages, a finished file moves to the next
/// file or done, and a file's failure is skipped or aborts per policy.
pub open spec fn import_next(
    s: ImportState,
    ok: bool,
    files_left: bool,
    abort_on_error: bool,
) -> ImportState {
    match s {
        ImportState::Done => ImportState::Done,
        ImportState::Failed => ImportState::Failed,
        ImportState::Discovering => if !ok {
            ImportState::Failed
        } else if files_left {
            ImportState::ReadingSchema
        } else {
            ImportState::Done
        },
        ImportState::ReadingSchema => if ok {
            ImportState::BuildingDdl
        } else {
            import_file_failed(files_left, abort_on_error)
        },
        ImportState::BuildingDdl => if ok {
            ImportState::DecodingRows
        } else {
            import_file_failed(files_left, abort_on_error)
        },
        ImportState::DecodingRows => if ok {
            ImportState::Inserting
        } else {
            import_file_failed(files_left, abort_on_error)
        },
        ImportState::Inserting => if ok && files_left {
            ImportState::ReadingSchema
        } else if ok {
            ImportState::Done
        } else {
            import_file_failed(files_left, abort_on_error)
        },
    }
}

/// Advances one import run by the outcome of its current stage.
pub fn import_advance(s: ImportState, ok: bool, files_left: bool, abort_on_error: bool) -> (r:
    ImportState)
    ensures
        r == import_next(s, ok, files_left, abort_on_error),
{
    match s {
        ImportState::Done => ImportState::Done,
        ImportState::Failed => ImportState::Failed,
        ImportState::Discovering => if !ok {
            ImportState::Failed
        } else if files_left {
            ImportState::ReadingSchema
        } else {
            ImportState::Done
        },
        ImportState::ReadingSchema => if ok {
            ImportState::BuildingDdl
        } else if abort_on_error {
            ImportState::Failed
        } else if files_left {
            ImportState::ReadingSchema
        } else {
            ImportState::Done
        },
        ImportState::BuildingDdl => if ok {
            ImportState::DecodingRows
        } else if abort_on_error {
            ImportState::Failed
        } else if files_left {
            ImportState::ReadingSchema
        } else {
            ImportState::Done
        },
        ImportState::DecodingRows => if ok {
            ImportState::Inserting
        } else if abort_on_error {
            ImportState::Failed
        } else if files_left {
            ImportState::ReadingSchema
        } else {
            ImportState::Done
        },
        ImportState::Inserting => if ok && files_left {
            ImportState::ReadingSchema
        } else if ok {
            ImportState::Done
        } else if abort_on_error {
            ImportState::Failed
        } else if files_left {
            ImportState::ReadingSchema
        } else {
            ImportState::Done
        },
    }
}

/// Within one file the table definition strictly precedes the data: the
/// only stage that can step into `Inserting` is `DecodingRows` succeeding,
/// and the only stage that can step into `DecodingRows` is `BuildingDdl`
/// succeeding, so no insert ever runs before the table stands.
pub proof fn lemma_ddl_before_insert()
    ensures
        forall|s: ImportState, ok: bool, fl: bool, abort: bool|
            #[trigger] import_next(s, ok, fl, abort) == ImportState::Inserting ==> s
                == ImportState::DecodingRows && ok,
        forall|s: ImportState, ok: bool, fl: bool, abort: bool|
            #[trigger] import_next(s, ok, fl, abort) == ImportState::DecodingRows ==> s
                == ImportState::BuildingDdl && ok,
{
}

/// Without `abort_on_error`, no file failure past discovery ends the run
/// in `Failed`: the run skips the file and goes on, so one bad file never
/// costs the rest.
pub proof fn lemma_import_skips_bad_files()
    ensures
        forall|s: ImportState, files_left: bool|
            s != ImportState::Discovering && s != ImportState::Failed ==> #[trigger] import_next(
                s,
                false,
                files_left,
                false,
            ) != ImportState::Failed,
{
}

} // verus!
