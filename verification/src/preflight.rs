//! Preflight decisions: input-format recognition, overwrite policy,
//! thread-count validation, mode selection, and the combined run plan.
//!
//! Every function here is a pure decision from plain values. The
//! surrounding program performs the file-system probes and the
//! core-count detection and hands the results in; a returned error is
//! fatal before any stream is opened.

use vstd::prelude::*;

use crate::tables::BinMode;
use crate::threads::{ThreadBudget, thread_split};

verus! {

/// The two recognized input container formats, told apart by the path's
/// file extension.
#[derive(Clone, Copy, Debug, PartialEq, Eq, Structural)]
pub enum InputFormat {
    Bam,
    Cram,
}

/// What is at the output path before the run.
#[derive(Clone, Copy, Debug, PartialEq, Eq, Structural)]
pub enum OutputDisposition {
    /// Nothing exists at the output path; it will be created.
    Fresh,
    /// A file exists at the output path and will be overwritten.
    Overwrite,
}

/// A preflight rejection. Each one is fatal and reported before any
/// record is touched.
#[derive(Clone, Copy, Debug, PartialEq, Eq, Structural)]
pub enum PreflightError {
    /// The input file does not exist.
    MissingInput,
    /// The input path ends in neither `.bam` nor `.cram`.
    UnrecognizedExtension,
    /// The output path exists and the no-overwrite option was set.
    OutputExists,
    /// A thread count of zero was requested.
    ZeroThreads,
    /// The requested thread count exceeds the machine's core count.
    ThreadsExceedMachine,
}

/// The path's bytes end in a `.bam` extension with a non-empty file
/// stem: the byte before the suffix exists and is not a path
/// separator. A file whose whole name is the dotted suffix (a hidden
/// file such as `.bam`) has no extension and is not recognized.
pub open spec fn is_bam_path(p: Seq<u8>) -> bool {
    &&& p.len() >= 5
    &&& p[p.len() - 5] != 47u8
    &&& p[p.len() - 4] == 46u8
    &&& p[p.len() - 3] == 98u8
    &&& p[p.len() - 2] == 97u8
    &&& p[p.len() - 1] == 109u8
}

/// The path's bytes end in a `.cram` extension with a non-empty file
/// stem, as in `is_bam_path`.
pub open spec fn is_cram_path(p: Seq<u8>) -> bool {
    &&& p.len() >= 6
    &&& p[p.len() - 6] != 47u8
    &&& p[p.len() - 5] == 46u8
    &&& p[p.len() - 4] == 99u8
    &&& p[p.len() - 3] == 114u8
    &&& p[p.len() - 2] == 97u8
    &&& p[p.len() - 1] == 109u8
}

/// The format a recognized path names; unrecognized paths have none.
pub open spec fn format_of_path(p: Seq<u8>) -> Option<InputFormat> {
    if is_cram_path(p) {
        Some(InputFormat::Cram)
    } else if is_bam_path(p) {
        Some(InputFormat::Bam)
    } else {
        None
    }
}

/// Recognize the input container format from the path's bytes: a
/// `.cram` extension means CRAM, a `.bam` extension means BAM, and
/// anything else — a foreign suffix, or a file name that is nothing
/// but the dotted suffix — is rejected.
pub fn classify_input(path: &Vec<u8>) -> (r: Result<InputFormat, PreflightError>)
    ensures
        r matches Ok(f) ==> format_of_path(path@) == Some(f),
        r matches Err(e) ==> e == PreflightError::UnrecognizedExtension
            && format_of_path(path@) is None,
{
    let n = path.len();
    if n >= 6 && path[n - 6] != 47u8 && path[n - 5] == 46u8 && path[n - 4] == 99u8
        && path[n - 3] == 114u8 && path[n - 2] == 97u8 && path[n - 1] == 109u8 {
        Ok(InputFormat::Cram)
    } else if n >= 5 && path[n - 5] != 47u8 && path[n - 4] == 46u8 && path[n - 3] == 98u8
        && path[n - 2] == 97u8 && path[n - 1] == 109u8 {
        Ok(InputFormat::Bam)
    } else {
        Err(PreflightError::UnrecognizedExtension)
    }
}

/// Decide what happens at the output path: reject a pre-existing file
/// when the no-overwrite option is set, otherwise overwrite it; a fresh
/// path is simply written.
pub fn output_disposition(output_exists: bool, no_overwrite: bool) -> (r: Result<
    OutputDisposition,
    PreflightError,
>)
    ensures
        output_exists && no_overwrite ==> r == Err::<OutputDisposition, PreflightError>(
            PreflightError::OutputExists,
        ),
        output_exists && !no_overwrite ==> r == Ok::<OutputDisposition, PreflightError>(
            OutputDisposition::Overwrite,
        ),
        !output_exists ==> r == Ok::<OutputDisposition, PreflightError>(
            OutputDisposition::Fresh,
        ),
{
    if output_exists {
        if no_overwrite {
            Err(PreflightError::OutputExists)
        } else {
            Ok(OutputDisposition::Overwrite)
        }
    } else {
        Ok(OutputDisposition::Fresh)
    }
}

/// Validate the requested thread count against the machine's detected
/// core count: zero is rejected, and so is a request above the machine.
pub fn validate_thread_count(requested: usize, machine_cores: usize) -> (r: Result<
    (),
    PreflightError,
>)
    ensures
        requested == 0 ==> r == Err::<(), PreflightError>(PreflightError::ZeroThreads),
        requested >= 1 && requested > machine_cores ==> r == Err::<(), PreflightError>(
            PreflightError::ThreadsExceedMachine,
        ),
        1 <= requested <= machine_cores ==> r is Ok,
{
    if requested == 0 {
        Err(PreflightError::ZeroThreads)
    } else if requested > machine_cores {
        Err(PreflightError::ThreadsExceedMachine)
    } else {
        Ok(())
    }
}

/// Resolve the run-wide binning mode from the counting flag: any
/// occurrence selects the fine table, absence the coarse default.
pub fn select_mode(fine_flag_count: u8) -> (m: BinMode)
    ensures
        m == (if fine_flag_count >= 1 {
            BinMode::Fine
        } else {
            BinMode::Coarse
        }),
{
    if fine_flag_count >= 1 {
        BinMode::Fine
    } else {
        BinMode::Coarse
    }
}

/// Everything the stream needs, decided once before it starts.
#[derive(Clone, Copy, Debug, PartialEq, Eq, Structural)]
pub struct RunPlan {
    /// The recognized input container format.
    pub format: InputFormat,
    /// What happens at the output path.
    pub disposition: OutputDisposition,
    /// The per-codec thread budget.
    pub budget: ThreadBudget,
    /// The binning table the whole run uses.
    pub mode: BinMode,
}

/// Run every preflight check in order — input presence, input
/// extension, output collision, thread count — and, if all pass, build
/// the run plan. The first failing check decides the error.
pub fn preflight(
    input_exists: bool,
    input_path: &Vec<u8>,
    output_exists: bool,
    no_overwrite: bool,
    requested_threads: usize,
    machine_cores: usize,
    fine_flag_count: u8,
) -> (r: Result<RunPlan, PreflightError>)
    ensures
        !input_exists ==> r == Err::<RunPlan, PreflightError>(PreflightError::MissingInput),
        input_exists && format_of_path(input_path@) is None ==> r == Err::<
            RunPlan,
            PreflightError,
        >(PreflightError::UnrecognizedExtension),
        input_exists && format_of_path(input_path@) is Some && output_exists && no_overwrite
            ==> r == Err::<RunPlan, PreflightError>(PreflightError::OutputExists),
        input_exists && format_of_path(input_path@) is Some && !(output_exists && no_overwrite)
            && requested_threads == 0 ==> r == Err::<RunPlan, PreflightError>(
            PreflightError::ZeroThreads,
        ),
        input_exists && format_of_path(input_path@) is Some && !(output_exists && no_overwrite)
            && requested_threads > machine_cores ==> r == Err::<RunPlan, PreflightError>(
            PreflightError::ThreadsExceedMachine,
        ),
        input_exists && format_of_path(input_path@) is Some && !(output_exists && no_overwrite)
            && 1 <= requested_threads <= machine_cores ==> r is Ok,
        r matches Ok(plan) ==> {
            &&& input_exists
            &&& format_of_path(input_path@) == Some(plan.format)
            &&& !(output_exists && no_overwrite)
            &&& 1 <= requested_threads <= machine_cores
            &&& plan.disposition == (if output_exists {
                OutputDisposition::Overwrite
            } else {
                OutputDisposition::Fresh
            })
            &&& requested_threads < 2 ==> plan.budget.input == 0 && plan.budget.output == 0
            &&& requested_threads >= 2 ==> plan.budget.input == requested_threads as int / 2
                && plan.budget.output == requested_threads - requested_threads as int / 2
            &&& plan.mode == (if fine_flag_count >= 1 {
                BinMode::Fine
            } else {
                BinMode::Coarse
            })
        },
{
    if !input_exists {
        return Err(PreflightError::MissingInput);
    }
    let format = match classify_input(input_path) {
        Ok(f) => f,
        Err(e) => { return Err(e); },
    };
    let disposition = match output_disposition(output_exists, no_overwrite) {
        Ok(d) => d,
        Err(e) => { return Err(e); },
    };
    match validate_thread_count(requested_threads, machine_cores) {
        Ok(_) => {},
        Err(e) => { return Err(e); },
    }
    let budget = thread_split(requested_threads);
    let mode = select_mode(fine_flag_count);
    Ok(RunPlan { format, disposition, budget, mode })
}

} // verus!
