//! Running external conversion tools: argument templates, the job's
//! scratch directory, and what a finished process means.
//!
//! Spawning the process, waiting with a timeout and reading the output file's
//! size are done by the caller, which hands the outcome back as a
//! [`ProcessOutcome`].

use vstd::prelude::*;
use crate::paths::{join, parent, path_join, path_parent};
use crate::text::{chars_of, concat2, concat3, decimal, i64_decimal, replace_all, replaced, signed_decimal, string_from_chars, u64_decimal};

verus! {

/// Errors from conversion execution.
#[derive(Debug)]
pub enum ExecutorError {
    /// The conversion command was not found.
    CommandNotFound(String),
    /// The conversion process timed out after the given seconds.
    Timeout(u64),
    /// The conversion process exited unsuccessfully.
    ProcessFailed {
        /// The exit code (`-1` when the process reported none).
        code: i32,
        /// Standard error output, at most 2000 characters.
        stderr: String,
    },
    /// An I/O error, by its message.
    IoError(String),
    /// The expected output file was not created.
    OutputMissing(String),
    /// Invalid conversion parameters.
    InvalidParams(String),
}

/// The message of an executor error.
pub open spec fn executor_error_message(e: ExecutorError) -> Seq<char> {
    match e {
        ExecutorError::CommandNotFound(c) => "Conversion command not found: "@ + c@,
        ExecutorError::Timeout(s) => "Conversion timed out after "@ + decimal(s as nat) + " seconds"@,
        ExecutorError::ProcessFailed { code, stderr } => "Conversion failed with exit code "@
            + signed_decimal(code as int) + ": "@ + stderr@,
        ExecutorError::IoError(m) => "IO error during conversion: "@ + m@,
        ExecutorError::OutputMissing(p) => "Expected output file not created: "@ + p@,
        ExecutorError::InvalidParams(m) => "Invalid conversion parameters: "@ + m@,
    }
}

impl ExecutorError {
    /// The error's message.
    pub fn message(&self) -> (r: String)
        ensures
            r@ == executor_error_message(*self),
    {
        match self {
            ExecutorError::CommandNotFound(c) => concat2("Conversion command not found: ", c.as_str()),
            ExecutorError::Timeout(s) => {
                let n = u64_decimal(*s);
                concat3("Conversion timed out after ", n.as_str(), " seconds")
            },
            ExecutorError::ProcessFailed { code, stderr } => {
                let n = i64_decimal(*code as i64);
                let head = concat3("Conversion failed with exit code ", n.as_str(), ": ");
                concat2(head.as_str(), stderr.as_str())
            },
            ExecutorError::IoError(m) => concat2("IO error during conversion: ", m.as_str()),
            ExecutorError::OutputMissing(p) => concat2("Expected output file not created: ", p.as_str()),
            ExecutorError::InvalidParams(m) => concat2("Invalid conversion parameters: ", m.as_str()),
        }
    }
}

/// Result of a conversion execution.
#[derive(Debug)]
pub struct ExecutionResult {
    /// Whether the conversion succeeded.
    pub success: bool,
    /// Path to the output file, when it exists.
    pub output_path: Option<String>,
    /// Standard output from the process.
    pub stdout: String,
    /// Standard error from the process.
    pub stderr: String,
    /// Exit code.
    pub exit_code: Option<i32>,
    /// Duration of the conversion in milliseconds.
    pub duration_ms: u64,
    /// Output file size in bytes.
    pub output_size: Option<u64>,
}

/// Parameters for executing a conversion.
#[derive(Debug)]
pub struct ExecutionParams {
    /// The command to execute.
    pub command: String,
    /// Arguments, after placeholder substitution.
    pub args: Vec<String>,
    /// Working directory.
    pub working_dir: Option<String>,
    /// Environment variables to set, as name and value.
    pub env_vars: Vec<(String, String)>,
    /// Timeout in seconds.
    pub timeout_seconds: u64,
    /// Path to the input file.
    pub input_path: String,
    /// Path where output should be written.
    pub output_path: String,
}

/// How a conversion process ended, as the caller observed it.
#[derive(Debug)]
pub enum ProcessOutcome {
    /// The process ran to completion.
    Exited {
        /// Whether its exit status was success.
        success: bool,
        /// Its exit code, if it reported one.
        code: Option<i32>,
        /// Its standard output, decoded lossily.
        stdout: String,
        /// Its standard error, decoded lossily.
        stderr: String,
        /// Size of the output file after a successful exit, if it exists.
        output_size: Option<u64>,
    },
    /// The process could not be started or waited for.
    SpawnFailed(String),
    /// The timeout elapsed first.
    TimedOut,
}

/// The first `n` characters of `s` (all of it when shorter).
pub open spec fn prefix_chars(s: Seq<char>, n: nat) -> Seq<char> {
    if s.len() <= n {
        s
    } else {
        s.take(n as int)
    }
}

/// Maximum number of standard-error characters kept in a failure.
pub const STDERR_LIMIT: usize = 2000;

/// The first `n` characters of a string.
pub fn take_chars(s: &str, n: usize) -> (r: String)
    ensures
        r@ == prefix_chars(s@, n as nat),
{
    let v = chars_of(s);
    if v.len() <= n {
        return string_from_chars(v.as_slice());
    }
    let mut out: Vec<char> = Vec::new();
    let mut i: usize = 0;
    while i < n
        invariant
            i <= n,
            n < v@.len(),
            out@ == v@.take(i as int),
        decreases n - i,
    {
        out.push(v[i]);
        assert(v@.take(i + 1) =~= v@.take(i as int).push(v@[i as int]));
        i = i + 1;
    }
    string_from_chars(out.as_slice())
}

/// What a finished process means for the conversion.
pub open spec fn outcome_verdict(
    timeout_seconds: u64,
    output_path: Seq<char>,
    outcome: ProcessOutcome,
    duration_ms: u64,
) -> Result<(bool, Option<Seq<char>>, Seq<char>, Seq<char>, Option<i32>, u64, Option<u64>), ExecutorErrorView> {
    match outcome {
        ProcessOutcome::Exited { success, code, stdout, stderr, output_size } => {
            if !success {
                Err(ExecutorErrorView::ProcessFailed {
                    code: match code {
                        Some(c) => c,
                        None => -1i32,
                    },
                    stderr: prefix_chars(stderr@, STDERR_LIMIT as nat),
                })
            } else {
                Ok((
                    true,
                    if output_size is Some { Some(output_path) } else { None },
                    stdout@,
                    stderr@,
                    code,
                    duration_ms,
                    output_size,
                ))
            }
        },
        ProcessOutcome::SpawnFailed(m) => Err(ExecutorErrorView::IoError(m@)),
        ProcessOutcome::TimedOut => Err(ExecutorErrorView::Timeout(timeout_seconds)),
    }
}

/// An executor error with its texts as character sequences.
pub enum ExecutorErrorView {
    CommandNotFound(Seq<char>),
    Timeout(u64),
    ProcessFailed { code: i32, stderr: Seq<char> },
    IoError(Seq<char>),
    OutputMissing(Seq<char>),
    InvalidParams(Seq<char>),
}

impl View for ExecutorError {
    type V = ExecutorErrorView;

    open spec fn view(&self) -> ExecutorErrorView {
        match self {
            ExecutorError::CommandNotFound(c) => ExecutorErrorView::CommandNotFound(c@),
            ExecutorError::Timeout(s) => ExecutorErrorView::Timeout(*s),
            ExecutorError::ProcessFailed { code, stderr } => ExecutorErrorView::ProcessFailed {
                code: *code,
                stderr: stderr@,
            },
            ExecutorError::IoError(m) => ExecutorErrorView::IoError(m@),
            ExecutorError::OutputMissing(p) => ExecutorErrorView::OutputMissing(p@),
            ExecutorError::InvalidParams(m) => ExecutorErrorView::InvalidParams(m@),
        }
    }
}

impl ExecutionResult {
    /// The result's fields, texts as character sequences.
    pub open spec fn fields(&self) -> (bool, Option<Seq<char>>, Seq<char>, Seq<char>, Option<i32>, u64, Option<u64>) {
        (
            self.success,
            match self.output_path {
                Some(p) => Some(p@),
                None => None,
            },
            self.stdout@,
            self.stderr@,
            self.exit_code,
            self.duration_ms,
            self.output_size,
        )
    }
}

/// Turns the outcome of a conversion process into the execution's result.
pub fn interpret_outcome(params: &ExecutionParams, outcome: ProcessOutcome, duration_ms: u64) -> (r: Result<ExecutionResult, ExecutorError>)
    ensures
        match (r, outcome_verdict(params.timeout_seconds, params.output_path@, outcome, duration_ms)) {
            (Ok(res), Ok(v)) => res.fields() == v,
            (Err(e), Err(v)) => e@ == v,
            _ => false,
        },
{
    match outcome {
        ProcessOutcome::Exited { success, code, stdout, stderr, output_size } => {
            if !success {
                let c: i32 = match code {
                    Some(c) => c,
                    None => -1,
                };
                let kept = take_chars(stderr.as_str(), STDERR_LIMIT);
                Err(ExecutorError::ProcessFailed { code: c, stderr: kept })
            } else {
                let output_path = match output_size {
                    Some(_) => Some(params.output_path.clone()),
                    None => None,
                };
                Ok(ExecutionResult {
                    success: true,
                    output_path,
                    stdout,
                    stderr,
                    exit_code: code,
                    duration_ms,
                    output_size,
                })
            }
        },
        ProcessOutcome::SpawnFailed(m) => Err(ExecutorError::IoError(m)),
        ProcessOutcome::TimedOut => Err(ExecutorError::Timeout(params.timeout_seconds)),
    }
}

/// One template argument with its placeholders filled in, in this order:
/// `{input}`, `{output}`, `{format}`, `{input_dir}`, `{output_dir}`.
pub open spec fn substituted(
    arg: Seq<char>,
    input: Seq<char>,
    output: Seq<char>,
    format: Seq<char>,
    input_dir: Seq<char>,
    output_dir: Seq<char>,
) -> Seq<char> {
    replaced(
        replaced(
            replaced(replaced(replaced(arg, "{input}"@, input), "{output}"@, output), "{format}"@, format),
            "{input_dir}"@,
            input_dir,
        ),
        "{output_dir}"@,
        output_dir,
    )
}

/// The parent directory of a path as a string; empty when it has none.
pub open spec fn parent_or_empty(p: Seq<char>) -> Seq<char> {
    match parent(p) {
        Some(d) => d,
        None => Seq::empty(),
    }
}

/// Name of the scratch area under the executor's temporary directory.
pub open spec fn scratch_area() -> Seq<char> {
    "cad_conversion"@
}

/// Executor for running external conversion commands.
#[derive(Debug)]
pub struct ConversionExecutor {
    /// Base directory for temporary conversion files.
    temp_dir: String,
}

impl ConversionExecutor {
    /// The base directory for temporary files.
    pub closed spec fn temp_dir_view(&self) -> Seq<char> {
        self.temp_dir@
    }

    /// Creates an executor over a base temporary directory.
    pub fn new(temp_dir: String) -> (r: Self)
        ensures
            r.temp_dir_view() == temp_dir@,
    {
        ConversionExecutor { temp_dir }
    }

    /// The base temporary directory.
    pub fn temp_dir(&self) -> (r: &str)
        ensures
            r@ == self.temp_dir_view(),
    {
        self.temp_dir.as_str()
    }

    /// The scratch directory of one job: `<temp_dir>/cad_conversion/<job_id>`.
    pub fn job_temp_dir(&self, job_id: &str) -> (r: String)
        ensures
            r@ == join(join(self.temp_dir_view(), scratch_area()), job_id@),
    {
        let area = path_join(self.temp_dir.as_str(), "cad_conversion");
        proof {
            reveal_strlit("cad_conversion");
        }
        path_join(area.as_str(), job_id)
    }

    /// Fills the placeholders of every template argument.
    pub fn substitute_args(&self, template_args: &Vec<String>, input_path: &str, output_path: &str, format: &str) -> (r: Vec<String>)
        ensures
            r@.len() == template_args@.len(),
            forall|i: int| 0 <= i < r@.len() ==> #[trigger] r@[i]@ == substituted(
                template_args@[i]@,
                input_path@,
                output_path@,
                format@,
                parent_or_empty(input_path@),
                parent_or_empty(output_path@),
            ),
    {
        let input_dir = match path_parent(input_path) {
            Some(d) => d,
            None => String::new(),
        };
        let output_dir = match path_parent(output_path) {
            Some(d) => d,
            None => String::new(),
        };
        proof {
            reveal_strlit("{input}");
            reveal_strlit("{output}");
            reveal_strlit("{format}");
            reveal_strlit("{input_dir}");
            reveal_strlit("{output_dir}");
        }
        let mut out: Vec<String> = Vec::new();
        let mut i: usize = 0;
        while i < template_args.len()
            invariant
                i <= template_args@.len(),
                out@.len() == i,
                input_dir@ == parent_or_empty(input_path@),
                output_dir@ == parent_or_empty(output_path@),
                "{input}"@.len() > 0,
                "{output}"@.len() > 0,
                "{format}"@.len() > 0,
                "{input_dir}"@.len() > 0,
                "{output_dir}"@.len() > 0,
                forall|k: int| 0 <= k < i ==> #[trigger] out@[k]@ == substituted(
                    template_args@[k]@,
                    input_path@,
                    output_path@,
                    format@,
                    input_dir@,
                    output_dir@,
                ),
            decreases template_args@.len() - i,
        {
            let a = replace_all(template_args[i].as_str(), "{input}", input_path);
            let b = replace_all(a.as_str(), "{output}", output_path);
            let c = replace_all(b.as_str(), "{format}", format);
            let d = replace_all(c.as_str(), "{input_dir}", input_dir.as_str());
            let e = replace_all(d.as_str(), "{output_dir}", output_dir.as_str());
            out.push(e);
            i = i + 1;
        }
        out
    }
}

/// The program that locates a command on the search path: `where` on
/// Windows, `which` elsewhere.
pub fn command_locator(windows: bool) -> (r: &'static str)
    ensures
        r@ == (if windows { "where"@ } else { "which"@ }),
{
    if windows {
        "where"
    } else {
        "which"
    }
}

/// The directory to create before running, if the output path has a parent.
pub fn output_parent_dir(params: &ExecutionParams) -> (r: Option<String>)
    ensures
        match r {
            Some(d) => parent(params.output_path@) == Some(d@),
            None => parent(params.output_path@) is None,
        },
{
    path_parent(params.output_path.as_str())
}

} // verus!
