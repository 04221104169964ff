//! The conversion processor's decisions: how inputs are split, how a
//! Jupiter run is judged and retried, and how an output is accepted.
//!
//! Spawning Jupiter, waiting on it, sleeping between attempts and reading
//! the file system are done by the caller, which hands back what it saw.

use vstd::prelude::*;
use std::time::Duration;
use crate::config::ConversionConfig;
use crate::error::ConversionError;
use crate::filesystem::{FsUtils, filename_or_unknown, sanitized_stem, unique_name};
use crate::metrics::{ConversionMetrics, MetricCounters, MetricsSnapshot, percentiles_of, window_after, wrapped_sum};
use crate::models::{ConversionInput, ConversionOptions, ConversionResult, FileType, is_vtfx, primary_name_spec};
use crate::paths::{join, parent, path_join};

verus! {

/// How a Jupiter run ended, as the caller observed it.
#[derive(Debug)]
pub enum JupiterExit {
    /// The process ran to completion.
    Exited {
        /// Whether its exit status was success.
        success: bool,
        /// Its exit code, if it reported one.
        code: Option<i32>,
        /// Captured standard output (empty when not captured).
        stdout: String,
        /// Captured standard error (empty when not captured).
        stderr: String,
    },
    /// The process could not be started or waited for; the I/O message.
    SpawnFailed(String),
    /// The timeout elapsed first; the process was killed.
    TimedOut,
    /// The job was cancelled first; the process was killed.
    Cancelled,
}

/// What the file system reports for an expected output file.
#[derive(Debug)]
pub enum OutputProbe {
    /// No file at the path.
    Missing,
    /// The file exists but its metadata could not be read; the I/O message.
    Unreadable(String),
    /// The file exists with this many bytes.
    Present(u64),
}

/// The size of an output the probe shows acceptable: present with at least
/// `min` bytes.
pub open spec fn accepted_size(probe: OutputProbe, min: u64) -> Option<u64> {
    match probe {
        OutputProbe::Present(size) => if size >= min { Some(size) } else { None },
        _ => None,
    }
}

/// The error an unacceptable output is refused with.
pub open spec fn rejected_output(e: ConversionError, output_path: Seq<char>, probe: OutputProbe) -> bool {
    match probe {
        OutputProbe::Missing => e matches ConversionError::OutputNotCreated { path } && path@ == output_path,
        OutputProbe::Unreadable(m) => e matches ConversionError::Io(msg) && msg@ == m@,
        OutputProbe::Present(_) => e matches ConversionError::OutputEmpty { path } && path@ == output_path,
    }
}

/// How far a conversion job's pipeline has got.
#[derive(Debug, Clone, Copy, PartialEq, Eq, Structural)]
pub enum PipelineStage {
    /// Nothing has been done yet.
    Start,
    /// The inputs are resolved: this many VTFx and this many CAD inputs.
    Resolved { vtfx: usize, cad: usize },
    /// The VTFx inputs are done; this many CAD inputs remain.
    VtfxDone { cad: usize },
    /// The CAD inputs are done.
    CadDone,
}

/// What the pipeline does next.
#[derive(Debug, Clone, Copy, PartialEq, Eq, Structural)]
pub enum PipelineAction {
    /// Stop: the job was cancelled.
    Cancel,
    /// Resolve the inputs.
    Resolve,
    /// Stop with no results: nothing processable was found.
    NothingToDo,
    /// Pass the VTFx inputs through.
    ProcessVtfx,
    /// Convert the CAD inputs.
    ProcessCad,
    /// Clean up and return the results gathered.
    Finish,
}

/// The next action of a conversion job's pipeline. Cancellation is checked
/// before the inputs are resolved and before each batch of work; VTFx inputs
/// go before CAD inputs; an empty resolution ends the job with no results.
pub fn pipeline_next(stage: PipelineStage, cancelled: bool) -> (r: PipelineAction)
    ensures
        match stage {
            PipelineStage::Start => r == if cancelled { PipelineAction::Cancel } else { PipelineAction::Resolve },
            PipelineStage::Resolved { vtfx, cad } => r == if vtfx == 0 && cad == 0 {
                PipelineAction::NothingToDo
            } else if cancelled {
                PipelineAction::Cancel
            } else if vtfx > 0 {
                PipelineAction::ProcessVtfx
            } else {
                PipelineAction::ProcessCad
            },
            PipelineStage::VtfxDone { cad } => r == if cad == 0 {
                PipelineAction::Finish
            } else if cancelled {
                PipelineAction::Cancel
            } else {
                PipelineAction::ProcessCad
            },
            PipelineStage::CadDone => r == PipelineAction::Finish,
        },
        cancelled ==> !(r is Resolve || r is ProcessVtfx || r is ProcessCad),
{
    match stage {
        PipelineStage::Start => if cancelled {
            PipelineAction::Cancel
        } else {
            PipelineAction::Resolve
        },
        PipelineStage::Resolved { vtfx, cad } => if vtfx == 0 && cad == 0 {
            PipelineAction::NothingToDo
        } else if cancelled {
            PipelineAction::Cancel
        } else if vtfx > 0 {
            PipelineAction::ProcessVtfx
        } else {
            PipelineAction::ProcessCad
        },
        PipelineStage::VtfxDone { cad } => if cad == 0 {
            PipelineAction::Finish
        } else if cancelled {
            PipelineAction::Cancel
        } else {
            PipelineAction::ProcessCad
        },
        PipelineStage::CadDone => PipelineAction::Finish,
    }
}

/// What to do next in a Jupiter run with retries.
#[derive(Debug)]
pub enum RetryStep {
    /// Run attempt `attempt` (counting from 0), after waiting `delay_seconds`.
    Run { attempt: u64, delay_seconds: u64 },
    /// Stop with this result.
    Done(Result<(), ConversionError>),
}

/// The state of a Jupiter run with retries.
#[derive(Debug)]
pub struct JupiterRetry {
    next_attempt: u64,
    max_retries: u32,
    retry_delay_seconds: u64,
    timeout_seconds: u64,
    last_error: Option<ConversionError>,
}

impl JupiterRetry {
    /// Index of the next attempt to begin.
    pub closed spec fn next_attempt(&self) -> u64 {
        self.next_attempt
    }

    /// Retries allowed after the first attempt.
    pub closed spec fn max_retries(&self) -> u32 {
        self.max_retries
    }

    /// Seconds to wait before every attempt but the first.
    pub closed spec fn retry_delay_seconds(&self) -> u64 {
        self.retry_delay_seconds
    }

    /// The timeout reported when an attempt times out.
    pub closed spec fn timeout_seconds(&self) -> u64 {
        self.timeout_seconds
    }

    /// The error of the last failed attempt, if any.
    pub closed spec fn last_error(&self) -> Option<ConversionError> {
        self.last_error
    }

    #[verifier::type_invariant]
    spec fn attempts_bounded(&self) -> bool {
        self.next_attempt <= self.max_retries + 1
    }

    /// A fresh run: no attempt begun yet.
    pub fn new(max_retries: u32, retry_delay_seconds: u64, timeout_seconds: u64) -> (r: Self)
        ensures
            r.next_attempt() == 0,
            r.max_retries() == max_retries,
            r.retry_delay_seconds() == retry_delay_seconds,
            r.timeout_seconds() == timeout_seconds,
            r.last_error() is None,
    {
        JupiterRetry { next_attempt: 0, max_retries, retry_delay_seconds, timeout_seconds, last_error: None }
    }

    /// The number of attempts begun never exceeds one more than the retries.
    pub fn attempts_begun(&self) -> (r: u64)
        ensures
            r == self.next_attempt(),
            r <= self.max_retries() + 1,
    {
        proof {
            use_type_invariant(self);
        }
        self.next_attempt
    }
}

/// Whether an error is a timeout of the Jupiter process.
pub open spec fn is_timeout(e: ConversionError) -> bool {
    e matches ConversionError::JupiterTimeout { .. }
}

/// The inputs that are VTFx files, in order.
pub open spec fn vtfx_inputs(s: Seq<ConversionInput>) -> Seq<ConversionInput> {
    s.filter(|i: ConversionInput| is_vtfx(i.file_type))
}

/// The inputs that are not VTFx files, in order.
pub open spec fn other_inputs(s: Seq<ConversionInput>) -> Seq<ConversionInput> {
    s.filter(|i: ConversionInput| !is_vtfx(i.file_type))
}

/// Splits resolved inputs into VTFx pass-through files and files to convert,
/// each in input order.
pub fn partition_inputs(inputs: Vec<ConversionInput>) -> (r: (Vec<ConversionInput>, Vec<ConversionInput>))
    ensures
        r.0@ == vtfx_inputs(inputs@),
        r.1@ == other_inputs(inputs@),
{
    let ghost all = inputs@;
    let mut vtfx: Vec<ConversionInput> = Vec::new();
    let mut cad: Vec<ConversionInput> = Vec::new();
    let mut rest = inputs;
    let mut taken: Vec<ConversionInput> = Vec::new();
    proof {
        assert(all.take(0) =~= Seq::<ConversionInput>::empty());
        assert(vtfx_inputs(all.take(0)) =~= Seq::<ConversionInput>::empty());
        assert(other_inputs(all.take(0)) =~= Seq::<ConversionInput>::empty());
    }
    let n = rest.len();
    let mut i: usize = 0;
    while i < n
        invariant
            n == all.len(),
            i <= n,
            rest@ == all.skip(i as int),
            vtfx@ == vtfx_inputs(all.take(i as int)),
            cad@ == other_inputs(all.take(i as int)),
        decreases n - i,
    {
        let item = rest.remove(0);
        proof {
            assert(all.take(i + 1) =~= all.take(i as int).push(item));
            assert(rest@ =~= all.skip(i + 1));
            vstd::seq_lib::lemma_seq_skip_index(all, i as int, 0);
            all.take(i as int).lemma_filter_push(item, |x: ConversionInput| is_vtfx(x.file_type));
            all.take(i as int).lemma_filter_push(item, |x: ConversionInput| !is_vtfx(x.file_type));
        }
        if item.file_type.is_vtfx_format() {
            vtfx.push(item);
        } else {
            cad.push(item);
        }
        i = i + 1;
    }
    proof {
        assert(all.take(n as int) =~= all);
    }
    (vtfx, cad)
}

/// The arguments Jupiter is started with for a script.
pub open spec fn jupiter_argv(script: Seq<char>) -> Seq<Seq<char>> {
    seq!["-b"@, "-py"@, script, "-keywebapp"@]
}

/// The arguments Jupiter is started with: batch mode, the script, and the
/// web-app keyword.
pub fn jupiter_args(script: &str) -> (r: Vec<String>)
    ensures
        r.deep_view() == jupiter_argv(script@),
{
    let mut r: Vec<String> = Vec::new();
    r.push(crate::mapping::owned("-b"));
    r.push(crate::mapping::owned("-py"));
    r.push(crate::mapping::owned(script));
    r.push(crate::mapping::owned("-keywebapp"));
    assert(r.deep_view() =~= jupiter_argv(script@));
    r
}

/// The conversion processor.
#[derive(Debug)]
pub struct ConversionProcessor {
    /// Root directory for temporary working directories.
    temp_root: String,
    /// Plugin configuration.
    config: ConversionConfig,
    /// Conversion metrics collector.
    metrics: ConversionMetrics,
}

impl ConversionProcessor {
    /// The root of the job directories.
    pub closed spec fn temp_root_view(&self) -> Seq<char> {
        self.temp_root@
    }

    /// The configuration.
    pub closed spec fn config_view(&self) -> ConversionConfig {
        self.config
    }

    /// The metrics counters.
    pub closed spec fn counters(&self) -> MetricCounters {
        self.metrics.counters()
    }

    /// The recent duration samples.
    pub closed spec fn samples(&self) -> Seq<u128> {
        self.metrics.samples()
    }

    /// A processor for a configuration; the temporary root is the configured
    /// one or `TechnoStar` inside the system temporary directory.
    pub fn new(config: ConversionConfig, system_temp_dir: &str) -> (r: Self)
        ensures
            r.config_view() == config,
            r.temp_root_view() == match config.temp_root {
                Some(t) => t@,
                None => join(system_temp_dir@, "TechnoStar"@),
            },
            r.counters() == crate::metrics::zero_counters(),
            r.samples() == Seq::<u128>::empty(),
    {
        let temp_root = config.effective_temp_root(system_temp_dir);
        ConversionProcessor { temp_root, config, metrics: ConversionMetrics::new() }
    }

    /// The configuration.
    pub fn config(&self) -> (r: &ConversionConfig)
        ensures
            *r == self.config_view(),
    {
        &self.config
    }

    /// The root of the job directories.
    pub fn temp_root(&self) -> (r: &str)
        ensures
            r@ == self.temp_root_view(),
    {
        self.temp_root.as_str()
    }

    /// The metrics collector.
    pub fn metrics(&self) -> (r: &ConversionMetrics)
        ensures
            r.counters() == self.counters(),
            r.samples() == self.samples(),
    {
        &self.metrics
    }

    /// A snapshot of the metrics.
    pub fn metrics_snapshot(&self) -> (s: MetricsSnapshot)
        ensures
            s.conversions_started == self.counters().conversions_started,
            s.conversions_succeeded == self.counters().conversions_succeeded,
            s.conversions_failed == self.counters().conversions_failed,
            s.conversions_timed_out == self.counters().conversions_timed_out,
            s.conversions_cancelled == self.counters().conversions_cancelled,
            s.vtfx_passthrough_count == self.counters().vtfx_passthrough_count,
            s.total_output_bytes == self.counters().total_output_bytes,
            s.total_input_bytes == self.counters().total_input_bytes,
            (s.duration_p50, s.duration_p95, s.duration_p99) == percentiles_of(self.samples()),
            s.sample_count == self.samples().len(),
    {
        self.metrics.snapshot()
    }

    /// The working directory of a job, named by its token, under the root.
    pub fn job_dir(&self, token: &str) -> (r: String)
        ensures
            r@ == join(self.temp_root_view(), token@),
    {
        path_join(self.temp_root.as_str(), token)
    }

    /// A fresh working directory for a job: a new token under the root.
    pub fn new_job_dir(&self) -> (r: String)
        ensures
            exists|token: Seq<char>| token.len() == 32 && r@ == join(self.temp_root_view(), token),
    {
        let token = crate::filesystem::fresh_token();
        path_join(self.temp_root.as_str(), token.as_str())
    }

    /// How many files of one request may convert at once.
    pub fn request_limit(options: &ConversionOptions) -> (r: usize)
        ensures
            r == crate::models::effective_concurrency(options.concurrency),
            1 <= r <= 4,
    {
        options.concurrency() as usize
    }

    /// A fresh retry state for one Jupiter run under this configuration.
    pub fn new_retry(&self) -> (r: JupiterRetry)
        ensures
            r.next_attempt() == 0,
            r.max_retries() == self.config_view().max_retries,
            r.retry_delay_seconds() == self.config_view().retry_delay_seconds,
            r.timeout_seconds() == self.config_view().jupiter_timeout_seconds,
            r.last_error() is None,
    {
        JupiterRetry::new(self.config.max_retries, self.config.retry_delay_seconds, self.config.jupiter_timeout_seconds)
    }

    /// Before each attempt: give up once every attempt is spent, stop (and
    /// count a cancellation) when the job was cancelled, else run it, waiting
    /// first unless it is the first attempt.
    pub fn begin_attempt(&mut self, retry: &JupiterRetry, cancelled: bool) -> (r: RetryStep)
        ensures
            retry.next_attempt() > retry.max_retries() ==> {
                &&& r matches RetryStep::Done(Err(e)) && e == match retry.last_error() {
                    Some(last) => last,
                    None => ConversionError::JupiterKilled,
                }
                &&& final(self).counters() == old(self).counters()
            },
            retry.next_attempt() <= retry.max_retries() && cancelled ==> {
                &&& r matches RetryStep::Done(Err(ConversionError::Cancelled))
                &&& final(self).counters() == (MetricCounters {
                    conversions_cancelled: wrapped_sum(old(self).counters().conversions_cancelled, 1),
                    ..old(self).counters()
                })
            },
            retry.next_attempt() <= retry.max_retries() && !cancelled ==> {
                &&& r matches RetryStep::Run { attempt, delay_seconds } && attempt == retry.next_attempt()
                    && delay_seconds == (if retry.next_attempt() > 0 { retry.retry_delay_seconds() } else { 0 })
                &&& final(self).counters() == old(self).counters()
            },
            final(self).samples() == old(self).samples(),
            final(self).config_view() == old(self).config_view(),
            final(self).temp_root_view() == old(self).temp_root_view(),
    {
        if retry.next_attempt > retry.max_retries as u64 {
            let e = match &retry.last_error {
                Some(last) => last.duplicate(),
                None => ConversionError::JupiterKilled,
            };
            return RetryStep::Done(Err(e));
        }
        if cancelled {
            self.metrics.record_cancelled();
            return RetryStep::Done(Err(ConversionError::Cancelled));
        }
        let delay = if retry.next_attempt > 0 { retry.retry_delay_seconds } else { 0 };
        RetryStep::Run { attempt: retry.next_attempt, delay_seconds: delay }
    }

    /// After an attempt: success ends the run; a cancellation or a timeout
    /// ends it too (and is counted) and is never retried; any other error is
    /// remembered and the run moves on to the next attempt.
    pub fn finish_attempt(&mut self, retry: &mut JupiterRetry, result: Result<(), ConversionError>) -> (r: Option<Result<(), ConversionError>>)
        requires
            old(retry).next_attempt() <= old(retry).max_retries(),
        ensures
            final(retry).max_retries() == old(retry).max_retries(),
            final(retry).retry_delay_seconds() == old(retry).retry_delay_seconds(),
            final(retry).timeout_seconds() == old(retry).timeout_seconds(),
            final(self).samples() == old(self).samples(),
            final(self).config_view() == old(self).config_view(),
            final(self).temp_root_view() == old(self).temp_root_view(),
            match result {
                Ok(()) => r == Some(Ok::<(), ConversionError>(()))
                    && final(self).counters() == old(self).counters()
                    && final(retry).next_attempt() == old(retry).next_attempt()
                    && final(retry).last_error() == old(retry).last_error(),
                Err(ConversionError::Cancelled) => r == Some(Err::<(), ConversionError>(ConversionError::Cancelled))
                    && final(self).counters() == (MetricCounters {
                        conversions_cancelled: wrapped_sum(old(self).counters().conversions_cancelled, 1),
                        ..old(self).counters()
                    })
                    && final(retry).next_attempt() == old(retry).next_attempt()
                    && final(retry).last_error() == old(retry).last_error(),
                Err(ConversionError::JupiterTimeout { .. }) => r == Some(Err::<(), ConversionError>(
                    ConversionError::JupiterTimeout { timeout_seconds: old(retry).timeout_seconds() },
                ))
                    && final(self).counters() == (MetricCounters {
                        conversions_timed_out: wrapped_sum(old(self).counters().conversions_timed_out, 1),
                        conversions_failed: wrapped_sum(old(self).counters().conversions_failed, 1),
                        ..old(self).counters()
                    })
                    && final(retry).next_attempt() == old(retry).next_attempt()
                    && final(retry).last_error() == old(retry).last_error(),
                Err(e) => r is None
                    && final(self).counters() == old(self).counters()
                    && final(retry).next_attempt() == old(retry).next_attempt() + 1
                    && final(retry).last_error() == Some(e),
            },
    {
        proof {
            use_type_invariant(&*retry);
        }
        match result {
            Ok(()) => Some(Ok(())),
            Err(ConversionError::Cancelled) => {
                self.metrics.record_cancelled();
                Some(Err(ConversionError::Cancelled))
            },
            Err(ConversionError::JupiterTimeout { .. }) => {
                self.metrics.record_timeout();
                Some(Err(ConversionError::JupiterTimeout { timeout_seconds: retry.timeout_seconds }))
            },
            Err(e) => {
                retry.last_error = Some(e);
                retry.next_attempt = retry.next_attempt + 1;
                None
            },
        }
    }

    /// Refuses to run when the configured launcher does not exist.
    pub fn check_jupiter_present(&self, launcher_exists: bool) -> (r: Result<(), ConversionError>)
        ensures
            launcher_exists ==> r is Ok,
            !launcher_exists ==> (r matches Err(ConversionError::JupiterNotFound { path })
                && path@ == self.config_view().jupiter_path@),
    {
        if !launcher_exists {
            return Err(ConversionError::JupiterNotFound { path: self.config.jupiter_path.clone() });
        }
        Ok(())
    }

    /// What a finished Jupiter run means.
    pub fn interpret_jupiter_exit(&self, exit: JupiterExit) -> (r: Result<(), ConversionError>)
        ensures
            match exit {
                JupiterExit::Exited { success, code, stdout, stderr } => if success {
                    r is Ok
                } else {
                    r matches Err(ConversionError::JupiterFailed { code: c, stderr: e, stdout: o })
                        && c == (match code { Some(v) => v, None => -1i32 }) && e@ == stderr@ && o@ == stdout@
                },
                JupiterExit::SpawnFailed(m) => r matches Err(ConversionError::Io(msg)) && msg@ == m@,
                JupiterExit::TimedOut => r == Err::<(), ConversionError>(ConversionError::JupiterTimeout {
                    timeout_seconds: self.config_view().jupiter_timeout_seconds,
                }),
                JupiterExit::Cancelled => r == Err::<(), ConversionError>(ConversionError::Cancelled),
            },
    {
        match exit {
            JupiterExit::Exited { success, code, stdout, stderr } => {
                if success {
                    Ok(())
                } else {
                    let c: i32 = match code {
                        Some(v) => v,
                        None => -1,
                    };
                    Err(ConversionError::JupiterFailed { code: c, stderr, stdout })
                }
            },
            JupiterExit::SpawnFailed(m) => Err(ConversionError::Io(m)),
            JupiterExit::TimedOut => Err(ConversionError::JupiterTimeout {
                timeout_seconds: self.config.jupiter_timeout_seconds,
            }),
            JupiterExit::Cancelled => Err(ConversionError::Cancelled),
        }
    }

    /// Accepts an output file that exists and has at least the configured
    /// minimum size.
    pub fn validate_output(&self, output_path: &str, probe: &OutputProbe) -> (r: Result<(), ConversionError>)
        ensures
            accepted_size(*probe, self.config_view().min_output_bytes) is Some ==> r is Ok,
            accepted_size(*probe, self.config_view().min_output_bytes) is None ==> (r matches Err(e)
                && rejected_output(e, output_path@, *probe)),
    {
        match probe {
            OutputProbe::Missing => Err(ConversionError::OutputNotCreated { path: crate::mapping::owned(output_path) }),
            OutputProbe::Unreadable(m) => Err(ConversionError::Io(m.clone())),
            OutputProbe::Present(size) => {
                if *size < self.config.min_output_bytes {
                    Err(ConversionError::OutputEmpty { path: crate::mapping::owned(output_path) })
                } else {
                    Ok(())
                }
            },
        }
    }

    /// Starts converting one input on its own: counts the start and picks a
    /// fresh output path for it in `output_dir`.
    pub fn start_single(&mut self, input: &ConversionInput, output_dir: &str) -> (r: String)
        ensures
            exists|token: Seq<char>| token.len() == 32 && r@ == join(
                output_dir@,
                unique_name(sanitized_stem(input.original_name@), token, "vtfx"@),
            ),
            final(self).counters() == (MetricCounters {
                conversions_started: wrapped_sum(old(self).counters().conversions_started, 1),
                ..old(self).counters()
            }),
            final(self).samples() == old(self).samples(),
            final(self).config_view() == old(self).config_view(),
            final(self).temp_root_view() == old(self).temp_root_view(),
    {
        self.metrics.record_started();
        let name = FsUtils::generate_unique_filename(input.original_name.as_str(), "vtfx");
        path_join(output_dir, name.as_str())
    }

    /// Ends the conversion of one input: after a successful run the output
    /// is validated and described, and the success (with its duration and
    /// size) is counted; a failed run is counted as a failure.
    pub fn finish_single(
        &mut self,
        input: &ConversionInput,
        output_path: &str,
        run: Result<(), ConversionError>,
        probe: &OutputProbe,
        elapsed: Duration,
    ) -> (r: Result<ConversionResult, ConversionError>)
        ensures
            final(self).config_view() == old(self).config_view(),
            final(self).temp_root_view() == old(self).temp_root_view(),
            match run {
                Err(e) => r == Err::<ConversionResult, ConversionError>(e)
                    && final(self).counters() == (MetricCounters {
                        conversions_failed: wrapped_sum(old(self).counters().conversions_failed, 1),
                        ..old(self).counters()
                    })
                    && final(self).samples() == old(self).samples(),
                Ok(()) => match accepted_size(*probe, old(self).config_view().min_output_bytes) {
                    None => (r matches Err(e) && rejected_output(e, output_path@, *probe))
                        && final(self).counters() == old(self).counters()
                        && final(self).samples() == old(self).samples(),
                    Some(size) => if parent(output_path@) is None {
                        (r matches Err(ConversionError::NoParentDir { path }) && path@ == output_path@)
                            && final(self).counters() == old(self).counters()
                            && final(self).samples() == old(self).samples()
                    } else {
                        &&& r matches Ok(res) && res.path@ == output_path@
                            && res.filename@ == filename_or_unknown(output_path@)
                            && res.destination@ == parent(output_path@)->0
                            && res.original_name@ == input.original_name@ && res.size == size
                        &&& final(self).counters() == (MetricCounters {
                            conversions_succeeded: wrapped_sum(old(self).counters().conversions_succeeded, 1),
                            total_output_bytes: wrapped_sum(old(self).counters().total_output_bytes, size),
                            ..old(self).counters()
                        })
                        &&& exists|nanos: u128| final(self).samples() == window_after(old(self).samples(), nanos)
                    },
                },
            },
    {
        match run {
            Err(e) => {
                self.metrics.record_failure();
                Err(e)
            },
            Ok(()) => {
                self.validate_output(output_path, probe)?;
                let size: u64 = match probe {
                    OutputProbe::Present(s) => *s,
                    _ => 0,
                };
                let result = FsUtils::create_conversion_result(
                    input,
                    output_path,
                    size,
                    self.config.min_output_bytes,
                )?;
                let nanos = crate::metrics::duration_nanos(elapsed);
                let ghost before = self.metrics.samples();
                assert(before == old(self).samples());
                self.metrics.record_success_nanos(nanos, result.size);
                assert(self.samples() =~= window_after(before, nanos));
                assert(exists|n: u128| self.samples() =~= window_after(before, n));
                Ok(result)
            },
        }
    }

    /// Prepares an Assembly or Combine run: the primary input (by the
    /// options' primary name) and a fresh output path named after it.
    pub fn plan_multi(&self, inputs: &Vec<ConversionInput>, output_dir: &str, options: &ConversionOptions) -> (r: Result<(ConversionInput, String), ConversionError>)
        ensures
            match primary_name_spec(*options) {
                None => r matches Err(ConversionError::PrimaryNotSpecified),
                Some(n) => if exists|k: int| 0 <= k < inputs@.len() && filename_or_unknown(#[trigger] inputs@[k].path@) == n {
                    r matches Ok((primary, out)) && {
                        &&& exists|k: int| {
                            &&& 0 <= k < inputs@.len()
                            &&& filename_or_unknown(#[trigger] inputs@[k].path@) == n
                            &&& forall|j: int| 0 <= j < k ==> filename_or_unknown(#[trigger] inputs@[j].path@) != n
                            &&& inputs@[k].path@ == primary.path@
                            &&& inputs@[k].original_name@ == primary.original_name@
                            &&& inputs@[k].file_type == primary.file_type
                        }
                        &&& exists|token: Seq<char>| token.len() == 32 && out@ == join(
                            output_dir@,
                            unique_name(sanitized_stem(primary.original_name@), token, "vtfx"@),
                        )
                    }
                } else {
                    r matches Err(ConversionError::PrimaryNotFound { name }) && name@ == n
                },
            },
    {
        let name = options.get_primary_name()?;
        let primary = FsUtils::find_primary_input(inputs, Some(name.as_str()))?;
        let out_name = FsUtils::generate_unique_filename(primary.original_name.as_str(), "vtfx");
        let out = path_join(output_dir, out_name.as_str());
        Ok((primary.duplicate(), out))
    }

    /// Ends an Assembly or Combine run: a failed run's error, or the
    /// validated and described output.
    pub fn finish_multi(&self, primary: &ConversionInput, output_path: &str, run: Result<(), ConversionError>, probe: &OutputProbe) -> (r: Result<Vec<ConversionResult>, ConversionError>)
        ensures
            match run {
                Err(e) => r == Err::<Vec<ConversionResult>, ConversionError>(e),
                Ok(()) => match accepted_size(*probe, self.config_view().min_output_bytes) {
                    None => r matches Err(e) && rejected_output(e, output_path@, *probe),
                    Some(size) => if parent(output_path@) is Some {
                        r matches Ok(v) && v@.len() == 1 && v@[0].path@ == output_path@
                            && v@[0].filename@ == filename_or_unknown(output_path@)
                            && v@[0].destination@ == parent(output_path@)->0
                            && v@[0].original_name@ == primary.original_name@ && v@[0].size == size
                    } else {
                        r matches Err(ConversionError::NoParentDir { path }) && path@ == output_path@
                    },
                },
            },
    {
        run?;
        self.validate_output(output_path, probe)?;
        let size: u64 = match probe {
            OutputProbe::Present(s) => *s,
            _ => 0,
        };
        let result = FsUtils::create_conversion_result(primary, output_path, size, self.config.min_output_bytes)?;
        let mut v: Vec<ConversionResult> = Vec::new();
        v.push(result);
        Ok(v)
    }

    /// Counts a VTFx file passed through to the output.
    pub fn record_vtfx(&mut self, result: &ConversionResult)
        ensures
            final(self).counters() == (MetricCounters {
                vtfx_passthrough_count: wrapped_sum(old(self).counters().vtfx_passthrough_count, 1),
                total_output_bytes: wrapped_sum(old(self).counters().total_output_bytes, result.size),
                ..old(self).counters()
            }),
            final(self).samples() == old(self).samples(),
            final(self).config_view() == old(self).config_view(),
            final(self).temp_root_view() == old(self).temp_root_view(),
    {
        self.metrics.record_vtfx_passthrough(result.size);
    }
}

} // verus!
