//! The conversion pipeline: which targets a request asks for, the command
//! line of each, and how the outcomes add up to the conversion's result.
//!
//! The caller creates the job's scratch directory, runs each planned step,
//! measures time and removes the directory again; this module decides
//! everything in between.

use vstd::prelude::*;
use crate::executor::{
    ConversionExecutor, ExecutionParams, ExecutionResult, ExecutorError, executor_error_message,
    parent_or_empty, substituted, scratch_area,
};
use crate::mapping::{
    CadFormat, ConversionMapping, ConversionMappingEntry, ConversionTarget, MappingEntryView,
    cad_format_of, target_extension, target_mime_type,
};
use crate::paths::{extension, file_stem, join, path_extension, path_file_stem, path_join};
use crate::text::{ascii_lower, concat2, concat3, is_ascii_text, lemma_ascii_lower_stable, str_eq, to_lowercase, unicode_lowercase};

verus! {

/// Request to convert a CAD file.
#[derive(Debug)]
pub struct ConversionRequest {
    /// The file ID being converted.
    pub file_id: String,
    /// Name of the original file.
    pub file_name: String,
    /// Path to the source file in storage.
    pub source_path: String,
    /// Target formats to produce.
    pub targets: Vec<ConversionTarget>,
    /// Directory to write output files.
    pub output_dir: String,
    /// Job ID for tracking.
    pub job_id: String,
}

/// Result for a single target format conversion.
#[derive(Debug)]
pub struct TargetConversionResult {
    /// The target format.
    pub target: ConversionTarget,
    /// Whether this specific conversion succeeded.
    pub success: bool,
    /// Path to the output file, if successful.
    pub output_path: Option<String>,
    /// Output file size in bytes.
    pub output_size: Option<u64>,
    /// MIME type of the output.
    pub mime_type: String,
    /// Duration of this conversion in ms.
    pub duration_ms: u64,
    /// Error message if failed.
    pub error: Option<String>,
}

/// Result of a full conversion operation.
#[derive(Debug)]
pub struct ConversionResult {
    /// The file ID that was converted.
    pub file_id: String,
    /// The job ID.
    pub job_id: String,
    /// Whether the overall conversion succeeded.
    pub success: bool,
    /// Results per target format.
    pub target_results: Vec<TargetConversionResult>,
    /// Total duration in milliseconds.
    pub total_duration_ms: u64,
    /// Errors encountered.
    pub errors: Vec<String>,
}

/// Information about a conversion tool's availability.
#[derive(Debug)]
pub struct ToolAvailability {
    /// The command name.
    pub command: String,
    /// Whether the command is available.
    pub available: bool,
    /// Formats this tool handles.
    pub formats: Vec<String>,
}

/// One planned conversion: a target and the command that produces it.
#[derive(Debug)]
pub struct ConversionStep {
    pub target: ConversionTarget,
    pub params: ExecutionParams,
}

/// Everything a request needs run, once its mapping is known.
#[derive(Debug)]
pub struct ConversionPlan {
    /// The lowercase extension of the file.
    pub extension: String,
    /// The job's scratch directory, to be created before the first step.
    pub job_temp_dir: String,
    /// The steps, in the order of the requested targets.
    pub steps: Vec<ConversionStep>,
}

/// The lowercase extension of a file name, if it has one.
pub open spec fn lowered_extension(file_name: Seq<char>) -> Option<Seq<char>> {
    match extension(file_name) {
        Some(e) => Some(unicode_lowercase(e)),
        None => None,
    }
}

/// The enabled entry that a (lowercase) extension selects, if any.
pub open spec fn enabled_entry(m: Map<Seq<char>, MappingEntryView>, ext: Seq<char>) -> Option<MappingEntryView> {
    let key = unicode_lowercase(ext);
    if m.contains_key(key) && m[key].enabled {
        Some(m[key])
    } else {
        None
    }
}

/// The requested targets that the entry supports, in request order.
pub open spec fn kept_targets(requested: Seq<ConversionTarget>, supported: Seq<ConversionTarget>) -> Seq<ConversionTarget>
    decreases requested.len(),
{
    if requested.len() == 0 {
        Seq::empty()
    } else {
        let before = kept_targets(requested.drop_last(), supported);
        if supported.contains(requested.last()) {
            before.push(requested.last())
        } else {
            before
        }
    }
}

/// Output file name for a target: the source's stem (or `output`), a dot,
/// and the target's extension.
pub open spec fn output_file_name(source_path: Seq<char>, t: ConversionTarget) -> Seq<char> {
    let stem = match file_stem(source_path) {
        Some(s) => s,
        None => "output"@,
    };
    stem + "."@ + target_extension(t)
}

/// Whether `p` is the command line that converts the request's source into
/// target `t` with entry `e`, working in `job_dir`.
pub open spec fn step_params(
    e: MappingEntryView,
    source_path: Seq<char>,
    output_dir: Seq<char>,
    job_dir: Seq<char>,
    t: ConversionTarget,
    p: ExecutionParams,
) -> bool {
    let out = join(output_dir, output_file_name(source_path, t));
    &&& p.command@ == e.command
    &&& p.args@.len() == e.args_template.len()
    &&& forall|i: int| 0 <= i < p.args@.len() ==> #[trigger] p.args@[i]@ == substituted(
        e.args_template[i],
        source_path,
        out,
        target_extension(t),
        parent_or_empty(source_path),
        parent_or_empty(out),
    )
    &&& p.working_dir matches Some(d) && d@ == job_dir
    &&& p.env_vars@.len() == 0
    &&& p.timeout_seconds == e.timeout_seconds
    &&& p.input_path@ == source_path
    &&& p.output_path@ == out
}

/// Message when a file name has no extension.
pub open spec fn no_extension_message() -> Seq<char> {
    "Could not determine file extension"@
}

/// Message when no enabled mapping exists for an extension.
pub open spec fn no_mapping_message(ext: Seq<char>) -> Seq<char> {
    "No conversion mapping found for extension '"@ + ext + "'"@
}

/// Message when the job's scratch directory could not be created.
pub open spec fn temp_dir_failure_message(reason: Seq<char>) -> Seq<char> {
    "Failed to create temp dir: "@ + reason
}

/// Message when running the conversion to a target failed.
pub open spec fn target_failure_message(t: ConversionTarget, e: ExecutorError) -> Seq<char> {
    "Conversion to "@ + target_extension(t) + " failed: "@ + executor_error_message(e)
}

/// Whether some target conversion succeeded.
pub open spec fn any_success(rs: Seq<TargetConversionResult>) -> bool {
    exists|i: int| 0 <= i < rs.len() && #[trigger] rs[i].success
}

/// The tool checks for a list of extensions: for each one whose enabled
/// mapping names a command not seen before, that command and the extension.
pub open spec fn tool_plan(m: Map<Seq<char>, MappingEntryView>, exts: Seq<Seq<char>>) -> Seq<(Seq<char>, Seq<char>)>
    decreases exts.len(),
{
    if exts.len() == 0 {
        Seq::empty()
    } else {
        let before = tool_plan(m, exts.drop_last());
        let ext = exts.last();
        match enabled_entry(m, ext) {
            Some(e) => if before.map_values(|p: (Seq<char>, Seq<char>)| p.0).contains(e.command) {
                before
            } else {
                before.push((e.command, ext))
            },
            None => before,
        }
    }
}

/// Each tool is checked once: the commands of a tool plan are distinct, and
/// every extension in it is one of those asked about, with its own enabled
/// mapping's command.
pub proof fn lemma_tool_plan_distinct(m: Map<Seq<char>, MappingEntryView>, exts: Seq<Seq<char>>)
    ensures
        tool_plan(m, exts).map_values(|p: (Seq<char>, Seq<char>)| p.0).no_duplicates(),
        forall|k: int| 0 <= k < tool_plan(m, exts).len() ==> {
            let p = #[trigger] tool_plan(m, exts)[k];
            &&& exts.contains(p.1)
            &&& enabled_entry(m, p.1) matches Some(e) && e.command == p.0
        },
    decreases exts.len(),
{
    if exts.len() > 0 {
        let before = tool_plan(m, exts.drop_last());
        lemma_tool_plan_distinct(m, exts.drop_last());
        let ext = exts.last();
        let cmds = before.map_values(|p: (Seq<char>, Seq<char>)| p.0);
        assert forall|k: int| 0 <= k < before.len() implies exts.contains(#[trigger] before[k].1) by {
            let i = choose|i: int| 0 <= i < exts.drop_last().len() && exts.drop_last()[i] == before[k].1;
            assert(exts[i] == before[k].1);
        }
        match enabled_entry(m, ext) {
            Some(e) => {
                if !cmds.contains(e.command) {
                    let after = before.push((e.command, ext));
                    assert(after.map_values(|p: (Seq<char>, Seq<char>)| p.0) =~= cmds.push(e.command));
                    assert(exts[exts.len() - 1] == ext);
                    assert forall|a: int, b: int| 0 <= a < b < cmds.push(e.command).len() implies
                        cmds.push(e.command)[a] != cmds.push(e.command)[b] by {
                        if b == cmds.len() {
                            assert(cmds[a] == cmds.push(e.command)[a]);
                        }
                    }
                }
            },
            None => {},
        }
    }
}

/// Whether a list of strings holds `s`.
pub fn contains_str(v: &Vec<String>, s: &str) -> (r: bool)
    ensures
        r == v.deep_view().contains(s@),
{
    let mut i: usize = 0;
    while i < v.len()
        invariant
            i <= v@.len(),
            forall|j: int| 0 <= j < i ==> v.deep_view()[j] != s@,
        decreases v@.len() - i,
    {
        if str_eq(v[i].as_str(), s) {
            assert(v.deep_view()[i as int] == s@);
            return true;
        }
        i = i + 1;
    }
    false
}

/// Whether a list of targets holds `t`.
pub fn contains_target(v: &Vec<ConversionTarget>, t: ConversionTarget) -> (r: bool)
    ensures
        r == v@.contains(t),
{
    let mut i: usize = 0;
    while i < v.len()
        invariant
            i <= v@.len(),
            forall|j: int| 0 <= j < i ==> v@[j] != t,
        decreases v@.len() - i,
    {
        if v[i] == t {
            return true;
        }
        i = i + 1;
    }
    false
}

/// The conversion result of a request that ends before any target is run.
pub fn failed_result(request: &ConversionRequest, message: String, elapsed_ms: u64) -> (r: ConversionResult)
    ensures
        r.file_id@ == request.file_id@,
        r.job_id@ == request.job_id@,
        !r.success,
        r.target_results@.len() == 0,
        r.total_duration_ms == elapsed_ms,
        r.errors.deep_view() == seq![message@],
{
    let mut errors: Vec<String> = Vec::new();
    errors.push(message);
    assert(errors.deep_view() =~= seq![errors@[0]@]);
    ConversionResult {
        file_id: request.file_id.clone(),
        job_id: request.job_id.clone(),
        success: false,
        target_results: Vec::new(),
        total_duration_ms: elapsed_ms,
        errors,
    }
}

/// The conversion result when the job's scratch directory could not be
/// created, for the given reason.
pub fn temp_dir_failure(request: &ConversionRequest, reason: &str, elapsed_ms: u64) -> (r: ConversionResult)
    ensures
        r.file_id@ == request.file_id@,
        r.job_id@ == request.job_id@,
        !r.success,
        r.target_results@.len() == 0,
        r.total_duration_ms == elapsed_ms,
        r.errors.deep_view() == seq![temp_dir_failure_message(reason@)],
{
    proof {
        reveal_strlit("Failed to create temp dir: ");
    }
    let message = concat2("Failed to create temp dir: ", reason);
    failed_result(request, message, elapsed_ms)
}

/// The per-target result of one step, and the error to report, if any.
pub fn target_outcome(target: ConversionTarget, outcome: Result<ExecutionResult, ExecutorError>, duration_ms: u64) -> (r: (TargetConversionResult, Option<String>))
    ensures
        r.0.target == target,
        r.0.mime_type@ == target_mime_type(target),
        r.0.duration_ms == duration_ms,
        match outcome {
            Ok(res) => {
                &&& r.0.success == (res.success && res.output_path is Some)
                &&& r.0.output_path == res.output_path
                &&& r.0.output_size == res.output_size
                &&& (if res.success { r.0.error is None } else { r.0.error == Some(res.stderr) })
                &&& r.1 is None
            },
            Err(e) => {
                &&& !r.0.success
                &&& r.0.output_path is None
                &&& r.0.output_size is None
                &&& r.0.error matches Some(m) && m@ == target_failure_message(target, e)
                &&& r.1 matches Some(m) && m@ == target_failure_message(target, e)
            },
        },
{
    let mime = crate::mapping::owned(target.mime_type());
    match outcome {
        Ok(res) => {
            let success = res.success && res.output_path.is_some();
            let error = if res.success { None } else { Some(res.stderr) };
            (TargetConversionResult {
                target,
                success,
                output_path: res.output_path,
                output_size: res.output_size,
                mime_type: mime,
                duration_ms,
                error,
            }, None)
        },
        Err(e) => {
            let reason = e.message();
            let head = concat3("Conversion to ", target.extension(), " failed: ");
            let msg = concat2(head.as_str(), reason.as_str());
            proof {
                reveal_strlit("Conversion to ");
                reveal_strlit(" failed: ");
            }
            let reported = msg.clone();
            (TargetConversionResult {
                target,
                success: false,
                output_path: None,
                output_size: None,
                mime_type: mime,
                duration_ms,
                error: Some(msg),
            }, Some(reported))
        },
    }
}

/// The conversion result once every planned step has run.
pub fn finish_conversion(request: &ConversionRequest, target_results: Vec<TargetConversionResult>, errors: Vec<String>, elapsed_ms: u64) -> (r: ConversionResult)
    ensures
        r.file_id@ == request.file_id@,
        r.job_id@ == request.job_id@,
        r.success == any_success(target_results@),
        r.target_results@ == target_results@,
        r.total_duration_ms == elapsed_ms,
        r.errors@ == errors@,
{
    let mut success = false;
    let mut i: usize = 0;
    while i < target_results.len()
        invariant
            i <= target_results@.len(),
            success == (exists|j: int| 0 <= j < i && #[trigger] target_results@[j].success),
        decreases target_results@.len() - i,
    {
        if target_results[i].success {
            success = true;
        }
        i = i + 1;
    }
    ConversionResult {
        file_id: request.file_id.clone(),
        job_id: request.job_id.clone(),
        success,
        target_results,
        total_duration_ms: elapsed_ms,
        errors,
    }
}

/// The errors reported by a run of steps with these targets and outcomes, in
/// step order: one message per step whose tool could not be run.
pub open spec fn failure_messages(
    targets: Seq<ConversionTarget>,
    outcomes: Seq<Result<ExecutionResult, ExecutorError>>,
) -> Seq<Seq<char>>
    decreases outcomes.len(),
{
    if outcomes.len() == 0 || targets.len() < outcomes.len() {
        Seq::empty()
    } else {
        let n = outcomes.len() - 1;
        let before = failure_messages(targets, outcomes.drop_last());
        match outcomes[n] {
            Ok(_) => before,
            Err(e) => before.push(target_failure_message(targets[n], e)),
        }
    }
}

/// Whether `t` is the per-target result of a step for `target` whose tool
/// run ended with `outcome` after `duration_ms`.
pub open spec fn target_result_of(
    t: TargetConversionResult,
    target: ConversionTarget,
    outcome: Result<ExecutionResult, ExecutorError>,
    duration_ms: u64,
) -> bool {
    &&& t.target == target
    &&& t.mime_type@ == target_mime_type(target)
    &&& t.duration_ms == duration_ms
    &&& match outcome {
        Ok(res) => {
            &&& t.success == (res.success && res.output_path is Some)
            &&& t.output_path == res.output_path
            &&& t.output_size == res.output_size
            &&& (if res.success { t.error is None } else { t.error == Some(res.stderr) })
        },
        Err(e) => {
            &&& !t.success
            &&& t.output_path is None
            &&& t.output_size is None
            &&& t.error matches Some(m) && m@ == target_failure_message(target, e)
        },
    }
}

/// The targets of a plan's steps, in step order.
pub open spec fn plan_targets(plan: ConversionPlan) -> Seq<ConversionTarget> {
    plan.steps@.map_values(|s: ConversionStep| s.target)
}

/// The whole result of a conversion once every step of its plan has run:
/// `outcomes[k]` is how the tool of step `k` ended and how long it took.
/// One per-target result per step, in step order; the errors of the steps
/// whose tool could not be run, in step order; success when some target
/// succeeded.
pub fn assemble_conversion(
    request: &ConversionRequest,
    plan: &ConversionPlan,
    outcomes: Vec<(Result<ExecutionResult, ExecutorError>, u64)>,
    elapsed_ms: u64,
) -> (r: ConversionResult)
    requires
        outcomes@.len() == plan.steps@.len(),
    ensures
        r.file_id@ == request.file_id@,
        r.job_id@ == request.job_id@,
        r.total_duration_ms == elapsed_ms,
        r.target_results@.len() == plan.steps@.len(),
        forall|k: int| 0 <= k < plan.steps@.len() ==> target_result_of(
            #[trigger] r.target_results@[k],
            plan.steps@[k].target,
            outcomes@[k].0,
            outcomes@[k].1,
        ),
        r.errors.deep_view() == failure_messages(
            plan_targets(*plan),
            outcomes@.map_values(|o: (Result<ExecutionResult, ExecutorError>, u64)| o.0),
        ),
        r.success == any_success(r.target_results@),
        r.success <==> exists|k: int| 0 <= k < r.target_results@.len() && #[trigger] r.target_results@[k].success,
{
    let ghost orig = outcomes@;
    let ghost targets = plan_targets(*plan);
    let ghost outs = orig.map_values(|o: (Result<ExecutionResult, ExecutorError>, u64)| o.0);
    let mut rest = outcomes;
    let mut target_results: Vec<TargetConversionResult> = Vec::new();
    let mut errors: Vec<String> = Vec::new();
    let mut i: usize = 0;
    while i < plan.steps.len()
        invariant
            i <= plan.steps@.len(),
            orig.len() == plan.steps@.len(),
            targets == plan_targets(*plan),
            outs == orig.map_values(|o: (Result<ExecutionResult, ExecutorError>, u64)| o.0),
            rest@ == orig.subrange(i as int, orig.len() as int),
            target_results@.len() == i,
            forall|k: int| 0 <= k < i ==> target_result_of(
                #[trigger] target_results@[k],
                plan.steps@[k].target,
                orig[k].0,
                orig[k].1,
            ),
            errors.deep_view() == failure_messages(targets, outs.take(i as int)),
        decreases plan.steps@.len() - i,
    {
        let (outcome, duration) = rest.remove(0);
        assert(orig[i as int] == (outcome, duration));
        let target = plan.steps[i].target;
        let ghost out_ghost = outcome;
        let (result, error) = target_outcome(target, outcome, duration);
        proof {
            let taken = outs.take(i as int + 1);
            assert(taken.drop_last() =~= outs.take(i as int));
            assert(taken[i as int] == out_ghost);
            assert(targets[i as int] == target);
        }
        match error {
            Some(e) => {
                let ghost before = errors.deep_view();
                errors.push(e);
                assert(errors.deep_view() =~= before.push(e@));
            },
            None => {},
        }
        target_results.push(result);
        i = i + 1;
    }
    proof {
        assert(outs.take(orig.len() as int) =~= outs);
    }
    finish_conversion(request, target_results, errors, elapsed_ms)
}

/// The targets kept from a request are each both requested and supported.
pub proof fn lemma_kept_targets_requested_and_supported(requested: Seq<ConversionTarget>, supported: Seq<ConversionTarget>)
    ensures
        kept_targets(requested, supported).len() <= requested.len(),
        forall|k: int| 0 <= k < kept_targets(requested, supported).len() ==> {
            &&& requested.contains(#[trigger] kept_targets(requested, supported)[k])
            &&& supported.contains(kept_targets(requested, supported)[k])
        },
    decreases requested.len(),
{
    if requested.len() > 0 {
        let before = kept_targets(requested.drop_last(), supported);
        lemma_kept_targets_requested_and_supported(requested.drop_last(), supported);
        assert forall|k: int| 0 <= k < kept_targets(requested, supported).len() implies {
            &&& requested.contains(#[trigger] kept_targets(requested, supported)[k])
            &&& supported.contains(kept_targets(requested, supported)[k])
        } by {
            let t = kept_targets(requested, supported)[k];
            if k < before.len() {
                assert(t == before[k]);
                assert(requested.drop_last().contains(t));
                let j = choose|j: int| 0 <= j < requested.drop_last().len() && requested.drop_last()[j] == t;
                assert(requested[j] == t);
            } else {
                assert(t == requested.last());
                assert(requested[requested.len() - 1] == t);
            }
        }
    }
}

/// Orchestrates CAD file conversions.
#[derive(Debug)]
pub struct CadConverter {
    /// Format mapping registry.
    mapping: ConversionMapping,
    /// Command executor.
    executor: ConversionExecutor,
}

impl CadConverter {
    /// The mapping registry.
    pub closed spec fn mapping_view(&self) -> Map<Seq<char>, MappingEntryView> {
        self.mapping.as_map()
    }

    /// The executor's base temporary directory.
    pub closed spec fn temp_dir_view(&self) -> Seq<char> {
        self.executor.temp_dir_view()
    }

    /// Create a new CAD converter.
    pub fn new(mapping: ConversionMapping, temp_dir: String) -> (r: Self)
        ensures
            r.mapping_view() == mapping.as_map(),
            r.temp_dir_view() == temp_dir@,
    {
        CadConverter { mapping, executor: ConversionExecutor::new(temp_dir) }
    }

    /// The mapping registry.
    pub fn mapping(&self) -> (r: &ConversionMapping)
        ensures
            r.as_map() == self.mapping_view(),
    {
        &self.mapping
    }

    /// The command executor.
    pub fn executor(&self) -> (r: &ConversionExecutor)
        ensures
            r.temp_dir_view() == self.temp_dir_view(),
    {
        &self.executor
    }

    /// The lowercase extension of a file name.
    pub fn extract_extension(&self, file_name: &str) -> (r: Option<String>)
        ensures
            match r {
                Some(e) => lowered_extension(file_name@) == Some(e@),
                None => lowered_extension(file_name@) is None,
            },
            match extension(file_name@) {
                Some(x) => is_ascii_text(x) ==> (r matches Some(e) && e@ == ascii_lower(x)),
                None => true,
            },
    {
        match path_extension(file_name) {
            Some(e) => Some(to_lowercase(e.as_str())),
            None => None,
        }
    }

    /// Whether a file name has the extension of a registered CAD format.
    pub fn is_convertible(&self, file_name: &str) -> (r: bool)
        ensures
            r == (match lowered_extension(file_name@) {
                Some(e) => self.mapping_view().contains_key(unicode_lowercase(e)),
                None => false,
            }),
            match extension(file_name@) {
                Some(x) => is_ascii_text(x) ==> r == self.mapping_view().contains_key(ascii_lower(x)),
                None => true,
            },
    {
        match self.extract_extension(file_name) {
            Some(ext) => {
                proof {
                    if extension(file_name@) is Some && is_ascii_text(extension(file_name@)->0) {
                        lemma_ascii_lower_stable(extension(file_name@)->0);
                    }
                }
                self.mapping.is_cad_file(ext.as_str())
            },
            None => false,
        }
    }

    /// The CAD format of a file name.
    pub fn detect_format(&self, file_name: &str) -> (r: Option<CadFormat>)
        ensures
            r == (match lowered_extension(file_name@) {
                Some(e) => cad_format_of(unicode_lowercase(e)),
                None => None,
            }),
            match extension(file_name@) {
                Some(x) => is_ascii_text(x) ==> r == cad_format_of(ascii_lower(x)),
                None => true,
            },
    {
        match self.extract_extension(file_name) {
            Some(ext) => {
                proof {
                    if extension(file_name@) is Some && is_ascii_text(extension(file_name@)->0) {
                        lemma_ascii_lower_stable(extension(file_name@)->0);
                    }
                }
                CadFormat::from_extension(ext.as_str())
            },
            None => None,
        }
    }

    /// The output targets that a file name can be converted to.
    pub fn supported_targets(&self, file_name: &str) -> (r: Vec<ConversionTarget>)
        ensures
            r@ == (match lowered_extension(file_name@) {
                Some(e) => match enabled_entry(self.mapping_view(), e) {
                    Some(entry) => entry.targets,
                    None => Seq::empty(),
                },
                None => Seq::empty(),
            }),
    {
        match self.extract_extension(file_name) {
            Some(ext) => match self.mapping.get_mapping(ext.as_str()) {
                Some(m) => {
                    let copy = m.duplicate();
                    copy.targets
                },
                None => Vec::new(),
            },
            None => Vec::new(),
        }
    }

    /// The output file path for one target of a request.
    fn output_path_for(request: &ConversionRequest, target: ConversionTarget) -> (r: String)
        ensures
            r@ == join(request.output_dir@, output_file_name(request.source_path@, target)),
    {
        let stem = match path_file_stem(request.source_path.as_str()) {
            Some(s) => s,
            None => crate::mapping::owned("output"),
        };
        proof {
            reveal_strlit("output");
            reveal_strlit(".");
        }
        let name = concat3(stem.as_str(), ".", target.extension());
        path_join(request.output_dir.as_str(), name.as_str())
    }

    /// The command line for one target.
    fn step_for(&self, entry: &ConversionMappingEntry, request: &ConversionRequest, job_dir: &str, target: ConversionTarget) -> (r: ExecutionParams)
        ensures
            step_params(entry@, request.source_path@, request.output_dir@, job_dir@, target, r),
    {
        let output_path = Self::output_path_for(request, target);
        let args = self.executor.substitute_args(
            &entry.args_template,
            request.source_path.as_str(),
            output_path.as_str(),
            target.extension(),
        );
        let r = ExecutionParams {
            command: entry.command.clone(),
            args,
            working_dir: Some(crate::mapping::owned(job_dir)),
            env_vars: Vec::new(),
            timeout_seconds: entry.timeout_seconds,
            input_path: request.source_path.clone(),
            output_path,
        };
        proof {
            assert forall|i: int| 0 <= i < r.args@.len() implies #[trigger] r.args@[i]@ == substituted(
                entry@.args_template[i],
                request.source_path@,
                r.output_path@,
                target_extension(target),
                parent_or_empty(request.source_path@),
                parent_or_empty(r.output_path@),
            ) by {
                assert(entry@.args_template[i] == entry.args_template@[i]@);
            }
        }
        r
    }

    /// Plans a conversion request: the extension, the mapping, and one step
    /// per requested target that the mapping supports. `Err` carries the
    /// message of a request that cannot be converted.
    pub fn plan_conversion(&self, request: &ConversionRequest) -> (r: Result<ConversionPlan, String>)
        ensures
            match lowered_extension(request.file_name@) {
                None => r matches Err(m) && m@ == no_extension_message(),
                Some(ext) => match enabled_entry(self.mapping_view(), ext) {
                    None => r matches Err(m) && m@ == no_mapping_message(ext),
                    Some(entry) => r matches Ok(plan) && {
                        let kept = kept_targets(request.targets@, entry.targets);
                        &&& plan.extension@ == ext
                        &&& plan.job_temp_dir@ == join(join(self.temp_dir_view(), scratch_area()), request.job_id@)
                        &&& plan.steps@.len() == kept.len()
                        &&& forall|k: int| 0 <= k < kept.len() ==> {
                            &&& (#[trigger] plan.steps@[k]).target == kept[k]
                            &&& step_params(entry, request.source_path@, request.output_dir@, plan.job_temp_dir@, kept[k], plan.steps@[k].params)
                        }
                    },
                },
            },
    {
        let ext = match self.extract_extension(request.file_name.as_str()) {
            Some(e) => e,
            None => {
                proof {
                    reveal_strlit("Could not determine file extension");
                }
                return Err(crate::mapping::owned("Could not determine file extension"));
            },
        };
        let entry = match self.mapping.get_mapping(ext.as_str()) {
            Some(m) => m,
            None => {
                proof {
                    reveal_strlit("No conversion mapping found for extension '");
                    reveal_strlit("'");
                }
                return Err(concat3("No conversion mapping found for extension '", ext.as_str(), "'"));
            },
        };
        let job_dir = self.executor.job_temp_dir(request.job_id.as_str());
        let mut steps: Vec<ConversionStep> = Vec::new();
        let mut i: usize = 0;
        let ghost supported = entry@.targets;
        while i < request.targets.len()
            invariant
                i <= request.targets@.len(),
                supported == entry.targets@,
                steps@.len() == kept_targets(request.targets@.take(i as int), supported).len(),
                forall|k: int| 0 <= k < steps@.len() ==> {
                    &&& (#[trigger] steps@[k]).target == kept_targets(request.targets@.take(i as int), supported)[k]
                    &&& step_params(entry@, request.source_path@, request.output_dir@, job_dir@, steps@[k].target, steps@[k].params)
                },
            decreases request.targets@.len() - i,
        {
            let target = request.targets[i];
            let ghost before = kept_targets(request.targets@.take(i as int), supported);
            assert(request.targets@.take(i + 1).drop_last() =~= request.targets@.take(i as int));
            if contains_target(&entry.targets, target) {
                let params = self.step_for(entry, request, job_dir.as_str(), target);
                steps.push(ConversionStep { target, params });
                assert(kept_targets(request.targets@.take(i + 1), supported) == before.push(target));
            } else {
                assert(kept_targets(request.targets@.take(i + 1), supported) == before);
            }
            i = i + 1;
        }
        assert(request.targets@.take(request.targets@.len() as int) =~= request.targets@);
        Ok(ConversionPlan { extension: ext, job_temp_dir: job_dir, steps })
    }

    /// Which tools to check for availability: one per distinct command of
    /// the enabled mappings, with the first extension found for it.
    pub fn tool_check_plan(&self) -> (r: Vec<(String, String)>)
        ensures
            exists|exts: Seq<Seq<char>>| {
                &&& exts.no_duplicates()
                &&& forall|k: Seq<char>| #[trigger] exts.contains(k) <==> (self.mapping_view().contains_key(k)
                    && self.mapping_view()[k].enabled)
                &&& r@.map_values(|p: (String, String)| (p.0@, p.1@)) == tool_plan(self.mapping_view(), exts)
            },
    {
        let exts = self.mapping.supported_extensions();
        self.tool_checks_for(&exts)
    }

    /// The tool checks for a list of extensions (see [`tool_plan`]).
    pub fn tool_checks_for(&self, exts: &Vec<String>) -> (r: Vec<(String, String)>)
        ensures
            r@.map_values(|p: (String, String)| (p.0@, p.1@)) == tool_plan(self.mapping_view(), exts.deep_view()),
    {
        let mut out: Vec<(String, String)> = Vec::new();
        let mut seen: Vec<String> = Vec::new();
        let mut i: usize = 0;
        while i < exts.len()
            invariant
                i <= exts@.len(),
                out@.map_values(|p: (String, String)| (p.0@, p.1@)) == tool_plan(self.mapping_view(), exts.deep_view().take(i as int)),
                seen.deep_view() == out@.map_values(|p: (String, String)| p.0@),
            decreases exts@.len() - i,
        {
            let ghost m = self.mapping_view();
            let ghost before = tool_plan(m, exts.deep_view().take(i as int));
            let ghost old_out = out@;
            assert(exts.deep_view().take(i + 1).drop_last() =~= exts.deep_view().take(i as int));
            assert(exts.deep_view().take(i + 1).last() == exts@[i as int]@);
            assert(before.map_values(|p: (Seq<char>, Seq<char>)| p.0) =~= seen.deep_view());
            match self.mapping.get_mapping(exts[i].as_str()) {
                Some(entry) => {
                    if !contains_str(&seen, entry.command.as_str()) {
                        let ext = exts[i].clone();
                        seen.push(entry.command.clone());
                        out.push((entry.command.clone(), ext));
                        assert(out@.map_values(|p: (String, String)| (p.0@, p.1@)) =~= old_out.map_values(
                            |p: (String, String)| (p.0@, p.1@),
                        ).push((entry.command@, exts@[i as int]@)));
                        assert(out@.map_values(|p: (String, String)| p.0@) =~= old_out.map_values(
                            |p: (String, String)| p.0@,
                        ).push(entry.command@));
                    }
                },
                None => {},
            }
            i = i + 1;
        }
        assert(exts.deep_view().take(exts@.len() as int) =~= exts.deep_view());
        out
    }
}

} // verus!
