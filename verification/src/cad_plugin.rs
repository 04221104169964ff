//! The CAD converter plugin's state and its upload hook decision.
//!
//! The host's hook registry, payload bag and result type belong to the
//! caller; it hands this module the payload's string values and turns the
//! [`UploadSignal`] into hook output.

use vstd::prelude::*;
use crate::config::{ConversionConfig, is_default_config};
use crate::error::{ConversionError, conversion_error_message};
use crate::jupiter::{DiscoveryError, JupiterInstallation};
use crate::metrics::{MetricsSnapshot, percentiles_of};
use crate::models::{FileType, classify_path, file_type_label, is_processable_type, is_results, is_vtfx};
use crate::paths::join;
use crate::processor::ConversionProcessor;

verus! {

/// Plugin name used for registration, logging, and hook results.
pub const PLUGIN_NAME: &'static str = "cad-converter";

/// The payload values an upload hook reads.
#[derive(Debug)]
pub struct UploadPayload {
    /// `file_name`: name of the uploaded file.
    pub file_name: Option<String>,
    /// `file_id`: UUID of the file entity.
    pub file_id: Option<String>,
    /// `storage_id`: UUID of the storage backend.
    pub storage_id: Option<String>,
    /// `storage_path`: where the file was written.
    pub storage_path: Option<String>,
}

/// What the upload hook tells the worker system about a convertible file;
/// conversion is required whenever a signal is given.
#[derive(Debug)]
pub struct UploadSignal {
    /// `cad_file_type`: the detected file type's name.
    pub file_type: String,
    /// `cad_input_path`: the storage path (empty when absent).
    pub input_path: String,
    /// `cad_file_id`: the file ID (`unknown` when absent).
    pub file_id: String,
    /// `cad_storage_id`: the storage ID (`unknown` when absent).
    pub storage_id: String,
    /// `cad_is_vtfx_passthrough`: whether no Jupiter run is needed.
    pub is_vtfx_passthrough: bool,
    /// `cad_is_results_format`: whether the file is a results format.
    pub is_results_format: bool,
    /// `cad_available_slots`: free conversion slots at detection time.
    pub available_slots: usize,
}

/// The file type of an uploaded file name, if it is one the pipeline processes.
pub open spec fn processable_type(file_name: Seq<char>) -> Option<FileType> {
    match classify_path(file_name, None) {
        Some(t) => if is_processable_type(t) { Some(t) } else { None },
        None => None,
    }
}

/// An optional text, or a fallback when absent.
pub open spec fn or_text(v: Option<String>, fallback: Seq<char>) -> Seq<char> {
    match v {
        Some(s) => s@,
        None => fallback,
    }
}

fn or_owned(v: &Option<String>, fallback: &str) -> (r: String)
    ensures
        r@ == or_text(*v, fallback@),
{
    match v {
        Some(s) => s.clone(),
        None => crate::mapping::owned(fallback),
    }
}

/// The upload hook's decision: no signal when the payload has no file name
/// or the file is not processable; otherwise the signal for the worker.
pub fn upload_signal(payload: &UploadPayload, available_slots: usize) -> (r: Option<UploadSignal>)
    ensures
        match payload.file_name {
            None => r is None,
            Some(name) => match processable_type(name@) {
                None => r is None,
                Some(t) => r matches Some(s) && {
                    &&& s.file_type@ == file_type_label(t)
                    &&& s.input_path@ == or_text(payload.storage_path, Seq::empty())
                    &&& s.file_id@ == or_text(payload.file_id, "unknown"@)
                    &&& s.storage_id@ == or_text(payload.storage_id, "unknown"@)
                    &&& s.is_vtfx_passthrough == is_vtfx(t)
                    &&& s.is_results_format == is_results(t)
                    &&& s.available_slots == available_slots
                },
            },
        },
{
    let name = match &payload.file_name {
        Some(n) => n,
        None => return None,
    };
    let t = match FileType::from_path_ref(name.as_str(), None) {
        Some(t) => t,
        None => return None,
    };
    if !t.is_processable() {
        return None;
    }
    proof {
        reveal_strlit("");
    }
    Some(UploadSignal {
        file_type: crate::mapping::owned(t.name()),
        input_path: or_owned(&payload.storage_path, ""),
        file_id: or_owned(&payload.file_id, "unknown"),
        storage_id: or_owned(&payload.storage_id, "unknown"),
        is_vtfx_passthrough: t.is_vtfx_format(),
        is_results_format: t.is_results_format(),
        available_slots,
    })
}

/// Message when the processor could not be created.
pub open spec fn processor_failure_message(e: ConversionError) -> Seq<char> {
    "Failed to create conversion processor: "@ + conversion_error_message(e)
}

/// The CAD converter plugin.
#[derive(Debug)]
pub struct CadConverterPlugin {
    /// Plugin configuration.
    config: ConversionConfig,
    /// The conversion processor, once initialized.
    processor: Option<ConversionProcessor>,
}

impl CadConverterPlugin {
    /// The plugin's configuration.
    pub closed spec fn config_view(&self) -> ConversionConfig {
        self.config
    }

    /// The processor, once initialized.
    pub closed spec fn processor_view(&self) -> Option<ConversionProcessor> {
        self.processor
    }

    /// A plugin with the default configuration.
    pub fn new() -> (r: Self)
        ensures
            is_default_config(r.config_view()),
            r.processor_view() is None,
    {
        CadConverterPlugin { config: ConversionConfig::default(), processor: None }
    }

    /// A plugin with the given configuration.
    pub fn with_config(config: ConversionConfig) -> (r: Self)
        ensures
            r.config_view() == config,
            r.processor_view() is None,
    {
        CadConverterPlugin { config, processor: None }
    }

    /// Whether a file name is of a type the conversion pipeline processes.
    pub fn is_supported_file(filename: &str) -> (r: bool)
        ensures
            r == (processable_type(filename@) is Some),
    {
        match FileType::from_path_ref(filename, None) {
            Some(t) => t.is_processable(),
            None => false,
        }
    }

    /// The configuration.
    pub fn config(&self) -> (r: &ConversionConfig)
        ensures
            *r == self.config_view(),
    {
        &self.config
    }

    /// Whether the plugin has been initialized.
    pub fn is_initialized(&self) -> (r: bool)
        ensures
            r == (self.processor_view() is Some),
    {
        self.processor.is_some()
    }

    /// The processor, once initialized.
    pub fn processor(&self) -> (r: Option<&ConversionProcessor>)
        ensures
            match self.processor_view() {
                Some(p) => r == Some(&p),
                None => r is None,
            },
    {
        match &self.processor {
            Some(p) => Some(p),
            None => None,
        }
    }

    /// The processor, for recording work, once initialized.
    pub fn processor_mut(&mut self) -> (r: Option<&mut ConversionProcessor>)
        ensures
            match old(self).processor_view() {
                Some(p) => r matches Some(q) && *q == p && final(self).processor_view() == Some(*final(q)),
                None => r is None && final(self).processor_view() is None,
            },
            final(self).config_view() == old(self).config_view(),
    {
        match &mut self.processor {
            Some(p) => Some(p),
            None => None,
        }
    }

    /// A metrics snapshot, once initialized.
    pub fn metrics_snapshot(&self) -> (r: Option<MetricsSnapshot>)
        ensures
            match self.processor_view() {
                Some(p) => r matches Some(s) && s.conversions_started == p.counters().conversions_started
                    && s.conversions_succeeded == p.counters().conversions_succeeded
                    && s.conversions_failed == p.counters().conversions_failed
                    && s.conversions_timed_out == p.counters().conversions_timed_out
                    && s.conversions_cancelled == p.counters().conversions_cancelled
                    && s.vtfx_passthrough_count == p.counters().vtfx_passthrough_count
                    && s.total_output_bytes == p.counters().total_output_bytes
                    && s.total_input_bytes == p.counters().total_input_bytes
                    && (s.duration_p50, s.duration_p95, s.duration_p99) == percentiles_of(p.samples())
                    && s.sample_count == p.samples().len(),
                None => r is None,
            },
    {
        match &self.processor {
            Some(p) => Some(p.metrics_snapshot()),
            None => None,
        }
    }

    /// Initializes the plugin. A disabled plugin stays uninitialized and
    /// this succeeds. Otherwise the Jupiter path is resolved on a copy of the
    /// configuration (from the check of the configured path and, when
    /// needed, discovery; failing to find it is no error here), and the
    /// processor is created over the temporary root, whose creation
    /// `temp_root_created` reports.
    pub fn initialize(
        &mut self,
        explicit: Option<Result<JupiterInstallation, DiscoveryError>>,
        discovered: Option<Result<JupiterInstallation, DiscoveryError>>,
        temp_root_created: Result<(), String>,
        system_temp_dir: &str,
    ) -> (r: Result<(), String>)
        requires
            old(self).config_view().enabled && !(old(self).config_view().jupiter_path@.len() > 0
                && explicit matches Some(Ok(_))) ==> discovered is Some,
        ensures
            final(self).config_view() == old(self).config_view(),
            !old(self).config_view().enabled ==> r is Ok && final(self).processor_view()
                == old(self).processor_view(),
            old(self).config_view().enabled ==> match temp_root_created {
                Err(m) => (r matches Err(msg) && msg@ == processor_failure_message(ConversionError::Io(m)))
                    && final(self).processor_view() == old(self).processor_view(),
                Ok(()) => r is Ok && (final(self).processor_view() matches Some(p) && {
                    &&& p.temp_root_view() == match old(self).config_view().temp_root {
                        Some(t) => t@,
                        None => join(system_temp_dir@, "TechnoStar"@),
                    }
                    &&& p.config_view().jupiter_path@ == old(self).config_view().resolved_path(explicit, discovered)
                    &&& p.config_view().discovered_installation == old(self).config_view().resolved_installation(
                        explicit,
                        discovered,
                    )
                    &&& p.config_view().max_global_concurrency == old(self).config_view().max_global_concurrency
                    &&& p.config_view().max_io_concurrency == old(self).config_view().max_io_concurrency
                    &&& p.config_view().temp_root == old(self).config_view().temp_root
                    &&& p.config_view().enabled == old(self).config_view().enabled
                    &&& p.config_view().jupiter_timeout_seconds == old(self).config_view().jupiter_timeout_seconds
                    &&& p.config_view().max_retries == old(self).config_view().max_retries
                    &&& p.config_view().retry_delay_seconds == old(self).config_view().retry_delay_seconds
                    &&& p.config_view().min_output_bytes == old(self).config_view().min_output_bytes
                    &&& p.config_view().capture_output == old(self).config_view().capture_output
                    &&& p.counters() == crate::metrics::zero_counters()
                    &&& p.samples() == Seq::<u128>::empty()
                }),
            },
    {
        if !self.config.enabled {
            return Ok(());
        }
        let mut config = self.config.duplicate();
        let _ = config.resolve_jupiter_path(explicit, discovered);
        match temp_root_created {
            Err(m) => {
                let e = ConversionError::Io(m);
                let reason = e.message();
                proof {
                    reveal_strlit("Failed to create conversion processor: ");
                }
                Err(crate::text::concat2("Failed to create conversion processor: ", reason.as_str()))
            },
            Ok(()) => {
                let processor = ConversionProcessor::new(config, system_temp_dir);
                self.processor = Some(processor);
                Ok(())
            },
        }
    }
}

/// Plugin factory: a new instance with the default configuration.
pub fn create_plugin() -> (r: CadConverterPlugin)
    ensures
        is_default_config(r.config_view()),
        r.processor_view() is None,
{
    CadConverterPlugin::new()
}

/// Plugin factory with a custom configuration.
pub fn create_plugin_with_config(config: ConversionConfig) -> (r: CadConverterPlugin)
    ensures
        r.config_view() == config,
        r.processor_view() is None,
{
    CadConverterPlugin::with_config(config)
}

} // verus!
