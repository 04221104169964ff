//! Configuration for the CAD conversion subsystem.

use vstd::prelude::*;
use crate::error::ConversionError;
use crate::jupiter::{DiscoveryError, DiscoveryMethod, JupiterInstallation, opt_view};
use crate::paths::{join, path_join};

verus! {

/// Configuration for the TechnoStar Jupiter-based CAD converter.
///
/// If `jupiter_path` is empty, the plugin attempts to discover the
/// Jupiter-Web installation.
#[derive(Debug)]
pub struct ConversionConfig {
    /// Path to the Jupiter-Web launcher (Start_It.bat); empty means auto-discover.
    pub jupiter_path: String,
    /// Global limit for concurrent heavy Jupiter instances (1..=4).
    pub max_global_concurrency: usize,
    /// Concurrency limit for lightweight IO operations (1..=16).
    pub max_io_concurrency: usize,
    /// Root directory for temporary conversion working files.
    pub temp_root: Option<String>,
    /// Whether the plugin is enabled.
    pub enabled: bool,
    /// Timeout in seconds for a single Jupiter process invocation (30..=7200).
    pub jupiter_timeout_seconds: u64,
    /// Maximum retry attempts for transient Jupiter failures (0..=5).
    pub max_retries: u32,
    /// Delay in seconds between retry attempts.
    pub retry_delay_seconds: u64,
    /// Minimum output file size (bytes) to consider conversion successful.
    pub min_output_bytes: u64,
    /// Whether to capture Jupiter stdout/stderr for diagnostics.
    pub capture_output: bool,
    /// Cached discovery result, populated at runtime.
    pub discovered_installation: Option<JupiterInstallation>,
}

/// Default global concurrency.
pub fn default_max_global_concurrency() -> (r: usize)
    ensures
        r == 4,
{
    4
}

/// Default IO concurrency.
pub fn default_max_io_concurrency() -> (r: usize)
    ensures
        r == 16,
{
    16
}

/// Plugins are enabled by default.
pub fn default_enabled() -> (r: bool)
    ensures
        r,
{
    true
}

/// Default Jupiter timeout in seconds.
pub fn default_jupiter_timeout_seconds() -> (r: u64)
    ensures
        r == 600,
{
    600
}

/// Default number of retries.
pub fn default_max_retries() -> (r: u32)
    ensures
        r == 1,
{
    1
}

/// Default delay between retries in seconds.
pub fn default_retry_delay_seconds() -> (r: u64)
    ensures
        r == 5,
{
    5
}

/// Default minimum output size in bytes.
pub fn default_min_output_bytes() -> (r: u64)
    ensures
        r == 100,
{
    100
}

/// Output is captured by default.
pub fn default_capture_output() -> (r: bool)
    ensures
        r,
{
    true
}

/// The default configuration, field by field.
pub open spec fn is_default_config(c: ConversionConfig) -> bool {
    &&& c.jupiter_path@.len() == 0
    &&& c.max_global_concurrency == 4
    &&& c.max_io_concurrency == 16
    &&& c.temp_root is None
    &&& c.enabled
    &&& c.jupiter_timeout_seconds == 600
    &&& c.max_retries == 1
    &&& c.retry_delay_seconds == 5
    &&& c.min_output_bytes == 100
    &&& c.capture_output
    &&& c.discovered_installation is None
}

impl ConversionConfig {
    /// An equal, independent copy.
    pub fn duplicate(&self) -> (r: Self)
        ensures
            r == *self,
    {
        ConversionConfig {
            jupiter_path: self.jupiter_path.clone(),
            max_global_concurrency: self.max_global_concurrency,
            max_io_concurrency: self.max_io_concurrency,
            temp_root: crate::jupiter::copy_opt_string(&self.temp_root),
            enabled: self.enabled,
            jupiter_timeout_seconds: self.jupiter_timeout_seconds,
            max_retries: self.max_retries,
            retry_delay_seconds: self.retry_delay_seconds,
            min_output_bytes: self.min_output_bytes,
            capture_output: self.capture_output,
            discovered_installation: match &self.discovered_installation {
                Some(i) => Some(i.duplicate()),
                None => None,
            },
        }
    }
}

impl Default for ConversionConfig {
    fn default() -> (r: ConversionConfig)
        ensures
            is_default_config(r),
    {
        ConversionConfig {
            jupiter_path: String::new(),
            max_global_concurrency: default_max_global_concurrency(),
            max_io_concurrency: default_max_io_concurrency(),
            temp_root: None,
            enabled: default_enabled(),
            jupiter_timeout_seconds: default_jupiter_timeout_seconds(),
            max_retries: default_max_retries(),
            retry_delay_seconds: default_retry_delay_seconds(),
            min_output_bytes: default_min_output_bytes(),
            capture_output: default_capture_output(),
            discovered_installation: None,
        }
    }
}

/// The names of the fields whose value lies outside its allowed range, in
/// declaration order.
pub open spec fn range_violations_of(c: ConversionConfig) -> Seq<Seq<char>> {
    let a: Seq<Seq<char>> = if 1 <= c.max_global_concurrency <= 4 {
        seq![]
    } else {
        seq!["max_global_concurrency"@]
    };
    let b: Seq<Seq<char>> = if 1 <= c.max_io_concurrency <= 16 {
        seq![]
    } else {
        seq!["max_io_concurrency"@]
    };
    let d: Seq<Seq<char>> = if 30 <= c.jupiter_timeout_seconds <= 7200 {
        seq![]
    } else {
        seq!["jupiter_timeout_seconds"@]
    };
    let e: Seq<Seq<char>> = if c.max_retries <= 5 {
        seq![]
    } else {
        seq!["max_retries"@]
    };
    a + b + d + e
}

/// The summary line for a discovery method.
pub open spec fn method_label(m: DiscoveryMethod) -> Seq<char> {
    match m {
        DiscoveryMethod::WindowsRegistry => "registry"@,
        DiscoveryMethod::CommonPath => "common path"@,
        DiscoveryMethod::SystemPath => "system PATH"@,
        DiscoveryMethod::ExplicitConfig => "explicit config"@,
    }
}

/// The human-readable summary of a configuration.
pub open spec fn summary_of(c: ConversionConfig) -> Seq<char> {
    match c.discovered_installation {
        Some(inst) => {
            let name = match opt_view(inst.display_name) {
                Some(n) => n,
                None => "Jupiter-Web"@,
            };
            let version = match opt_view(inst.display_version) {
                Some(v) => v,
                None => "unknown"@,
            };
            name + " v"@ + version + " at "@ + inst.launcher_path@ + " (found via "@
                + method_label(inst.discovery_method) + ")"@
        },
        None => if c.jupiter_path@.len() == 0 {
            "Not configured, auto-discovery not yet attempted"@
        } else {
            "Configured: "@ + c.jupiter_path@ + " (not validated)"@
        },
    }
}

impl ConversionConfig {
    /// The names of the fields whose value lies outside its allowed range.
    pub fn range_violations(&self) -> (r: Vec<&'static str>)
        ensures
            r@.map_values(|s: &str| s@) == range_violations_of(*self),
    {
        let mut r: Vec<&'static str> = Vec::new();
        if !(1 <= self.max_global_concurrency && self.max_global_concurrency <= 4) {
            r.push("max_global_concurrency");
        }
        if !(1 <= self.max_io_concurrency && self.max_io_concurrency <= 16) {
            r.push("max_io_concurrency");
        }
        if !(30 <= self.jupiter_timeout_seconds && self.jupiter_timeout_seconds <= 7200) {
            r.push("jupiter_timeout_seconds");
        }
        if !(self.max_retries <= 5) {
            r.push("max_retries");
        }
        assert(r@.map_values(|s: &str| s@) =~= range_violations_of(*self));
        r
    }

    /// Resolve the effective temp root directory: the configured one, or
    /// `TechnoStar` inside the system temporary directory.
    pub fn effective_temp_root(&self, system_temp_dir: &str) -> (r: String)
        ensures
            r@ == match self.temp_root {
                Some(t) => t@,
                None => join(system_temp_dir@, "TechnoStar"@),
            },
    {
        match &self.temp_root {
            Some(t) => t.clone(),
            None => path_join(system_temp_dir, "TechnoStar"),
        }
    }

    /// Whether discovery has to run after checking the configured path: the
    /// path is empty, or checking it failed.
    pub fn needs_discovery(&self, explicit: &Option<Result<JupiterInstallation, DiscoveryError>>) -> (r: bool)
        ensures
            r == !(self.jupiter_path@.len() > 0 && explicit matches Some(Ok(_))),
    {
        if !self.jupiter_path.as_str().is_empty() {
            match explicit {
                Some(Ok(_)) => false,
                _ => true,
            }
        } else {
            true
        }
    }

    /// The installation recorded after resolution: the checked one when the
    /// configured path checked out, else the discovered one, else the old one.
    pub open spec fn resolved_installation(
        &self,
        explicit: Option<Result<JupiterInstallation, DiscoveryError>>,
        discovered: Option<Result<JupiterInstallation, DiscoveryError>>,
    ) -> Option<JupiterInstallation> {
        match (explicit, discovered) {
            (Some(Ok(i)), _) if self.jupiter_path@.len() > 0 => Some(i),
            (_, Some(Ok(d))) => Some(d),
            _ => self.discovered_installation,
        }
    }

    /// The launcher path configured after resolution: kept when the
    /// configured path checked out, the discovered launcher otherwise, and
    /// kept when nothing was found.
    pub open spec fn resolved_path(
        &self,
        explicit: Option<Result<JupiterInstallation, DiscoveryError>>,
        discovered: Option<Result<JupiterInstallation, DiscoveryError>>,
    ) -> Seq<char> {
        match (explicit, discovered) {
            (Some(Ok(_)), _) if self.jupiter_path@.len() > 0 => self.jupiter_path@,
            (_, Some(Ok(d))) => d.launcher_path@,
            _ => self.jupiter_path@,
        }
    }

    /// Resolve the effective Jupiter launcher path from the check of the
    /// configured path (`explicit`, made when it is non-empty) and, when that
    /// is absent or failed, the result of discovery.
    pub fn resolve_jupiter_path(
        &mut self,
        explicit: Option<Result<JupiterInstallation, DiscoveryError>>,
        discovered: Option<Result<JupiterInstallation, DiscoveryError>>,
    ) -> (r: Result<String, ConversionError>)
        requires
            !(old(self).jupiter_path@.len() > 0 && explicit matches Some(Ok(_))) ==> discovered is Some,
        ensures
            old(self).jupiter_path@.len() > 0 ==> match explicit {
                Some(Ok(inst)) => r matches Ok(p) && p@ == inst.launcher_path@
                    && final(self).discovered_installation == Some(inst)
                    && final(self).jupiter_path == old(self).jupiter_path,
                _ => true,
            },
            !(old(self).jupiter_path@.len() > 0 && explicit matches Some(Ok(_))) ==> match discovered {
                Some(Ok(inst)) => r matches Ok(p) && p@ == inst.launcher_path@
                    && final(self).jupiter_path@ == inst.launcher_path@
                    && final(self).discovered_installation == Some(inst),
                _ => r matches Err(ConversionError::JupiterNotFound { path })
                    && path@ == old(self).jupiter_path@ && final(self).jupiter_path
                    == old(self).jupiter_path && final(self).discovered_installation
                    == old(self).discovered_installation,
            },
            final(self).jupiter_path@ == old(self).resolved_path(explicit, discovered),
            final(self).discovered_installation == old(self).resolved_installation(explicit, discovered),
            final(self).max_global_concurrency == old(self).max_global_concurrency,
            final(self).max_io_concurrency == old(self).max_io_concurrency,
            final(self).temp_root == old(self).temp_root,
            final(self).enabled == old(self).enabled,
            final(self).jupiter_timeout_seconds == old(self).jupiter_timeout_seconds,
            final(self).max_retries == old(self).max_retries,
            final(self).retry_delay_seconds == old(self).retry_delay_seconds,
            final(self).min_output_bytes == old(self).min_output_bytes,
            final(self).capture_output == old(self).capture_output,
    {
        if !self.jupiter_path.as_str().is_empty() {
            match explicit {
                Some(Ok(inst)) => {
                    let path = inst.launcher_path.clone();
                    self.discovered_installation = Some(inst);
                    return Ok(path);
                },
                _ => {},
            }
        }
        match discovered {
            Some(Ok(inst)) => {
                let path = inst.launcher_path.clone();
                self.jupiter_path = inst.launcher_path.clone();
                self.discovered_installation = Some(inst);
                Ok(path)
            },
            _ => Err(ConversionError::JupiterNotFound { path: self.jupiter_path.clone() }),
        }
    }

    /// Whether the Jupiter path has been resolved: it is set, and the launcher
    /// exists there (`launcher_exists`, as the filesystem says).
    pub fn is_jupiter_resolved(&self, launcher_exists: bool) -> (r: bool)
        ensures
            r == (self.jupiter_path@.len() > 0 && launcher_exists),
    {
        !self.jupiter_path.as_str().is_empty() && launcher_exists
    }

    /// Get discovery information (if auto-discovery was used).
    pub fn discovery_info(&self) -> (r: Option<&JupiterInstallation>)
        ensures
            match self.discovered_installation {
                Some(i) => r == Some(&i),
                None => r is None,
            },
    {
        match &self.discovered_installation {
            Some(i) => Some(i),
            None => None,
        }
    }

    /// Get a human-readable summary of the Jupiter configuration.
    pub fn jupiter_summary(&self) -> (r: String)
        ensures
            r@ == summary_of(*self),
    {
        match &self.discovered_installation {
            Some(inst) => {
                let mut r = match &inst.display_name {
                    Some(n) => n.clone(),
                    None => "Jupiter-Web".to_owned(),
                };
                r.append(" v");
                match &inst.display_version {
                    Some(v) => r.append(v.as_str()),
                    None => r.append("unknown"),
                }
                r.append(" at ");
                r.append(inst.launcher_path.as_str());
                r.append(" (found via ");
                let method = match inst.discovery_method {
                    DiscoveryMethod::WindowsRegistry => "registry",
                    DiscoveryMethod::CommonPath => "common path",
                    DiscoveryMethod::SystemPath => "system PATH",
                    DiscoveryMethod::ExplicitConfig => "explicit config",
                };
                r.append(method);
                r.append(")");
                r
            },
            None => {
                if self.jupiter_path.as_str().is_empty() {
                    "Not configured, auto-discovery not yet attempted".to_owned()
                } else {
                    crate::text::concat3("Configured: ", self.jupiter_path.as_str(), " (not validated)")
                }
            },
        }
    }
}

} // verus!
