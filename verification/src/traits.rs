//! Settings, policy and report types shared by the engine's components, and
//! the callback traits that kernel-side filters and monitors implement.
use vstd::prelude::*;
use crate::error::AntivirusError;
use crate::types::{ImageInfo, ProcessInfo, SandboxId, ThreadInfo, ThreatType, Timestamp};

verus! {

/// A downloaded update.
#[derive(Debug)]
pub struct UpdatePackage {
    pub version: String,
    pub data: Vec<u8>,
    pub signature: String,
}

/// What a sandbox run observed.
#[derive(Debug, Clone)]
pub struct ExecutionReport {
    pub sandbox_id: SandboxId,
    pub execution_time_ms: u64,
    pub exit_code: i32,
    pub behaviors_observed: Vec<String>,
    pub network_activity: Vec<NetworkActivity>,
    pub file_operations: Vec<FileOperation>,
    pub registry_operations: Vec<RegistryOperation>,
    pub is_malicious: bool,
}

/// How much a sandbox used. `cpu_percent` holds the IEEE-754
/// single-precision bits of the percentage.
#[derive(Debug, Clone, Copy, PartialEq, Eq, Structural)]
pub struct ResourceUsage {
    pub cpu_percent: u32,
    pub memory_mb: u64,
    pub disk_io_mb: u64,
    pub network_io_mb: u64,
}

/// Nothing used: every count zero (the bits of 0.0 are zero).
pub open spec fn no_usage() -> ResourceUsage {
    ResourceUsage { cpu_percent: 0, memory_mb: 0, disk_io_mb: 0, network_io_mb: 0 }
}

impl Default for ResourceUsage {
    fn default() -> (r: Self)
        ensures
            r == no_usage(),
    {
        ResourceUsage { cpu_percent: 0, memory_mb: 0, disk_io_mb: 0, network_io_mb: 0 }
    }
}

/// Whether a sandbox is running, since when, and what it used.
#[derive(Debug, Clone, Copy)]
pub struct SandboxStatus {
    pub is_running: bool,
    pub start_time: Timestamp,
    pub resource_usage: ResourceUsage,
}

/// A file-system event handed to a filter.
#[derive(Debug, Clone)]
pub struct CallbackData {
    pub file_path: String,
    pub process_id: u32,
    pub operation_type: String,
    pub flags: u32,
}

/// A filter's verdict on a file-system event.
#[derive(Debug, Clone, Copy, PartialEq, Eq, Structural)]
pub enum FilterResult {
    Allow,
    Block,
    ScanRequired,
    Quarantine,
}

/// A monitor's verdict on a process event.
#[derive(Debug, Clone, Copy, PartialEq, Eq, Structural)]
pub enum MonitorResult {
    Allow,
    Block,
    Monitor,
    Alert,
}

/// File system filtering operations (for kernel-mode driver)
pub trait FileSystemFilter {
    /// Handle file creation events
    fn pre_create(&self, callback_data: &CallbackData) -> FilterResult;

    /// Handle post-creation events
    fn post_create(&self, callback_data: &CallbackData) -> FilterResult;

    /// Handle file read events
    fn pre_read(&self, callback_data: &CallbackData) -> FilterResult;

    /// Handle file write events
    fn pre_write(&self, callback_data: &CallbackData) -> FilterResult;

    /// Handle file deletion events
    fn pre_delete(&self, callback_data: &CallbackData) -> FilterResult;
}

/// Process monitoring operations
pub trait ProcessMonitor {
    /// Handle process creation events
    fn on_process_create(&self, process_info: &ProcessInfo) -> MonitorResult;

    /// Handle process termination events
    fn on_process_terminate(&self, process_id: u32) -> MonitorResult;

    /// Handle thread creation events
    fn on_thread_create(&self, thread_info: &ThreadInfo) -> MonitorResult;

    /// Handle image/DLL load events
    fn on_image_load(&self, image_info: &ImageInfo) -> MonitorResult;
}

/// On-demand scan settings.
#[derive(Debug, Clone, Copy, PartialEq, Eq, Structural)]
pub struct ScanSettings {
    pub scan_archives: bool,
    pub scan_email: bool,
    pub scan_network_drives: bool,
    pub max_file_size_mb: u64,
    pub timeout_seconds: u32,
    pub heuristic_level: u8,
}

/// Real-time protection settings.
#[derive(Debug, Clone, Copy, PartialEq, Eq, Structural)]
pub struct RealtimeSettings {
    pub enabled: bool,
    pub scan_on_access: bool,
    pub scan_on_write: bool,
    pub scan_downloads: bool,
    pub scan_removable_media: bool,
}

/// A whitelisted file, with the time after which it no longer counts.
#[derive(Debug)]
pub struct WhitelistEntry {
    pub path: String,
    pub hash: Option<String>,
    pub expiry: Option<Timestamp>,
    pub reason: String,
}

impl Clone for WhitelistEntry {
    fn clone(&self) -> (r: Self)
        ensures
            r == *self,
    {
        WhitelistEntry {
            path: self.path.clone(),
            hash: match &self.hash {
                Some(h) => Some(h.clone()),
                None => None,
            },
            expiry: self.expiry,
            reason: self.reason.clone(),
        }
    }
}

/// Settings that an enterprise administrator imposes.
#[derive(Debug)]
pub struct EnterprisePolicy {
    pub policy_version: String,
    pub scan_settings: ScanSettings,
    pub realtime_settings: RealtimeSettings,
    pub update_settings: UpdateSettings,
    pub restrictions: PolicyRestrictions,
}

impl Clone for EnterprisePolicy {
    fn clone(&self) -> (r: Self)
        ensures
            r == *self,
    {
        EnterprisePolicy {
            policy_version: self.policy_version.clone(),
            scan_settings: self.scan_settings,
            realtime_settings: self.realtime_settings,
            update_settings: self.update_settings.clone(),
            restrictions: self.restrictions,
        }
    }
}

/// The local settings with the enterprise policy, if any.
#[derive(Debug, Clone)]
pub struct Policy {
    pub local_settings: LocalSettings,
    pub enterprise_policy: Option<EnterprisePolicy>,
}

/// Settings chosen on the machine itself.
#[derive(Debug, Clone)]
pub struct LocalSettings {
    pub scan_settings: ScanSettings,
    pub realtime_settings: RealtimeSettings,
    pub ui_settings: UISettings,
}

/// Update settings.
#[derive(Debug)]
pub struct UpdateSettings {
    pub auto_update: bool,
    pub update_frequency_hours: u32,
    pub update_server_url: String,
    pub use_delta_updates: bool,
}

impl Clone for UpdateSettings {
    fn clone(&self) -> (r: Self)
        ensures
            r == *self,
    {
        UpdateSettings {
            auto_update: self.auto_update,
            update_frequency_hours: self.update_frequency_hours,
            update_server_url: self.update_server_url.clone(),
            use_delta_updates: self.use_delta_updates,
        }
    }
}

/// What the policy allows users to do.
#[derive(Debug, Clone, Copy, PartialEq, Eq, Structural)]
pub struct PolicyRestrictions {
    pub allow_user_whitelist: bool,
    pub allow_disable_realtime: bool,
    pub allow_quarantine_restore: bool,
    pub require_admin_for_settings: bool,
}

/// User interface settings.
#[derive(Debug, Clone)]
pub struct UISettings {
    pub language: String,
    pub show_notifications: bool,
    pub notification_level: NotificationLevel,
    pub theme: UITheme,
}

/// Which events are shown to the user.
#[derive(Debug, Clone, Copy, PartialEq, Eq, Structural)]
pub enum NotificationLevel {
    All,
    ThreatsOnly,
    Critical,
    /// No notifications at all.
    Off,
}

/// Colour scheme of the user interface.
#[derive(Debug, Clone, Copy, PartialEq, Eq, Structural)]
pub enum UITheme {
    Light,
    Dark,
    System,
}

/// A connection seen in a sandbox.
#[derive(Debug, Clone)]
pub struct NetworkActivity {
    pub destination: String,
    pub port: u16,
    pub protocol: String,
    pub bytes_sent: u64,
    pub bytes_received: u64,
}

/// A file operation seen in a sandbox.
#[derive(Debug, Clone)]
pub struct FileOperation {
    pub operation: String,
    pub file_path: String,
    pub success: bool,
}

/// A registry operation seen in a sandbox.
#[derive(Debug, Clone)]
pub struct RegistryOperation {
    pub operation: String,
    pub key_path: String,
    pub value_name: Option<String>,
    pub success: bool,
}

/// The versions of the engine and of its signatures, and when they were
/// last updated.
#[derive(Debug, Clone)]
pub struct VersionInfo {
    pub engine_version: String,
    pub signature_version: String,
    pub last_update: Timestamp,
}

/// The features extracted from a file for classification, each with its
/// name. The features hold the IEEE-754 single-precision bits of their
/// values.
#[derive(Debug, Clone)]
pub struct FeatureVector {
    pub features: Vec<u32>,
    pub feature_names: Vec<String>,
}

/// A classifier's verdict on a file. `confidence` holds single-precision
/// bits.
#[derive(Debug, Clone)]
pub struct ClassificationResult {
    pub is_malicious: bool,
    pub confidence: u32,
    pub threat_type: Option<ThreatType>,
    pub explanation: String,
}

/// The classifier's model. `accuracy` holds single-precision bits.
#[derive(Debug, Clone)]
pub struct ModelInfo {
    pub model_version: String,
    pub model_type: String,
    pub last_updated: Timestamp,
    pub accuracy: u32,
}

/// Reading and changing the configuration in force.
pub trait ConfigOperations {
    /// The on-demand scan settings.
    fn get_scan_settings(&self) -> ScanSettings;

    /// The real-time protection settings.
    fn get_realtime_settings(&self) -> RealtimeSettings;

    /// Replaces the whitelist.
    fn update_whitelist(&self, entries: Vec<WhitelistEntry>) -> Result<(), AntivirusError>;

    /// Puts an enterprise policy in force.
    fn apply_enterprise_policy(&self, policy: EnterprisePolicy) -> Result<(), AntivirusError>;

    /// Saves the configuration.
    fn save_config(&self) -> Result<(), AntivirusError>;
}

} // verus!
