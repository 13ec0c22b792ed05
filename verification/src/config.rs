//! Configuration of the antivirus service: defaults, validation, merging of
//! a second configuration into the first, and the effect of an enterprise
//! policy.
use vstd::prelude::*;
use crate::error::ConfigError;
use crate::paths::{paths_equal, same_path};
use crate::text::owned;
use crate::traits::{
    EnterprisePolicy, NotificationLevel, RealtimeSettings, ScanSettings, UISettings, UITheme,
    UpdateSettings, WhitelistEntry,
};

verus! {

/// Main configuration structure for the antivirus system
#[derive(Debug, Clone)]
pub struct AntivirusConfig {
    pub service: ServiceConfig,
    pub realtime_protection: RealtimeSettings,
    pub scan_settings: ScanSettings,
    pub quarantine: QuarantineConfig,
    pub update: UpdateSettings,
    pub logging: LoggingConfig,
    pub ui: UISettings,
    pub whitelist: Vec<WhitelistEntry>,
    pub enterprise_policy: Option<EnterprisePolicy>,
}

/// Settings of the service process.
#[derive(Debug, Clone)]
pub struct ServiceConfig {
    pub service_name: String,
    pub pipe_name: String,
    pub max_concurrent_scans: u32,
    pub scan_timeout_seconds: u32,
    pub memory_limit_mb: u64,
}

/// Where and how quarantined files are kept.
#[derive(Debug, Clone)]
pub struct QuarantineConfig {
    pub quarantine_path: String,
    pub max_quarantine_size_mb: u64,
    pub auto_delete_after_days: u32,
    pub encryption_key_path: String,
}

/// Logging settings.
#[derive(Debug, Clone)]
pub struct LoggingConfig {
    pub log_level: String,
    pub log_file_path: String,
    pub max_log_file_size_mb: u64,
    pub max_log_files: u32,
    pub enable_console_logging: bool,
    pub enable_windows_event_log: bool,
    pub enable_json_logging: bool,
}

impl Default for ServiceConfig {
    fn default() -> (r: Self)
        ensures
            r.service_name@ == "WindowsAntivirusService"@,
            r.pipe_name@ == "\\\\.\\pipe\\av_service"@,
            r.max_concurrent_scans == 4,
            r.scan_timeout_seconds == 3600,
            r.memory_limit_mb == 1024,
    {
        ServiceConfig {
            service_name: owned("WindowsAntivirusService"),
            pipe_name: owned("\\\\.\\pipe\\av_service"),
            max_concurrent_scans: 4,
            scan_timeout_seconds: 3600,
            memory_limit_mb: 1024,
        }
    }
}

impl Default for QuarantineConfig {
    fn default() -> (r: Self)
        ensures
            r.quarantine_path@ == "C:\\ProgramData\\WindowsAntivirus\\Quarantine"@,
            r.max_quarantine_size_mb == 10240,
            r.auto_delete_after_days == 30,
            r.encryption_key_path@ == "C:\\ProgramData\\WindowsAntivirus\\quarantine.key"@,
    {
        QuarantineConfig {
            quarantine_path: owned("C:\\ProgramData\\WindowsAntivirus\\Quarantine"),
            max_quarantine_size_mb: 10240,
            auto_delete_after_days: 30,
            encryption_key_path: owned("C:\\ProgramData\\WindowsAntivirus\\quarantine.key"),
        }
    }
}

impl Default for LoggingConfig {
    fn default() -> (r: Self)
        ensures
            r.log_level@ == "info"@,
            r.log_file_path@ == "C:\\ProgramData\\WindowsAntivirus\\Logs\\antivirus.log"@,
            r.max_log_file_size_mb == 100,
            r.max_log_files == 10,
            !r.enable_console_logging,
            r.enable_windows_event_log,
            r.enable_json_logging,
    {
        LoggingConfig {
            log_level: owned("info"),
            log_file_path: owned("C:\\ProgramData\\WindowsAntivirus\\Logs\\antivirus.log"),
            max_log_file_size_mb: 100,
            max_log_files: 10,
            enable_console_logging: false,
            enable_windows_event_log: true,
            enable_json_logging: true,
        }
    }
}

/// The default scan settings.
pub open spec fn default_scan_settings() -> ScanSettings {
    ScanSettings {
        scan_archives: true,
        scan_email: true,
        scan_network_drives: false,
        max_file_size_mb: 100,
        timeout_seconds: 30,
        heuristic_level: 2,
    }
}

/// The default real-time settings: everything on.
pub open spec fn default_realtime_settings() -> RealtimeSettings {
    RealtimeSettings {
        enabled: true,
        scan_on_access: true,
        scan_on_write: true,
        scan_downloads: true,
        scan_removable_media: true,
    }
}

impl Default for ScanSettings {
    fn default() -> (r: Self)
        ensures
            r == default_scan_settings(),
    {
        ScanSettings {
            scan_archives: true,
            scan_email: true,
            scan_network_drives: false,
            max_file_size_mb: 100,
            timeout_seconds: 30,
            heuristic_level: 2,
        }
    }
}

impl Default for RealtimeSettings {
    fn default() -> (r: Self)
        ensures
            r == default_realtime_settings(),
    {
        RealtimeSettings {
            enabled: true,
            scan_on_access: true,
            scan_on_write: true,
            scan_downloads: true,
            scan_removable_media: true,
        }
    }
}

impl Default for UpdateSettings {
    fn default() -> (r: Self)
        ensures
            r.auto_update,
            r.update_frequency_hours == 4,
            r.update_server_url@ == "https://updates.windowsantivirus.com"@,
            r.use_delta_updates,
    {
        UpdateSettings {
            auto_update: true,
            update_frequency_hours: 4,
            update_server_url: owned("https://updates.windowsantivirus.com"),
            use_delta_updates: true,
        }
    }
}

impl Default for UISettings {
    fn default() -> (r: Self)
        ensures
            r.language@ == "en"@,
            r.show_notifications,
            r.notification_level == NotificationLevel::ThreatsOnly,
            r.theme == UITheme::System,
    {
        UISettings {
            language: owned("en"),
            show_notifications: true,
            notification_level: NotificationLevel::ThreatsOnly,
            theme: UITheme::System,
        }
    }
}

/// Every field of a configuration holds its default value.
pub open spec fn is_default_config(c: AntivirusConfig) -> bool {
    &&& c.service.service_name@ == "WindowsAntivirusService"@
    &&& c.service.pipe_name@ == "\\\\.\\pipe\\av_service"@
    &&& c.service.max_concurrent_scans == 4
    &&& c.service.scan_timeout_seconds == 3600
    &&& c.service.memory_limit_mb == 1024
    &&& c.realtime_protection == default_realtime_settings()
    &&& c.scan_settings == default_scan_settings()
    &&& c.quarantine.quarantine_path@ == "C:\\ProgramData\\WindowsAntivirus\\Quarantine"@
    &&& c.quarantine.max_quarantine_size_mb == 10240
    &&& c.quarantine.auto_delete_after_days == 30
    &&& c.quarantine.encryption_key_path@ == "C:\\ProgramData\\WindowsAntivirus\\quarantine.key"@
    &&& c.update.auto_update
    &&& c.update.update_frequency_hours == 4
    &&& c.update.update_server_url@ == "https://updates.windowsantivirus.com"@
    &&& c.update.use_delta_updates
    &&& c.logging.log_level@ == "info"@
    &&& c.logging.log_file_path@ == "C:\\ProgramData\\WindowsAntivirus\\Logs\\antivirus.log"@
    &&& c.logging.max_log_file_size_mb == 100
    &&& c.logging.max_log_files == 10
    &&& !c.logging.enable_console_logging
    &&& c.logging.enable_windows_event_log
    &&& c.logging.enable_json_logging
    &&& c.ui.language@ == "en"@
    &&& c.ui.show_notifications
    &&& c.ui.notification_level == NotificationLevel::ThreatsOnly
    &&& c.ui.theme == UITheme::System
    &&& c.whitelist@.len() == 0
    &&& c.enterprise_policy is None
}

impl Default for AntivirusConfig {
    fn default() -> (r: Self)
        ensures
            is_default_config(r),
            r.service.max_concurrent_scans == 4,
            r.service.scan_timeout_seconds == 3600,
            r.service.memory_limit_mb == 1024,
            r.service.service_name@ == "WindowsAntivirusService"@,
            r.realtime_protection == default_realtime_settings(),
            r.scan_settings == default_scan_settings(),
            r.quarantine.max_quarantine_size_mb == 10240,
            r.quarantine.auto_delete_after_days == 30,
            r.update.update_frequency_hours == 4,
            r.logging.max_log_file_size_mb == 100,
            r.logging.max_log_files == 10,
            r.whitelist@.len() == 0,
            r.enterprise_policy is None,
    {
        AntivirusConfig {
            service: ServiceConfig::default(),
            realtime_protection: RealtimeSettings::default(),
            scan_settings: ScanSettings::default(),
            quarantine: QuarantineConfig::default(),
            update: UpdateSettings::default(),
            logging: LoggingConfig::default(),
            ui: UISettings::default(),
            whitelist: Vec::new(),
            enterprise_policy: None,
        }
    }
}

/// The first rule that the configuration breaks, as its message.
pub open spec fn config_error(c: AntivirusConfig) -> Option<Seq<char>> {
    if c.service.max_concurrent_scans == 0 {
        Some("max_concurrent_scans must be greater than 0"@)
    } else if c.service.scan_timeout_seconds == 0 {
        Some("scan_timeout_seconds must be greater than 0"@)
    } else if c.quarantine.max_quarantine_size_mb == 0 {
        Some("max_quarantine_size_mb must be greater than 0"@)
    } else if c.scan_settings.max_file_size_mb == 0 {
        Some("max_file_size_mb must be greater than 0"@)
    } else if c.scan_settings.heuristic_level > 5 {
        Some("heuristic_level must be between 0 and 5"@)
    } else if c.update.update_frequency_hours == 0 {
        Some("update_frequency_hours must be greater than 0"@)
    } else if c.logging.max_log_file_size_mb == 0 {
        Some("max_log_file_size_mb must be greater than 0"@)
    } else if c.logging.max_log_files == 0 {
        Some("max_log_files must be greater than 0"@)
    } else {
        None
    }
}

/// Some entry of `s` has a path equal to `p`.
pub open spec fn has_path(s: Seq<WhitelistEntry>, p: Seq<char>) -> bool {
    exists|i: int| 0 <= i < s.len() && same_path(#[trigger] s[i].path@, p)
}

/// No two entries of `s` have equal paths.
pub open spec fn paths_distinct(s: Seq<WhitelistEntry>) -> bool {
    forall|i: int, j: int|
        0 <= i < j < s.len() ==> !same_path(#[trigger] s[i].path@, #[trigger] s[j].path@)
}

/// `base` with each entry of `add`, in order, whose path it does not hold yet.
pub open spec fn merged_whitelist(base: Seq<WhitelistEntry>, add: Seq<WhitelistEntry>) -> Seq<
    WhitelistEntry,
>
    decreases add.len(),
{
    if add.len() == 0 {
        base
    } else {
        let m = merged_whitelist(base, add.drop_last());
        if has_path(m, add.last().path@) {
            m
        } else {
            m.push(add.last())
        }
    }
}

/// Merging entries whose paths are all present changes nothing.
proof fn lemma_merge_present(base: Seq<WhitelistEntry>, add: Seq<WhitelistEntry>)
    requires
        forall|k: int| 0 <= k < add.len() ==> has_path(base, #[trigger] add[k].path@),
    ensures
        merged_whitelist(base, add) == base,
    decreases add.len(),
{
    if add.len() > 0 {
        assert forall|k: int| 0 <= k < add.drop_last().len() implies has_path(base, #[trigger] add.drop_last()[k].path@) by {
            assert(add.drop_last()[k] == add[k]);
        }
        lemma_merge_present(base, add.drop_last());
        assert(has_path(base, add[add.len() - 1].path@));
    }
}

/// Merging the same whitelist twice gives what merging it once gave.
pub proof fn lemma_merged_whitelist_idempotent(base: Seq<WhitelistEntry>, add: Seq<WhitelistEntry>)
    ensures
        merged_whitelist(merged_whitelist(base, add), add) == merged_whitelist(base, add),
{
    let m = merged_whitelist(base, add);
    assert forall|k: int| 0 <= k < add.len() implies has_path(m, #[trigger] add[k].path@) by {
        lemma_merge_covers(base, add, k);
    }
    lemma_merge_present(m, add);
}

/// `after` is `before` merged with `other`, as `merge_with` leaves it.
pub open spec fn merged_into(before: AntivirusConfig, other: AntivirusConfig, after: AntivirusConfig) -> bool {
    &&& after.service.max_concurrent_scans == other.service.max_concurrent_scans
    &&& after.service.service_name == before.service.service_name
    &&& after.service.pipe_name == before.service.pipe_name
    &&& after.service.scan_timeout_seconds == before.service.scan_timeout_seconds
    &&& after.service.memory_limit_mb == before.service.memory_limit_mb
    &&& after.realtime_protection == other.realtime_protection
    &&& after.scan_settings == other.scan_settings
    &&& after.enterprise_policy == (if other.enterprise_policy is Some {
        other.enterprise_policy
    } else {
        before.enterprise_policy
    })
    &&& after.whitelist@ == merged_whitelist(before.whitelist@, other.whitelist@)
    &&& after.quarantine == before.quarantine
    &&& after.update == before.update
    &&& after.logging == before.logging
    &&& after.ui == before.ui
}

/// Merging the same configuration a second time changes nothing: every
/// field, and the whitelist, stay as the first merge left them.
pub proof fn lemma_merge_idempotent(
    c0: AntivirusConfig,
    other: AntivirusConfig,
    c1: AntivirusConfig,
    c2: AntivirusConfig,
)
    requires
        merged_into(c0, other, c1),
        merged_into(c1, other, c2),
    ensures
        c2.service == c1.service,
        c2.realtime_protection == c1.realtime_protection,
        c2.scan_settings == c1.scan_settings,
        c2.enterprise_policy == c1.enterprise_policy,
        c2.whitelist@ == c1.whitelist@,
        c2.quarantine == c1.quarantine,
        c2.update == c1.update,
        c2.logging == c1.logging,
        c2.ui == c1.ui,
{
    lemma_merged_whitelist_idempotent(c0.whitelist@, other.whitelist@);
}

fn validation_failed(msg: &str) -> (r: Result<(), ConfigError>)
    ensures
        r matches Err(ConfigError::ValidationFailed(m)) && m@ == msg@,
{
    Err(ConfigError::ValidationFailed(owned(msg)))
}

fn whitelist_has_path(s: &Vec<WhitelistEntry>, p: &str) -> (r: bool)
    ensures
        r == has_path(s@, p@),
{
    let mut i: usize = 0;
    while i < s.len()
        invariant
            i <= s@.len(),
            forall|j: int| 0 <= j < i ==> !same_path(#[trigger] s@[j].path@, p@),
        decreases s@.len() - i,
    {
        if paths_equal(s[i].path.as_str(), p) {
            return true;
        }
        i = i + 1;
    }
    false
}

impl AntivirusConfig {
    /// Validate the configuration
    pub fn validate(&self) -> (r: Result<(), ConfigError>)
        ensures
            r is Ok <==> config_error(*self) is None,
            r matches Err(e) ==> (e matches ConfigError::ValidationFailed(m) && config_error(*self) == Some(m@)),
    {
        if self.service.max_concurrent_scans == 0 {
            return validation_failed("max_concurrent_scans must be greater than 0");
        }
        if self.service.scan_timeout_seconds == 0 {
            return validation_failed("scan_timeout_seconds must be greater than 0");
        }
        if self.quarantine.max_quarantine_size_mb == 0 {
            return validation_failed("max_quarantine_size_mb must be greater than 0");
        }
        if self.scan_settings.max_file_size_mb == 0 {
            return validation_failed("max_file_size_mb must be greater than 0");
        }
        if self.scan_settings.heuristic_level > 5 {
            return validation_failed("heuristic_level must be between 0 and 5");
        }
        if self.update.update_frequency_hours == 0 {
            return validation_failed("update_frequency_hours must be greater than 0");
        }
        if self.logging.max_log_file_size_mb == 0 {
            return validation_failed("max_log_file_size_mb must be greater than 0");
        }
        if self.logging.max_log_files == 0 {
            return validation_failed("max_log_files must be greater than 0");
        }
        Ok(())
    }

    /// Merge with another configuration (other takes precedence): the scan
    /// limit, the real-time and scan settings come from `other`, its policy
    /// replaces ours when it has one, and its whitelist entries are appended
    /// unless an entry with an equal path is already there.
    pub fn merge_with(&mut self, other: &AntivirusConfig)
        ensures
            final(self).service.max_concurrent_scans == other.service.max_concurrent_scans,
            final(self).service.service_name == old(self).service.service_name,
            final(self).service.pipe_name == old(self).service.pipe_name,
            final(self).service.scan_timeout_seconds == old(self).service.scan_timeout_seconds,
            final(self).service.memory_limit_mb == old(self).service.memory_limit_mb,
            final(self).realtime_protection == other.realtime_protection,
            final(self).scan_settings == other.scan_settings,
            final(self).enterprise_policy == (if other.enterprise_policy is Some {
                other.enterprise_policy
            } else {
                old(self).enterprise_policy
            }),
            final(self).whitelist@ == merged_whitelist(old(self).whitelist@, other.whitelist@),
            final(self).quarantine == old(self).quarantine,
            final(self).update == old(self).update,
            final(self).logging == old(self).logging,
            final(self).ui == old(self).ui,
            merged_into(*old(self), *other, *final(self)),
    {
        if other.service.max_concurrent_scans != self.service.max_concurrent_scans {
            self.service.max_concurrent_scans = other.service.max_concurrent_scans;
        }
        self.realtime_protection = other.realtime_protection;
        self.scan_settings = other.scan_settings;
        match &other.enterprise_policy {
            Some(p) => {
                self.enterprise_policy = Some(p.clone());
            },
            None => {},
        }
        let n = other.whitelist.len();
        let ghost mid = *self;
        for i in 0..n
            invariant
                n == other.whitelist@.len(),
                self.service == mid.service,
                self.realtime_protection == mid.realtime_protection,
                self.scan_settings == mid.scan_settings,
                self.enterprise_policy == mid.enterprise_policy,
                self.quarantine == mid.quarantine,
                self.update == mid.update,
                self.logging == mid.logging,
                self.ui == mid.ui,
                self.whitelist@ == merged_whitelist(
                    old(self).whitelist@,
                    other.whitelist@.take(i as int),
                ),
        {
            proof {
                assert(other.whitelist@.take(i + 1).drop_last() =~= other.whitelist@.take(
                    i as int,
                ));
            }
            let entry = &other.whitelist[i];
            if !whitelist_has_path(&self.whitelist, entry.path.as_str()) {
                self.whitelist.push(entry.clone());
            }
        }
        proof {
            assert(other.whitelist@.take(n as int) =~= other.whitelist@);
        }
    }

    /// Check if enterprise policy is active
    pub fn has_enterprise_policy(&self) -> (r: bool)
        ensures
            r == self.enterprise_policy is Some,
    {
        self.enterprise_policy.is_some()
    }

    /// Get effective scan settings (enterprise policy overrides local)
    pub fn get_effective_scan_settings(&self) -> (r: &ScanSettings)
        ensures
            *r == (match self.enterprise_policy {
                Some(p) => p.scan_settings,
                None => self.scan_settings,
            }),
    {
        match &self.enterprise_policy {
            Some(policy) => &policy.scan_settings,
            None => &self.scan_settings,
        }
    }

    /// Get effective realtime settings (enterprise policy overrides local)
    pub fn get_effective_realtime_settings(&self) -> (r: &RealtimeSettings)
        ensures
            *r == (match self.enterprise_policy {
                Some(p) => p.realtime_settings,
                None => self.realtime_protection,
            }),
    {
        match &self.enterprise_policy {
            Some(policy) => &policy.realtime_settings,
            None => &self.realtime_protection,
        }
    }
}

/// The configuration in force and the file it is saved to. Reading and
/// writing the file, and the environment overrides, are the caller's.
pub struct ConfigurationManager {
    config: AntivirusConfig,
    config_path: String,
}

impl ConfigurationManager {
    /// A manager for the configuration that was loaded from `config_path`.
    pub fn new(config: AntivirusConfig, config_path: String) -> (r: Self)
        ensures
            r.config() == config,
            r.path() == config_path,
    {
        ConfigurationManager { config, config_path }
    }

    /// The configuration in force.
    pub closed spec fn config(&self) -> AntivirusConfig {
        self.config
    }

    /// The file the configuration is saved to.
    pub closed spec fn path(&self) -> String {
        self.config_path
    }

    /// Get the current configuration
    pub fn get_config(&self) -> (r: &AntivirusConfig)
        ensures
            *r == self.config(),
    {
        &self.config
    }

    /// The file the configuration is saved to.
    pub fn config_path(&self) -> (r: &String)
        ensures
            *r == self.path(),
    {
        &self.config_path
    }

    /// Puts a new configuration in force; saving it is the caller's.
    pub fn update_config(&mut self, new_config: AntivirusConfig)
        ensures
            final(self).config() == new_config,
            final(self).path() == old(self).path(),
    {
        self.config = new_config;
    }

    /// Validate configuration settings: the rules of
    /// `AntivirusConfig::validate`, on the configuration in force.
    pub fn validate_config(&self) -> (r: Result<(), ConfigError>)
        ensures
            r is Ok <==> config_error(self.config()) is None,
            r matches Err(e) ==> (e matches ConfigError::ValidationFailed(m) && config_error(self.config()) == Some(m@)),
    {
        self.config.validate()
    }
}

/// Merging keeps every entry of the first whitelist, in place, at its head.
pub proof fn lemma_merge_keeps_base(base: Seq<WhitelistEntry>, add: Seq<WhitelistEntry>)
    ensures
        merged_whitelist(base, add).len() >= base.len(),
        merged_whitelist(base, add).subrange(0, base.len() as int) == base,
    decreases add.len(),
{
    if add.len() > 0 {
        lemma_merge_keeps_base(base, add.drop_last());
        let m = merged_whitelist(base, add.drop_last());
        assert(m.push(add.last()).subrange(0, base.len() as int) =~= m.subrange(0, base.len() as int));
    }
}

/// After merging, every entry of the second whitelist has an entry with an
/// equal path.
pub proof fn lemma_merge_covers(base: Seq<WhitelistEntry>, add: Seq<WhitelistEntry>, k: int)
    requires
        0 <= k < add.len(),
    ensures
        has_path(merged_whitelist(base, add), add[k].path@),
    decreases add.len(),
{
    let m = merged_whitelist(base, add.drop_last());
    if k < add.len() - 1 {
        lemma_merge_covers(base, add.drop_last(), k);
        assert(add.drop_last()[k] == add[k]);
        if !has_path(m, add.last().path@) {
            let i = choose|i: int| 0 <= i < m.len() && same_path(#[trigger] m[i].path@, add[k].path@);
            assert(m.push(add.last())[i] == m[i]);
        }
    } else {
        if !has_path(m, add.last().path@) {
            assert(m.push(add.last())[m.len() as int] == add.last());
            assert(same_path(add.last().path@, add.last().path@));
        }
    }
}

/// Merging into a whitelist whose paths are distinct keeps them distinct.
pub proof fn lemma_merge_distinct(base: Seq<WhitelistEntry>, add: Seq<WhitelistEntry>)
    requires
        paths_distinct(base),
    ensures
        paths_distinct(merged_whitelist(base, add)),
    decreases add.len(),
{
    if add.len() > 0 {
        lemma_merge_distinct(base, add.drop_last());
        let m = merged_whitelist(base, add.drop_last());
        if !has_path(m, add.last().path@) {
            let r = m.push(add.last());
            assert forall|i: int, j: int| 0 <= i < j < r.len() implies !same_path(
                #[trigger] r[i].path@,
                #[trigger] r[j].path@,
            ) by {
                if j == m.len() {
                    assert(r[i] == m[i]);
                    if same_path(r[i].path@, r[j].path@) {
                        assert(same_path(m[i].path@, add.last().path@));
                    }
                } else {
                    assert(r[i] == m[i]);
                    assert(r[j] == m[j]);
                }
            }
        }
    }
}

} // verus!
