//! The user-mode side of the kernel drivers: messages, configuration and
//! status, the interface that holds the driver handles, and the file-system
//! filter and process monitor drivers with their verdicts.
use vstd::prelude::*;
use crate::clock::now_millis;
use crate::error::DriverError;
use crate::text::owned;
use crate::traits::{CallbackData, FileSystemFilter, FilterResult, MonitorResult, ProcessMonitor};
use crate::types::{ImageInfo, ProcessInfo, ThreadInfo, ThreatInfo, Timestamp};

verus! {

/// Driver communication message types
#[derive(Debug, Clone)]
pub enum DriverMessage {
    ScanRequest { file_path: String, process_id: u32 },
    ScanResponse { result: ScanResult },
    ThreatDetected { threat_info: ThreatInfo },
    ConfigUpdate { config: DriverConfig },
    StatusRequest,
    StatusResponse { status: DriverStatus },
}

/// Driver-specific configuration
#[derive(Debug, Clone)]
pub struct DriverConfig {
    pub enable_realtime_protection: bool,
    pub scan_on_access: bool,
    pub scan_on_write: bool,
    pub max_file_size_mb: u64,
    pub excluded_extensions: Vec<String>,
    pub excluded_paths: Vec<String>,
}

/// Driver status information
#[derive(Debug, Clone)]
pub struct DriverStatus {
    pub is_loaded: bool,
    pub version: String,
    pub last_update: Timestamp,
    pub files_scanned: u64,
    pub threats_blocked: u64,
}

/// Scan result from driver
#[derive(Debug, Clone)]
pub enum ScanResult {
    Clean,
    Infected(ThreatInfo),
    Suspicious,
    Error(String),
    Timeout,
}

/// Driver communication interface
pub trait DriverCommunication {
    /// Send a message to the driver
    fn send_message(&self, message: DriverMessage) -> Result<(), DriverError>;

    /// Receive a message from the driver
    fn receive_message(&self) -> Result<DriverMessage, DriverError>;

    /// Check if driver is responsive
    fn ping(&self) -> Result<(), DriverError>;
}

/// Handle to a kernel driver
#[derive(Debug)]
pub struct DriverHandle {
    device_name: String,
    handle: u64,
}

impl DriverHandle {
    /// A handle to the named device, not yet opened.
    pub fn new(device_name: String) -> (r: Self)
        ensures
            r.device() == device_name,
            r.raw() == 0,
    {
        DriverHandle { device_name, handle: 0 }
    }

    /// The device's name.
    pub closed spec fn device(&self) -> String {
        self.device_name
    }

    /// The raw handle value.
    pub closed spec fn raw(&self) -> u64 {
        self.handle
    }

    /// The device's name.
    pub fn device_name(&self) -> (r: &String)
        ensures
            *r == self.device(),
    {
        &self.device_name
    }
}

/// User-mode service communication with kernel drivers
pub struct DriverInterface {
    minifilter_handle: Option<DriverHandle>,
    process_monitor_handle: Option<DriverHandle>,
}

/// A status reported for a loaded driver of version 1.0.0 with nothing
/// scanned or blocked.
pub open spec fn fresh_status(s: DriverStatus) -> bool {
    s.is_loaded && s.version@ == "1.0.0"@ && s.files_scanned == 0 && s.threats_blocked == 0
}

impl DriverInterface {
    /// An interface without driver handles.
    pub fn new() -> (r: Self)
        ensures
            !r.is_connected(),
    {
        DriverInterface { minifilter_handle: None, process_monitor_handle: None }
    }

    /// Whether a driver handle is held.
    pub closed spec fn is_connected(&self) -> bool {
        self.minifilter_handle is Some || self.process_monitor_handle is Some
    }

    /// Connects to the kernel drivers; the handles are kept as they are.
    pub fn connect(&mut self) -> (r: Result<(), DriverError>)
        ensures
            r is Ok,
            final(self).is_connected() == old(self).is_connected(),
    {
        Ok(())
    }

    /// Disconnects from the kernel drivers, dropping both handles.
    pub fn disconnect(&mut self) -> (r: Result<(), DriverError>)
        ensures
            r is Ok,
            !final(self).is_connected(),
    {
        self.minifilter_handle = None;
        self.process_monitor_handle = None;
        Ok(())
    }

    /// Sends the configuration to the drivers.
    pub fn update_driver_config(&self, _config: &DriverConfig) -> (r: Result<(), DriverError>)
        ensures
            r is Ok,
    {
        Ok(())
    }

    /// The status of the file-system filter and of the process monitor,
    /// both loaded, version 1.0.0, updated now.
    pub fn get_driver_status(&self) -> (r: Result<(DriverStatus, DriverStatus), DriverError>)
        ensures
            r matches Ok(pair) && fresh_status(pair.0) && fresh_status(pair.1),
    {
        let minifilter_status = DriverStatus {
            is_loaded: true,
            version: owned("1.0.0"),
            last_update: now_millis(),
            files_scanned: 0,
            threats_blocked: 0,
        };
        let process_monitor_status = DriverStatus {
            is_loaded: true,
            version: owned("1.0.0"),
            last_update: now_millis(),
            files_scanned: 0,
            threats_blocked: 0,
        };
        Ok((minifilter_status, process_monitor_status))
    }
}

/// The file-system filter driver.
pub struct MiniFilterDriver {
    driver_name: String,
    altitude: String,
}

impl MiniFilterDriver {
    /// A filter driver with its name and load altitude.
    pub fn new(driver_name: String, altitude: String) -> (r: Self)
        ensures
            r.name() == driver_name,
            r.load_altitude() == altitude,
    {
        MiniFilterDriver { driver_name, altitude }
    }

    /// The driver's name.
    pub closed spec fn name(&self) -> String {
        self.driver_name
    }

    /// The driver's load altitude.
    pub closed spec fn load_altitude(&self) -> String {
        self.altitude
    }

    /// Starts the filter.
    pub fn initialize(&self) -> (r: Result<(), DriverError>)
        ensures
            r is Ok,
    {
        Ok(())
    }

    /// Stops the filter.
    pub fn shutdown(&self) -> (r: Result<(), DriverError>)
        ensures
            r is Ok,
    {
        Ok(())
    }
}

impl FileSystemFilter for MiniFilterDriver {
    fn pre_create(&self, _callback_data: &CallbackData) -> (r: FilterResult)
        ensures
            r == FilterResult::Allow,
    {
        FilterResult::Allow
    }

    fn post_create(&self, _callback_data: &CallbackData) -> (r: FilterResult)
        ensures
            r == FilterResult::Allow,
    {
        FilterResult::Allow
    }

    fn pre_read(&self, _callback_data: &CallbackData) -> (r: FilterResult)
        ensures
            r == FilterResult::Allow,
    {
        FilterResult::Allow
    }

    fn pre_write(&self, _callback_data: &CallbackData) -> (r: FilterResult)
        ensures
            r == FilterResult::Allow,
    {
        FilterResult::Allow
    }

    fn pre_delete(&self, _callback_data: &CallbackData) -> (r: FilterResult)
        ensures
            r == FilterResult::Allow,
    {
        FilterResult::Allow
    }
}

/// The process monitor driver.
pub struct ProcessMonitorDriver {
    driver_name: String,
}

impl ProcessMonitorDriver {
    /// A process monitor driver with its name.
    pub fn new(driver_name: String) -> (r: Self)
        ensures
            r.name() == driver_name,
    {
        ProcessMonitorDriver { driver_name }
    }

    /// The driver's name.
    pub closed spec fn name(&self) -> String {
        self.driver_name
    }

    /// Starts the monitor.
    pub fn initialize(&self) -> (r: Result<(), DriverError>)
        ensures
            r is Ok,
    {
        Ok(())
    }

    /// Stops the monitor.
    pub fn shutdown(&self) -> (r: Result<(), DriverError>)
        ensures
            r is Ok,
    {
        Ok(())
    }
}

impl ProcessMonitor for ProcessMonitorDriver {
    fn on_process_create(&self, _process_info: &ProcessInfo) -> (r: MonitorResult)
        ensures
            r == MonitorResult::Monitor,
    {
        MonitorResult::Monitor
    }

    fn on_process_terminate(&self, _process_id: u32) -> (r: MonitorResult)
        ensures
            r == MonitorResult::Allow,
    {
        MonitorResult::Allow
    }

    fn on_thread_create(&self, _thread_info: &ThreadInfo) -> (r: MonitorResult)
        ensures
            r == MonitorResult::Monitor,
    {
        MonitorResult::Monitor
    }

    fn on_image_load(&self, _image_info: &ImageInfo) -> (r: MonitorResult)
        ensures
            r == MonitorResult::Monitor,
    {
        MonitorResult::Monitor
    }
}

} // verus!
