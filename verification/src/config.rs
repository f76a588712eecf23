//! The controller's configuration: which screens to show and what to watch.

use vstd::prelude::*;

verus! {

/// What the controller shows, and where the display is attached.
#[derive(Clone, Debug)]
pub struct Config {
    pub serial_port: String,
    pub hostname_kernel: bool,
    pub uptime: bool,
    pub cpu_utilization: bool,
    pub memory_utilization: bool,
    pub network_utilization: NetUtil,
    pub storage_utilization: StorageUtil,
}

/// Network screens: whether they are shown, and for which interfaces.
#[derive(Clone, Debug)]
pub struct NetUtil {
    pub enabled: bool,
    pub network: Option<Vec<NetConf>>,
}

/// One network interface and the speed that counts as full load.
#[derive(Clone, Debug)]
pub struct NetConf {
    pub interface_name: String,
    pub top_speed_bps: u64,
}

/// Storage screens: whether they are shown, and for which partitions.
#[derive(Clone, Debug)]
pub struct StorageUtil {
    pub enabled: bool,
    pub partition: Option<Vec<PartConf>>,
}

/// One partition: the label shown and the device path handed to `df`.
#[derive(Clone, Debug)]
pub struct PartConf {
    pub partition_name: String,
    pub partition_path: String,
}

} // verus!
