//! The rules of the built-in checkers.
//!
//! Each checker here is the part of a probe that decides: what a reading
//! means, which issue it makes, how severe that is. Taking the readings from
//! the machine is the caller's part.

pub mod bloatware;
pub mod bottleneck;
pub mod firewall;
pub mod network;
pub mod os_update;
pub mod ports;
pub mod process;
pub mod smart_disk;
pub mod startup;
pub mod storage;

pub use bloatware::BloatwareDetector;
pub use bottleneck::BottleneckAnalyzer;
pub use firewall::FirewallChecker;
pub use network::NetworkChecker;
pub use os_update::OsUpdateChecker;
pub use ports::PortScanner;
pub use process::ProcessMonitor;
pub use smart_disk::SmartDiskChecker;
pub use startup::StartupAnalyzer;
pub use storage::StorageChecker;
