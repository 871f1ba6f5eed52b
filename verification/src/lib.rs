//! Orchestration engine for a desktop health and speed checker.

pub mod checkers;
pub mod clock;
pub mod daemon;
pub mod db;
pub mod engine;
pub mod export;
pub mod license;
pub mod parse;
pub mod scoring;
pub mod text;
pub mod types;

pub use engine::{Checker, FixError, ScannerEngine};
pub use scoring::ScoringEngine;
pub use types::{
    CheckCategory, FirewallStatus, FixAction, FixResult, FixResultView, ImpactCategory, Issue,
    IssueSeverity, OsUpdateStatus, PerformanceDetails, PortInfo, ProcessInfo, ProgressEvent,
    ScanContext, ScanDetails, ScanOptions, ScanResult, SecurityDetails, StartupItem, SystemMetrics,
    SystemScores, VulnerableApp,
};
