//! Hardware that holds the machine back.

use vstd::prelude::*;
use crate::engine::FixError;
use crate::text::{chars_equal, chars_of, contains, is_substring};
use crate::types::{CheckCategory, FixResult, FixResultView, ImpactCategory, Issue, IssueSeverity};

verus! {

/// Hardware that holds the machine back.
#[derive(Debug, Clone, Copy)]
pub struct BottleneckAnalyzer;

/// Bytes in a gigabyte.
pub const GIGABYTE: u64 = 1073741824;

/// Memory below which a machine is short of it, in gigabytes.
pub const ENOUGH_RAM_GB: u64 = 8;

/// Processor cores below which a processor counts as entry-level.
pub const ENOUGH_CORES: usize = 4;

/// What the memory of a machine calls for.
#[derive(Debug, Clone, Copy, PartialEq, Eq, Structural)]
pub enum RamFinding {
    /// Less memory than modern programs need.
    Low,
    /// Enough memory, and more than nine tenths of it in use.
    Exhausted,
    Fine,
}

/// What the memory of a machine calls for, from its size and use in whole
/// gigabytes.
pub open spec fn ram_finding_spec(total_gb: u64, used_gb: u64) -> RamFinding {
    if total_gb < ENOUGH_RAM_GB {
        RamFinding::Low
    } else if used_gb * 10 > total_gb * 9 {
        RamFinding::Exhausted
    } else {
        RamFinding::Fine
    }
}

/// A drive is taken for a mechanical one: larger than 500 gigabytes and
/// not named as a solid-state drive.
pub open spec fn looks_mechanical(name: Seq<char>, total_bytes: u64) -> bool {
    &&& total_bytes / GIGABYTE > 500
    &&& !is_substring("SSD"@, name)
    &&& !is_substring("NVMe"@, name)
}

/// A processor is taken for an entry-level one: by its brand, or by having
/// fewer than four cores.
pub open spec fn looks_entry_level(brand: Seq<char>, cores: usize) -> bool {
    ||| is_substring("Celeron"@, brand)
    ||| is_substring("Pentium"@, brand)
    ||| is_substring("Atom"@, brand)
    ||| cores < ENOUGH_CORES
}

/// The guide that an action of the analyzer shows, for the actions that are
/// the analyzer's own.
pub open spec fn guide_of(action_id: Seq<char>) -> Option<Seq<char>> {
    if action_id == "show_ssd_guide"@ {
        Some(
            "SSD Upgrade Guide:\n\n1. Check your PC model - find compatible SSD size (2.5\" SATA or M.2 NVMe)\n2. Buy SSD ($50-150 on Amazon/Newegg)\n3. Clone your current drive (free tools: Macrium Reflect, Clonezilla)\n4. Install SSD (YouTube has guides for your specific model)\n5. Boot from SSD - enjoy 10x faster PC!\n\nOr pay a local tech shop $50-100 to do it all for you."@,
        )
    } else if action_id == "show_ram_guide"@ {
        Some(
            "RAM Upgrade Guide:\n\n1. Check your PC model - find RAM type (DDR3/DDR4/DDR5)\n2. Buy compatible RAM ($30-80 on Amazon)\n3. Shut down PC, open case\n4. Push RAM stick into empty slot until it clicks\n5. Close case, boot - done!\n\nThis is the easiest PC upgrade. YouTube has 5-minute tutorials."@,
        )
    } else if action_id == "analyze_ram_hogs"@ {
        Some(
            "Check the 'Process Monitor' issues above to see which apps are using the most RAM.\n\nCommon RAM hogs:\n- Chrome/Edge: Close unused tabs, or use Firefox (uses 30-50% less RAM)\n- Discord: Uses 400-800MB even minimized\n- Spotify: Uses 300-600MB\n- OneDrive/Dropbox: Pause syncing when doing heavy work"@,
        )
    } else {
        None
    }
}

impl BottleneckAnalyzer {
    /// The checker.
    pub fn new() -> Self {
        Self
    }

    /// Identifies the checker.
    pub fn name(&self) -> (name: &'static str)
        ensures
            name@ == "bottleneck_analyzer"@,
    {
        "bottleneck_analyzer"
    }

    /// The aspect of the machine that the checker looks at.
    pub fn category(&self) -> (category: CheckCategory)
        ensures
            category == CheckCategory::Performance,
    {
        CheckCategory::Performance
    }

    /// Whether a drive is taken for a mechanical one.
    pub fn is_mechanical_drive(&self, name: &str, total_bytes: u64) -> (mechanical: bool)
        ensures
            mechanical == looks_mechanical(name@, total_bytes),
    {
        total_bytes / GIGABYTE > 500 && !contains(name, "SSD") && !contains(name, "NVMe")
    }

    /// What the memory of a machine calls for.
    pub fn ram_finding(&self, total_bytes: u64, used_bytes: u64) -> (finding: RamFinding)
        ensures
            finding == ram_finding_spec(
                (total_bytes / GIGABYTE) as u64,
                (used_bytes / GIGABYTE) as u64,
            ),
    {
        let total_gb = total_bytes / GIGABYTE;
        let used_gb = used_bytes / GIGABYTE;
        if total_gb < ENOUGH_RAM_GB {
            RamFinding::Low
        } else if used_gb * 10 > total_gb * 9 {
            RamFinding::Exhausted
        } else {
            RamFinding::Fine
        }
    }

    /// Whether a processor is taken for an entry-level one.
    pub fn is_entry_level_cpu(&self, brand: &str, cores: usize) -> (entry_level: bool)
        ensures
            entry_level == looks_entry_level(brand@, cores),
    {
        contains(brand, "Celeron") || contains(brand, "Pentium") || contains(brand, "Atom")
            || cores < ENOUGH_CORES
    }

    /// Whether the hardware is good enough for tidying up the software to
    /// help: at least eight gigabytes of memory and four cores.
    pub fn software_can_help(&self, total_bytes: u64, cores: usize) -> (capable: bool)
        ensures
            capable == (total_bytes / GIGABYTE >= ENOUGH_RAM_GB && cores >= ENOUGH_CORES),
    {
        total_bytes / GIGABYTE >= ENOUGH_RAM_GB && cores >= ENOUGH_CORES
    }

    /// The issue that says that no hardware holds the machine back; it is
    /// reported where the analysis found nothing else.
    pub fn all_clear_issue(&self) -> (issue: Issue)
        ensures
            issue.is_plain(
                "bottleneck_none"@,
                IssueSeverity::Info,
                "No Major Hardware Bottlenecks Detected"@,
                "Your system has decent hardware. Any slowness is likely from software issues (bloatware, startup programs, etc.), which we can fix. Check the other issues in this scan."@,
                ImpactCategory::Performance,
            ),
    {
        Issue::plain(
            "bottleneck_none",
            IssueSeverity::Info,
            "No Major Hardware Bottlenecks Detected",
            "Your system has decent hardware. Any slowness is likely from software issues (bloatware, startup programs, etc.), which we can fix. Check the other issues in this scan.",
            ImpactCategory::Performance,
        )
    }

    /// Shows the guide that the action names. The analyzer owns the three
    /// actions that show a guide and no other.
    pub fn fix(&self, action_id: &str) -> (outcome: Result<FixResult, FixError>)
        ensures
            match guide_of(action_id@) {
                Some(guide) => outcome matches Ok(result) && result@ == FixResultView::plain(
                    true,
                    guide,
                ),
                None => outcome matches Err(FixError::NotApplicable),
            },
    {
        let given = chars_of(action_id);
        let ssd = chars_of("show_ssd_guide");
        let ram = chars_of("show_ram_guide");
        let hogs = chars_of("analyze_ram_hogs");
        if chars_equal(&given, &ssd) {
            Ok(
                FixResult::success(
                    "SSD Upgrade Guide:\n\n1. Check your PC model - find compatible SSD size (2.5\" SATA or M.2 NVMe)\n2. Buy SSD ($50-150 on Amazon/Newegg)\n3. Clone your current drive (free tools: Macrium Reflect, Clonezilla)\n4. Install SSD (YouTube has guides for your specific model)\n5. Boot from SSD - enjoy 10x faster PC!\n\nOr pay a local tech shop $50-100 to do it all for you.",
                ),
            )
        } else if chars_equal(&given, &ram) {
            Ok(
                FixResult::success(
                    "RAM Upgrade Guide:\n\n1. Check your PC model - find RAM type (DDR3/DDR4/DDR5)\n2. Buy compatible RAM ($30-80 on Amazon)\n3. Shut down PC, open case\n4. Push RAM stick into empty slot until it clicks\n5. Close case, boot - done!\n\nThis is the easiest PC upgrade. YouTube has 5-minute tutorials.",
                ),
            )
        } else if chars_equal(&given, &hogs) {
            Ok(
                FixResult::success(
                    "Check the 'Process Monitor' issues above to see which apps are using the most RAM.\n\nCommon RAM hogs:\n- Chrome/Edge: Close unused tabs, or use Firefox (uses 30-50% less RAM)\n- Discord: Uses 400-800MB even minimized\n- Spotify: Uses 300-600MB\n- OneDrive/Dropbox: Pause syncing when doing heavy work",
                ),
            )
        } else {
            Err(FixError::NotApplicable)
        }
    }
}

} // verus!
