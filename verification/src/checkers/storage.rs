//! Free space and file systems of the drives.

use vstd::prelude::*;
use vstd::string::StringExecFns;
use crate::parse::{
    after_heading, decimal_value, fields, fields_of, lines, lines_of, parse_bounded, parse_u64,
    split_chars, split_on, strip_percent, without_percent,
};
use crate::engine::FixError;
use crate::text::{
    chars_equal, chars_of, contains, contains_chars, decimal, decimal_string, is_prefix, is_substring,
    lowercase_of, replace_each, replacing, starts_with, str_equal, string_of, strip_prefix,
    to_lowercase, trim_chars, trimmed_of,
};
use crate::types::{CheckCategory, ImpactCategory, Issue, IssueSeverity};

verus! {

/// Free space and file systems of the drives.
#[derive(Debug, Clone, Copy)]
pub struct StorageChecker;

/// What kind of drive a volume is on.
#[derive(Debug, Clone, Copy, PartialEq, Eq, Structural)]
pub enum DriveType {
    Fixed,
    Removable,
    CDRom,
    Unknown,
}

/// One volume as the system lists it.
#[derive(Debug, Clone)]
pub struct DriveInfo {
    pub name: String,
    pub total_bytes: u64,
    pub free_bytes: u64,
    pub drive_type: DriveType,
    pub file_system: Option<String>,
}

/// Size above which a FAT32 volume is reported, in bytes.
pub const LARGE_FAT32_BYTES: u64 = 32000000000;

/// The kind of drive that a type code stands for: `2` removable, `3` fixed,
/// `5` an optical drive, anything else unknown.
pub open spec fn drive_type_of(code: Seq<char>) -> DriveType {
    if code == "2"@ {
        DriveType::Removable
    } else if code == "3"@ {
        DriveType::Fixed
    } else if code == "5"@ {
        DriveType::CDRom
    } else {
        DriveType::Unknown
    }
}

/// The kind of drive that a type code without surrounding blanks stands for.
pub fn classify_drive_type(code: &str) -> (drive_type: DriveType)
    ensures
        drive_type == drive_type_of(code@),
{
    let chars = chars_of(code);
    let removable = chars_of("2");
    let fixed = chars_of("3");
    let optical = chars_of("5");
    if chars_equal(&chars, &removable) {
        DriveType::Removable
    } else if chars_equal(&chars, &fixed) {
        DriveType::Fixed
    } else if chars_equal(&chars, &optical) {
        DriveType::CDRom
    } else {
        DriveType::Unknown
    }
}

/// Free space as a whole percentage of the size, rounded down.
pub open spec fn percent_free_spec(free_bytes: u64, total_bytes: u64) -> nat {
    ((free_bytes * 100) / (total_bytes as int)) as nat
}

/// Free space as a whole percentage of the size, rounded down.
pub fn percent_free(free_bytes: u64, total_bytes: u64) -> (percent: u128)
    requires
        total_bytes > 0,
    ensures
        percent as nat == percent_free_spec(free_bytes, total_bytes),
{
    let scaled: u128 = free_bytes as u128 * 100;
    scaled / (total_bytes as u128)
}

/// What the free space of a volume calls for: a critical issue below ten
/// percent, a warning below twenty, nothing from there on.
pub open spec fn space_severity_spec(percent_free: nat) -> Option<IssueSeverity> {
    if percent_free < 10 {
        Some(IssueSeverity::Critical)
    } else if percent_free < 20 {
        Some(IssueSeverity::Warning)
    } else {
        None
    }
}

/// What the free space of a volume calls for.
pub fn space_severity(percent_free: u128) -> (severity: Option<IssueSeverity>)
    ensures
        severity == space_severity_spec(percent_free as nat),
{
    if percent_free < 10 {
        Some(IssueSeverity::Critical)
    } else if percent_free < 20 {
        Some(IssueSeverity::Warning)
    } else {
        None
    }
}

/// What the fragmentation of a volume calls for: a critical issue above
/// thirty percent, a warning above fifteen, nothing up to there.
pub open spec fn fragmentation_severity_spec(percent: u32) -> Option<IssueSeverity> {
    if percent > 30 {
        Some(IssueSeverity::Critical)
    } else if percent > 15 {
        Some(IssueSeverity::Warning)
    } else {
        None
    }
}

/// What the fragmentation of a volume calls for.
pub fn fragmentation_severity(percent: u32) -> (severity: Option<IssueSeverity>)
    ensures
        severity == fragmentation_severity_spec(percent),
{
    if percent > 30 {
        Some(IssueSeverity::Critical)
    } else if percent > 15 {
        Some(IssueSeverity::Warning)
    } else {
        None
    }
}

/// The name of a volume as it stands in identifiers: colons and slashes as
/// underscores.
pub open spec fn volume_key(name: Seq<char>) -> Seq<char> {
    replacing(name, seq![':', '/'], Some('_'))
}

/// What a line of the volume listing says: the file system, the size and
/// the free space in bytes, and the mount point.
pub struct VolumeRow {
    pub file_system: Seq<char>,
    pub total_bytes: nat,
    pub free_bytes: nat,
    pub mount: Seq<char>,
}

/// The number that a field of digits stands for, where it fits in 64 bits.
pub open spec fn field_value(field: Seq<char>) -> Option<nat> {
    match decimal_value(field) {
        Some(n) => if n <= u64::MAX {
            Some(n)
        } else {
            None
        },
        None => None,
    }
}

/// What a line of the volume listing says. A line counts where it has at
/// least six fields of which the second, third and fourth are numbers: the
/// size, the space in use and the free space.
pub open spec fn volume_row_of(line: Seq<char>) -> Option<VolumeRow> {
    let f = fields_of(line);
    if f.len() >= 6 && field_value(f[1]) is Some && field_value(f[2]) is Some && field_value(
        f[3],
    ) is Some {
        Some(
            VolumeRow {
                file_system: f[0],
                total_bytes: field_value(f[1])->0,
                free_bytes: field_value(f[3])->0,
                mount: f[5],
            },
        )
    } else {
        None
    }
}

/// A volume as a row of the listing.
pub open spec fn row_of_drive(drive: DriveInfo) -> VolumeRow {
    VolumeRow {
        file_system: match drive.file_system {
            Some(name) => name@,
            None => Seq::empty(),
        },
        total_bytes: drive.total_bytes as nat,
        free_bytes: drive.free_bytes as nat,
        mount: drive.name@,
    }
}

/// The rows of a volume listing: what the lines after the heading say, the
/// lines that do not count left out.
pub open spec fn volume_rows_of(listing: Seq<char>) -> Seq<VolumeRow> {
    after_heading(lines_of(listing)).filter_map(|line: Seq<char>| volume_row_of(line))
}

/// `issue` is the issue about a volume that is fragmented to this
/// percentage.
pub open spec fn is_fragmentation_issue(name: Seq<char>, percent: u32, issue: Issue) -> bool {
    &&& Some(issue.severity) == fragmentation_severity_spec(percent)
    &&& issue.id@ == "storage_fragmentation_"@ + replacing(name, seq![':'], Some('_'))
    &&& issue.title@ == "High Disk Fragmentation: "@ + name
    &&& issue.description@ == name + " is "@ + decimal(percent as nat)
        + "% fragmented. This slows down file access. Run defragmentation."@
    &&& issue.impact_category == ImpactCategory::Performance
    &&& issue.fix is None
}

/// `issue` is the issue about a large volume with the FAT32 file system.
pub open spec fn is_file_system_issue(name: Seq<char>, issue: Issue) -> bool {
    issue.is_plain(
        "storage_fat32_"@ + volume_key(name),
        IssueSeverity::Info,
        "Inefficient File System: "@ + name,
        name
            + " uses FAT32, which is inefficient for large drives. Consider converting to NTFS or exFAT."@,
        ImpactCategory::Performance,
    )
}

/// What a fix of the storage checker does.
#[derive(Debug, Clone, Copy, PartialEq, Eq, Structural)]
pub enum StoragePlan {
    /// Start the system's tool that removes unneeded files.
    Cleanup,
    /// Defragment the drive with this letter.
    Defragment { letter: char },
}

/// The action asks for unneeded files to be removed.
pub open spec fn asks_cleanup(action_id: Seq<char>) -> bool {
    is_prefix("storage_low_space_"@, action_id) || action_id == "storage_temp_cleanup"@
}

/// What follows `storage_fragmentation_` in an action that begins with it.
pub open spec fn fragmented_drive(action_id: Seq<char>) -> Seq<char> {
    action_id.subrange("storage_fragmentation_"@.len() as int, action_id.len() as int)
}

/// A drive letter: one capital letter of the alphabet.
pub open spec fn is_drive_letter(drive: Seq<char>) -> bool {
    drive.len() == 1 && 'A' <= drive[0] && drive[0] <= 'Z'
}

/// One volume of the comma-separated listing of drives.
pub struct ListedVolume {
    pub name: Seq<char>,
    pub drive_type: DriveType,
    pub file_system: Seq<char>,
    pub free_bytes: nat,
    pub total_bytes: nat,
}

/// What a line of the comma-separated listing of drives says. A line counts
/// where it has at least six fields between commas of which the fourth and
/// the sixth are numbers, the free space and the size, and the size is not
/// zero. The second field is the name, the third the code of the kind of
/// drive, the fifth the file system; blanks around a field do not count.
pub open spec fn listed_volume_of(line: Seq<char>) -> Option<ListedVolume> {
    let f = split_on(line, ',');
    if f.len() >= 6 {
        match (field_value(trimmed_of(f[3])), field_value(trimmed_of(f[5]))) {
            (Some(free), Some(total)) => if total > 0 {
                Some(
                    ListedVolume {
                        name: trimmed_of(f[1]),
                        drive_type: drive_type_of(trimmed_of(f[2])),
                        file_system: trimmed_of(f[4]),
                        free_bytes: free,
                        total_bytes: total,
                    },
                )
            } else {
                None
            },
            _ => None,
        }
    } else {
        None
    }
}

/// A volume as an entry of the comma-separated listing.
pub open spec fn listed_of_drive(drive: DriveInfo) -> ListedVolume {
    ListedVolume {
        name: drive.name@,
        drive_type: drive.drive_type,
        file_system: match drive.file_system {
            Some(name) => name@,
            None => Seq::empty(),
        },
        free_bytes: drive.free_bytes as nat,
        total_bytes: drive.total_bytes as nat,
    }
}

/// The percentage that a word stands for: digits with a percent sign at
/// their end, where the number fits in 32 bits.
pub open spec fn percentage_of(word: Seq<char>) -> Option<u32> {
    if word.len() > 0 && word.last() == '%' {
        match decimal_value(without_percent(word)) {
            Some(n) => if n <= u32::MAX {
                Some(n as u32)
            } else {
                None
            },
            None => None,
        }
    } else {
        None
    }
}

/// The first percentage among the words at or after `from`.
pub open spec fn first_percentage(words: Seq<Seq<char>>, from: int) -> Option<u32>
    decreases words.len() - from,
{
    if from < 0 || from >= words.len() {
        None
    } else if percentage_of(words[from]) is Some {
        percentage_of(words[from])
    } else {
        first_percentage(words, from + 1)
    }
}

/// What a line of the fragmentation report says: the first percentage in a
/// line that speaks of fragmentation.
pub open spec fn fragmentation_of(line: Seq<char>) -> Option<u32> {
    if is_substring("fragmented"@, line) {
        first_percentage(fields_of(line), 0)
    } else {
        None
    }
}

impl StorageChecker {
    /// The volume that a line of the volume listing describes, where the
    /// line counts. Every listed volume is taken for a fixed drive.
    pub fn parse_volume_line(&self, line: &Vec<char>) -> (parsed: Option<DriveInfo>)
        ensures
            parsed is Some <==> volume_row_of(line@) is Some,
            parsed matches Some(drive) ==> {
                &&& volume_row_of(line@) == Some(row_of_drive(drive))
                &&& drive.drive_type == DriveType::Fixed
                &&& drive.file_system is Some
            },
    {
        let f = fields(line);
        if f.len() < 6 {
            return None;
        }
        let total = parse_u64(&f[1]);
        let used = parse_u64(&f[2]);
        let free = parse_u64(&f[3]);
        match (total, used, free) {
            (Some(total_bytes), Some(_), Some(free_bytes)) => Some(
                DriveInfo {
                    name: string_of(&f[5]),
                    total_bytes,
                    free_bytes,
                    drive_type: DriveType::Fixed,
                    file_system: Some(string_of(&f[0])),
                },
            ),
            _ => None,
        }
    }

    /// The volume that a line of the comma-separated listing of drives
    /// describes, where the line counts.
    pub fn parse_listed_volume(&self, line: &Vec<char>) -> (parsed: Option<DriveInfo>)
        ensures
            parsed is Some <==> listed_volume_of(line@) is Some,
            parsed matches Some(drive) ==> {
                &&& listed_volume_of(line@) == Some(listed_of_drive(drive))
                &&& drive.file_system is Some
                &&& drive.total_bytes > 0
            },
    {
        let f = split_chars(line, ',');
        if f.len() < 6 {
            return None;
        }
        let free = parse_u64(&trim_chars(&f[3]));
        let total = parse_u64(&trim_chars(&f[5]));
        match (free, total) {
            (Some(free_bytes), Some(total_bytes)) => {
                if total_bytes == 0 {
                    return None;
                }
                let code = string_of(&trim_chars(&f[2]));
                Some(
                    DriveInfo {
                        name: string_of(&trim_chars(&f[1])),
                        total_bytes,
                        free_bytes,
                        drive_type: classify_drive_type(code.as_str()),
                        file_system: Some(string_of(&trim_chars(&f[4]))),
                    },
                )
            },
            _ => None,
        }
    }

    /// The volumes of a volume listing, in the order listed. The first line
    /// is the heading.
    pub fn volumes_from_listing(&self, listing: &str) -> (drives: Vec<DriveInfo>)
        ensures
            drives@.map_values(|drive: DriveInfo| row_of_drive(drive)) == volume_rows_of(listing@),
    {
        let all = lines(listing);
        let ghost texts = lines_of(listing@);
        let ghost read = |line: Seq<char>| volume_row_of(line);
        let ghost model = |drive: DriveInfo| row_of_drive(drive);
        let mut drives: Vec<DriveInfo> = Vec::new();
        if all.len() <= 1 {
            assert(after_heading(texts) =~= Seq::<Seq<char>>::empty());
            assert(drives@.map_values(model) =~= after_heading(texts).filter_map(read));
            return drives;
        }
        let mut i: usize = 1;
        assert(texts.subrange(1, 1) =~= Seq::<Seq<char>>::empty());
        assert(drives@.map_values(model) =~= texts.subrange(1, 1).filter_map(read));
        while i < all.len()
            invariant
                1 <= i <= all@.len(),
                all@.len() == texts.len(),
                forall|k: int| 0 <= k < all@.len() ==> (#[trigger] all@[k])@ == texts[k],
                read == |line: Seq<char>| volume_row_of(line),
                model == |drive: DriveInfo| row_of_drive(drive),
                drives@.map_values(model) == texts.subrange(1, i as int).filter_map(read),
            decreases all@.len() - i,
        {
            let ghost seen = texts.subrange(1, i as int);
            let ghost next = texts.subrange(1, i + 1);
            assert(next.drop_last() =~= seen);
            assert(next.last() == texts[i as int]);
            let ghost before = drives@;
            match self.parse_volume_line(&all[i]) {
                Some(drive) => {
                    drives.push(drive);
                    assert(drives@.map_values(model) =~= before.map_values(model).push(
                        row_of_drive(drive),
                    ));
                    assert(next.filter_map(read) =~= seen.filter_map(read) + seq![
                        row_of_drive(drive),
                    ]);
                },
                None => {
                    assert(next.filter_map(read) =~= seen.filter_map(read));
                },
            }
            i = i + 1;
        }
        assert(texts.subrange(1, texts.len() as int) =~= after_heading(texts));
        drives
    }

    /// The checker.
    pub fn new() -> Self {
        Self
    }

    /// Identifies the checker.
    pub fn name(&self) -> (name: &'static str)
        ensures
            name@ == "Storage & Drive Health"@,
    {
        "Storage & Drive Health"
    }

    /// The aspect of the machine that the checker looks at.
    pub fn category(&self) -> (category: CheckCategory)
        ensures
            category == CheckCategory::Performance,
    {
        CheckCategory::Performance
    }

    /// The kind of drive that a type code stands for, blanks around the code
    /// aside; unknown where there is no code.
    pub fn parse_drive_type(&self, type_str: Option<&&str>) -> (drive_type: DriveType)
        ensures
            drive_type == match type_str {
                Some(code) => drive_type_of(trimmed_of((**code)@)),
                None => DriveType::Unknown,
            },
    {
        match type_str {
            Some(code) => {
                let trimmed = string_of(&trim_chars(&chars_of(*code)));
                classify_drive_type(trimmed.as_str())
            },
            None => DriveType::Unknown,
        }
    }

    /// Whether the checker looks at a volume: removable and optical drives
    /// are skipped, and so is a volume without size.
    pub fn inspects(&self, drive: &DriveInfo) -> (inspects: bool)
        ensures
            inspects == (drive.drive_type != DriveType::Removable && drive.drive_type
                != DriveType::CDRom && drive.total_bytes > 0),
    {
        match drive.drive_type {
            DriveType::Removable => false,
            DriveType::CDRom => false,
            _ => drive.total_bytes > 0,
        }
    }

    /// What the free space of a volume calls for.
    pub fn low_space(&self, drive: &DriveInfo) -> (severity: Option<IssueSeverity>)
        requires
            drive.total_bytes > 0,
        ensures
            severity == space_severity_spec(percent_free_spec(drive.free_bytes, drive.total_bytes)),
    {
        space_severity(percent_free(drive.free_bytes, drive.total_bytes))
    }

    /// The identifier of the issue about the free space of a volume.
    pub fn low_space_id(&self, volume: &str) -> (id: String)
        ensures
            id@ == "storage_low_space_"@ + volume_key(volume@),
    {
        let chars = chars_of(volume);
        let mut marks: Vec<char> = Vec::new();
        marks.push(':');
        marks.push('/');
        assert(marks@ =~= seq![':', '/']);
        let key = string_of(&replace_each(&chars, &marks, Some('_')));
        let mut id = "storage_low_space_".to_owned();
        id.append(key.as_str());
        id
    }

    /// Whether a volume is a large one with the FAT32 file system, which is
    /// wasteful at that size. The name of the file system counts without
    /// regard to case.
    pub fn wasteful_file_system(&self, drive: &DriveInfo) -> (wasteful: bool)
        ensures
            wasteful == (drive.file_system matches Some(name) && is_substring(
                "fat32"@,
                lowercase_of(name@),
            ) && drive.total_bytes > LARGE_FAT32_BYTES),
    {
        match &drive.file_system {
            Some(name) => {
                let lowered = to_lowercase(name.as_str());
                contains(lowered.as_str(), "fat32") && drive.total_bytes > LARGE_FAT32_BYTES
            },
            None => false,
        }
    }

    /// What a line of the fragmentation report says of the fragmentation,
    /// in percent.
    pub fn parse_fragmentation_line(&self, line: &Vec<char>) -> (percent: Option<u32>)
        ensures
            percent == fragmentation_of(line@),
    {
        let marker = chars_of("fragmented");
        if !contains_chars(line, &marker) {
            return None;
        }
        let words = fields(line);
        let mut i: usize = 0;
        while i < words.len()
            invariant
                i <= words@.len(),
                words@.len() == fields_of(line@).len(),
                forall|k: int| 0 <= k < words@.len() ==> (#[trigger] words@[k])@ == fields_of(line@)[k],
                fragmentation_of(line@) == first_percentage(fields_of(line@), i as int),
            decreases words@.len() - i,
        {
            let word = &words[i];
            if word.len() > 0 && word[word.len() - 1] == '%' {
                match parse_bounded(&strip_percent(word), 4294967295) {
                    Some(n) => {
                        return Some(n as u32);
                    },
                    None => {},
                }
            }
            i = i + 1;
        }
        None
    }

    /// The issue about a fragmented volume: one above fifteen percent, none
    /// up to there.
    pub fn fragmentation_issue(&self, name: &str, percent: u32) -> (found: Option<Issue>)
        ensures
            found is Some <==> percent > 15,
            found matches Some(issue) ==> is_fragmentation_issue(name@, percent, issue),
    {
        match fragmentation_severity(percent) {
            None => None,
            Some(severity) => {
                let mut colon: Vec<char> = Vec::new();
                colon.push(':');
                assert(colon@ =~= seq![':']);
                let key = string_of(&replace_each(&chars_of(name), &colon, Some('_')));
                let mut id = "storage_fragmentation_".to_owned();
                id.append(key.as_str());
                let mut title = "High Disk Fragmentation: ".to_owned();
                title.append(name);
                let mut description = name.to_owned();
                description.append(" is ");
                description.append(decimal_string(percent as u64).as_str());
                description.append(
                    "% fragmented. This slows down file access. Run defragmentation.",
                );
                Some(
                    Issue::plain(
                        id.as_str(),
                        severity,
                        title.as_str(),
                        description.as_str(),
                        ImpactCategory::Performance,
                    ),
                )
            },
        }
    }

    /// The issue about a large volume with the FAT32 file system: one where
    /// the file system is wasteful for the volume, none otherwise.
    pub fn file_system_issue(&self, drive: &DriveInfo) -> (found: Option<Issue>)
        ensures
            found is Some <==> (drive.file_system matches Some(name) && is_substring(
                "fat32"@,
                lowercase_of(name@),
            ) && drive.total_bytes > LARGE_FAT32_BYTES),
            found matches Some(issue) ==> is_file_system_issue(drive.name@, issue),
    {
        if !self.wasteful_file_system(drive) {
            return None;
        }
        let name = drive.name.as_str();
        let chars = chars_of(name);
        let mut marks: Vec<char> = Vec::new();
        marks.push(':');
        marks.push('/');
        assert(marks@ =~= seq![':', '/']);
        let key = string_of(&replace_each(&chars, &marks, Some('_')));
        let mut id = "storage_fat32_".to_owned();
        id.append(key.as_str());
        let mut title = "Inefficient File System: ".to_owned();
        title.append(name);
        let mut description = name.to_owned();
        description.append(
            " uses FAT32, which is inefficient for large drives. Consider converting to NTFS or exFAT.",
        );
        Some(
            Issue::plain(
                id.as_str(),
                IssueSeverity::Info,
                title.as_str(),
                description.as_str(),
                ImpactCategory::Performance,
            ),
        )
    }

    /// What a fix does. An action about free space or temporary files asks
    /// for a cleanup; one about fragmentation names the drive, which must be
    /// a single capital letter; any other action is not the checker's.
    pub fn fix_plan(&self, action_id: &str) -> (plan: Result<StoragePlan, FixError>)
        ensures
            asks_cleanup(action_id@) ==> plan == Ok::<StoragePlan, FixError>(StoragePlan::Cleanup),
            !asks_cleanup(action_id@) && is_prefix("storage_fragmentation_"@, action_id@) ==> {
                let drive = fragmented_drive(action_id@);
                if is_drive_letter(drive) {
                    plan == Ok::<StoragePlan, FixError>(StoragePlan::Defragment { letter: drive[0] })
                } else {
                    plan matches Err(FixError::Failed(reason)) && reason@
                        == "Invalid drive letter: "@ + drive
                }
            },
            !asks_cleanup(action_id@) && !is_prefix("storage_fragmentation_"@, action_id@)
                ==> plan matches Err(FixError::NotApplicable),
    {
        if starts_with(action_id, "storage_low_space_") || str_equal(
            action_id,
            "storage_temp_cleanup",
        ) {
            return Ok(StoragePlan::Cleanup);
        }
        match strip_prefix(action_id, "storage_fragmentation_") {
            None => Err(FixError::NotApplicable),
            Some(drive) => {
                let letters = chars_of(drive.as_str());
                if letters.len() == 1 && 'A' <= letters[0] && letters[0] <= 'Z' {
                    Ok(StoragePlan::Defragment { letter: letters[0] })
                } else {
                    let mut reason = "Invalid drive letter: ".to_owned();
                    reason.append(drive.as_str());
                    Err(FixError::Failed(reason))
                }
            },
        }
    }
}

} // verus!
