//! The license gate: tiers, trial expiry, key validation and the decisions
//! behind activation and trial start.
//!
//! Reading and writing the license file is the caller's part. The functions
//! here take the license that was read and return the license to be written.

use vstd::prelude::*;
use vstd::string::StringExecFns;
use std::path::PathBuf;
use crate::clock::unix_now;
use crate::parse::{split_chars, split_on};
use crate::text::{
    ascii_alphanumeric, ascii_uppercase, base36_digit, base36_value, chars_equal, chars_of,
    is_ascii_alphanumeric, to_ascii_uppercase,
};

verus! {

/// `std::path::PathBuf`, the place of the license file. The library keeps it
/// for the caller and never looks inside.
#[verifier::external_type_specification]
#[verifier::external_body]
pub struct ExPathBuf(std::path::PathBuf);

/// Seconds in a day.
pub const DAY_SECONDS: i64 = 86400;

/// Length of a trial: fourteen days.
pub const TRIAL_SECONDS: i64 = 1209600;

/// The level of entitlement.
#[derive(Debug, Clone, Copy, PartialEq, Eq, Structural)]
pub enum LicenseTier {
    Free,
    /// Full access until the trial runs out.
    Trial,
    Pro,
}

/// Something that a license may or may not allow.
#[derive(Debug, Clone, Copy, PartialEq, Eq, Structural)]
pub enum Feature {
    FirewallChecker,
    StartupAnalyzer,
    ProcessMonitor,
    OsUpdateChecker,
    PortScanner,
    BloatwareDetector,
    NetworkChecker,
    SmartDiskChecker,
    StorageChecker,
    ExportCsv,
    ExportHtml,
    ExportPdf,
    ExportJson,
    AutoFix,
    ScanHistory,
}

/// A capability of the paid tier.
#[derive(Debug, Clone, Copy, PartialEq, Eq, Structural)]
pub enum ProFeature {
    /// Scheduled scans and automatic fixes.
    Automation,
}

/// The license as it is kept on disk.
#[derive(Debug, Clone)]
pub struct License {
    pub key: Option<String>,
    /// The stored tier. Entitlement goes by the effective tier, which takes
    /// the expiry into account.
    pub tier: LicenseTier,
    /// Seconds since the Unix epoch.
    pub activated_at: i64,
    /// Seconds since the Unix epoch; only a trial expires.
    pub expires_at: Option<i64>,
}

impl License {
    /// A trial that has an expiry was activated before it expires.
    pub open spec fn well_formed(&self) -> bool {
        self.tier == LicenseTier::Trial ==> (self.expires_at matches Some(expiry) ==> expiry
            > self.activated_at)
    }

    /// The license is a trial whose expiry lies before `now`.
    pub open spec fn expired_at(&self, now: int) -> bool {
        self.tier == LicenseTier::Trial && (self.expires_at matches Some(expiry) && now > expiry)
    }

    /// The tier that counts at `now`: an expired trial counts as free, and
    /// every other license as its stored tier.
    pub open spec fn effective_tier_spec(&self, now: int) -> LicenseTier {
        if self.expired_at(now) {
            LicenseTier::Free
        } else {
            self.tier
        }
    }

    /// The license allows the capability at `now`.
    pub open spec fn grants_spec(&self, feature: ProFeature, now: int) -> bool {
        match feature {
            ProFeature::Automation => self.effective_tier_spec(now) != LicenseTier::Free,
        }
    }

    /// Whole days of trial left at `now`; zero for a license that is no
    /// trial, has no expiry or has run out.
    pub open spec fn days_remaining_spec(&self, now: int) -> int {
        if self.tier == LicenseTier::Trial && (self.expires_at matches Some(expiry) && expiry
            > now) {
            (self.expires_at->0 - now) / (DAY_SECONDS as int)
        } else {
            0
        }
    }

    /// The free license, activated at `now`.
    pub open spec fn is_free_from(&self, now: int) -> bool {
        &&& self.key is None
        &&& self.tier == LicenseTier::Free
        &&& self.activated_at == now
        &&& self.expires_at is None
    }

    /// The free license, activated at `now`.
    pub fn free_at(now: i64) -> (license: Self)
        ensures
            license.is_free_from(now as int),
            license.well_formed(),
    {
        License { key: None, tier: LicenseTier::Free, activated_at: now, expires_at: None }
    }

    /// Whether the license is a trial that has run out at `now`.
    pub fn is_trial_expired_at(&self, now: i64) -> (expired: bool)
        ensures
            expired == self.expired_at(now as int),
    {
        match self.tier {
            LicenseTier::Trial => match self.expires_at {
                Some(expiry) => now > expiry,
                None => false,
            },
            _ => false,
        }
    }

    /// The tier that counts at `now`.
    pub fn effective_tier_at(&self, now: i64) -> (tier: LicenseTier)
        ensures
            tier == self.effective_tier_spec(now as int),
    {
        if self.is_trial_expired_at(now) {
            LicenseTier::Free
        } else {
            self.tier
        }
    }

    /// Whether the license allows the capability at `now`.
    pub fn has_pro_feature_at(&self, feature: ProFeature, now: i64) -> (granted: bool)
        ensures
            granted == self.grants_spec(feature, now as int),
    {
        let tier = self.effective_tier_at(now);
        match feature {
            ProFeature::Automation => match tier {
                LicenseTier::Free => false,
                _ => true,
            },
        }
    }

    /// Whole days of trial left at `now`.
    pub fn trial_days_remaining_at(&self, now: i64) -> (days: i64)
        ensures
            days == self.days_remaining_spec(now as int),
            days >= 0,
    {
        match self.tier {
            LicenseTier::Trial => match self.expires_at {
                Some(expiry) => {
                    if expiry > now {
                        let left: i128 = expiry as i128 - now as i128;
                        (left / 86400) as i64
                    } else {
                        0
                    }
                },
                None => 0,
            },
            _ => 0,
        }
    }

    /// Whether the license is a trial that has run out by the system clock.
    pub fn is_trial_expired(&self) -> (expired: bool)
        ensures
            exists|now: i64| expired == #[trigger] self.expired_at(now as int),
            expired ==> self.tier == LicenseTier::Trial && self.expires_at is Some,
    {
        let now = unix_now();
        let expired = self.is_trial_expired_at(now);
        assert(expired == self.expired_at(now as int));
        expired
    }

    /// The tier that counts by the system clock. Every check of entitlement
    /// goes through here, so that a trial ends when it expires.
    pub fn effective_tier(&self) -> (tier: LicenseTier)
        ensures
            exists|now: i64| tier == #[trigger] self.effective_tier_spec(now as int),
            tier == self.tier || (tier == LicenseTier::Free && self.tier == LicenseTier::Trial
                && self.expires_at is Some),
    {
        let now = unix_now();
        let tier = self.effective_tier_at(now);
        assert(tier == self.effective_tier_spec(now as int));
        tier
    }

    /// Whether the license allows the feature. Every tier allows every
    /// feature of this kind.
    pub fn has_feature(&self, feature: Feature) -> (granted: bool)
        ensures
            granted,
    {
        true
    }

    /// Whether the license allows the capability by the system clock.
    pub fn has_pro_feature(&self, feature: ProFeature) -> (granted: bool)
        ensures
            exists|now: i64| granted == #[trigger] self.grants_spec(feature, now as int),
            self.tier == LicenseTier::Free ==> !granted,
            self.tier == LicenseTier::Pro ==> granted,
            self.tier == LicenseTier::Trial && self.expires_at is None ==> granted,
    {
        let now = unix_now();
        let granted = self.has_pro_feature_at(feature, now);
        assert(granted == self.grants_spec(feature, now as int));
        granted
    }

    /// Whole days of trial left by the system clock.
    pub fn trial_days_remaining(&self) -> (days: i64)
        ensures
            exists|now: i64| days == #[trigger] self.days_remaining_spec(now as int),
            days >= 0,
            self.tier != LicenseTier::Trial || self.expires_at is None ==> days == 0,
    {
        let now = unix_now();
        let days = self.trial_days_remaining_at(now);
        assert(days == self.days_remaining_spec(now as int));
        days
    }
}

impl Default for License {
    /// The free license, activated now.
    fn default() -> (license: Self)
        ensures
            license.key is None,
            license.tier == LicenseTier::Free,
            license.expires_at is None,
            license.well_formed(),
    {
        License::free_at(unix_now())
    }
}

/// Four ASCII letters or digits.
pub open spec fn is_key_segment(segment: Seq<char>) -> bool {
    &&& segment.len() == 4
    &&& forall|i: int| 0 <= i < segment.len() ==> is_ascii_alphanumeric(#[trigger] segment[i])
}

/// The sum of the base-36 values of the characters of `s` that are digits.
pub open spec fn digit_sum(s: Seq<char>) -> nat
    decreases s.len(),
{
    if s.len() == 0 {
        0
    } else {
        digit_sum(s.drop_last()) + match base36_value(s.last()) {
            Some(digit) => digit,
            None => 0,
        }
    }
}

/// The last character of the checksum segment is the base-36 digit whose
/// value is the digit sum of the payload modulo 36.
pub open spec fn checksum_matches(payload: Seq<char>, checksum_segment: Seq<char>) -> bool {
    &&& checksum_segment.len() > 0
    &&& base36_value(checksum_segment.last()) == Some(digit_sum(payload) % 36)
}

/// A well-formed license key: five segments separated by dashes, of which the
/// first is `HSPC`, the other four are four ASCII letters or digits each, and
/// the last carries the checksum of the three in the middle.
pub open spec fn valid_key(key: Seq<char>) -> bool {
    let parts = split_on(key, '-');
    &&& parts.len() == 5
    &&& parts[0] == "HSPC"@
    &&& is_key_segment(parts[1])
    &&& is_key_segment(parts[2])
    &&& is_key_segment(parts[3])
    &&& is_key_segment(parts[4])
    &&& checksum_matches(parts[1] + parts[2] + parts[3], parts[4])
}

/// The texts of a list of strings, one after the other.
pub open spec fn concatenated(segments: Seq<&str>) -> Seq<char>
    decreases segments.len(),
{
    if segments.len() == 0 {
        Seq::empty()
    } else {
        concatenated(segments.drop_last()) + segments.last()@
    }
}

/// Whether `segment` is four ASCII letters or digits.
pub fn key_segment(segment: &Vec<char>) -> (ok: bool)
    ensures
        ok == is_key_segment(segment@),
{
    if segment.len() != 4 {
        return false;
    }
    let mut i: usize = 0;
    while i < 4
        invariant
            segment@.len() == 4,
            i <= 4,
            forall|k: int| 0 <= k < i ==> is_ascii_alphanumeric(#[trigger] segment@[k]),
        decreases 4 - i,
    {
        if !ascii_alphanumeric(segment[i]) {
            return false;
        }
        i = i + 1;
    }
    true
}

/// The digit sum of `s`, modulo 36.
pub fn digit_sum_mod36(s: &Vec<char>) -> (sum: u32)
    ensures
        sum as nat == digit_sum(s@) % 36,
{
    let mut sum: u32 = 0;
    let mut i: usize = 0;
    assert(s@.take(0) =~= Seq::<char>::empty());
    while i < s.len()
        invariant
            i <= s@.len(),
            sum as nat == digit_sum(s@.take(i as int)) % 36,
        decreases s@.len() - i,
    {
        assert(s@.take(i + 1).drop_last() =~= s@.take(i as int));
        assert(s@.take(i + 1).last() == s@[i as int]);
        let ghost before = digit_sum(s@.take(i as int));
        match base36_digit(s[i]) {
            Some(digit) => {
                assert((before + digit as nat) % 36 == ((before % 36) + digit as nat) % 36) by {
                    vstd::arithmetic::div_mod::lemma_add_mod_noop_right(
                        digit as int,
                        before as int,
                        36,
                    );
                    vstd::arithmetic::div_mod::lemma_add_mod_noop(
                        before as int,
                        digit as int,
                        36,
                    );
                    vstd::arithmetic::div_mod::lemma_add_mod_noop(
                        (before % 36) as int,
                        digit as int,
                        36,
                    );
                    vstd::arithmetic::div_mod::lemma_mod_twice(before as int, 36);
                }
                sum = (sum + digit) % 36;
            },
            None => {},
        }
        i = i + 1;
    }
    assert(s@.take(s@.len() as int) =~= s@);
    sum
}

/// Whether the checksum segment fits the payload.
pub fn checksum_ok(payload: &Vec<char>, checksum_segment: &Vec<char>) -> (ok: bool)
    ensures
        ok == checksum_matches(payload@, checksum_segment@),
{
    if checksum_segment.len() == 0 {
        return false;
    }
    let last = checksum_segment[checksum_segment.len() - 1];
    match base36_digit(last) {
        Some(expected) => digit_sum_mod36(payload) == expected,
        None => false,
    }
}

/// A license that was granted by a trial start, and whether it is new and
/// has to be written to disk.
#[derive(Debug, Clone)]
pub struct TrialGrant {
    pub license: License,
    pub fresh: bool,
}

/// What the license file held when it was read.
#[derive(Debug, Clone)]
pub enum LicenseFile {
    /// There is no file.
    Missing,
    /// The file is there and could not be read; the payload says why.
    Unreadable(String),
    /// The file was read and is no license; the payload says why.
    Malformed(String),
    Parsed(License),
}

/// `granted` is what a trial start at `now` gives to the holder of
/// `current`, who has no paid license: the running trial as it is, or else a
/// new trial of fourteen days from `now`.
pub open spec fn trial_granted(current: License, now: int, granted: License, fresh: bool) -> bool {
    if current.tier == LicenseTier::Trial && !current.expired_at(now) {
        !fresh && granted == current
    } else {
        &&& fresh
        &&& granted.key is None
        &&& granted.tier == LicenseTier::Trial
        &&& granted.activated_at == now
        &&& granted.expires_at == Some((now + TRIAL_SECONDS) as i64)
    }
}

/// A second trial start gives the same trial as the first, with the same
/// activation and expiry, as long as it comes before that trial has run out.
pub proof fn lemma_trial_start_repeats(
    current: License,
    first_now: int,
    first: License,
    first_fresh: bool,
    second_now: int,
    second: License,
    second_fresh: bool,
)
    requires
        current.tier != LicenseTier::Pro,
        trial_granted(current, first_now, first, first_fresh),
        trial_granted(first, second_now, second, second_fresh),
        !first.expired_at(second_now),
    ensures
        second == first,
        second.activated_at == first.activated_at,
        second.expires_at == first.expires_at,
        !second_fresh,
{
}

/// A trial that was started at a time that a clock can show is well-formed
/// and has not run out at that time.
pub proof fn lemma_fresh_trial_runs(current: License, now: int, granted: License)
    requires
        trial_granted(current, now, granted, true),
        i64::MIN <= now,
        now + TRIAL_SECONDS <= i64::MAX,
    ensures
        granted.well_formed(),
        !granted.expired_at(now),
        granted.effective_tier_spec(now) == LicenseTier::Trial,
{
}

/// A trial whose expiry lies in the past counts as free; one whose expiry
/// has not passed, or that has none, counts as a trial.
pub proof fn lemma_trial_counts_until_expiry(license: License, now: int)
    requires
        license.tier == LicenseTier::Trial,
    ensures
        (license.expires_at matches Some(expiry) && expiry < now) ==> license.effective_tier_spec(
            now,
        ) == LicenseTier::Free,
        (license.expires_at matches Some(expiry) && expiry >= now) ==> license.effective_tier_spec(
            now,
        ) == LicenseTier::Trial,
        license.expires_at is None ==> license.effective_tier_spec(now) == LicenseTier::Trial,
{
}

/// Only a trial runs out: a license of another tier counts as its stored
/// tier at every time.
pub proof fn lemma_only_trials_expire(license: License, now: int)
    requires
        license.tier != LicenseTier::Trial,
    ensures
        license.effective_tier_spec(now) == license.tier,
        license.grants_spec(ProFeature::Automation, now) == (license.tier == LicenseTier::Pro),
{
}

/// Keeps the place of the license file and decides what the file is to hold.
pub struct LicenseManager {
    license_path: PathBuf,
}

impl LicenseManager {
    /// The place of the license file.
    pub closed spec fn path(&self) -> PathBuf {
        self.license_path
    }

    /// A manager for the license file at `license_path`.
    pub fn new(license_path: PathBuf) -> (manager: Self)
        ensures
            manager.path() == license_path,
    {
        LicenseManager { license_path }
    }

    /// The place of the license file.
    pub fn license_path(&self) -> (path: &PathBuf)
        ensures
            *path == self.path(),
    {
        &self.license_path
    }

    /// The license that is in force, given what the file held: the free
    /// license where there is no file, the license in the file where there is
    /// one, and an error where the file cannot be read or is no license.
    pub fn load(&self, file: LicenseFile) -> (loaded: Result<License, String>)
        ensures
            match file {
                LicenseFile::Missing => loaded matches Ok(license) && license.key is None
                    && license.tier == LicenseTier::Free && license.expires_at is None,
                LicenseFile::Unreadable(reason) => loaded matches Err(message) && message@
                    == "Failed to read license file: "@ + reason@,
                LicenseFile::Malformed(reason) => loaded matches Err(message) && message@
                    == "Failed to parse license file: "@ + reason@,
                LicenseFile::Parsed(license) => loaded == Ok::<License, String>(license),
            },
    {
        match file {
            LicenseFile::Missing => Ok(License::default()),
            LicenseFile::Unreadable(reason) => {
                let mut message = "Failed to read license file: ".to_owned();
                message.append(reason.as_str());
                Err(message)
            },
            LicenseFile::Malformed(reason) => {
                let mut message = "Failed to parse license file: ".to_owned();
                message.append(reason.as_str());
                Err(message)
            },
            LicenseFile::Parsed(license) => Ok(license),
        }
    }

    /// Whether `key` is a well-formed license key.
    pub fn validate_key(key: &str) -> (valid: bool)
        ensures
            valid == valid_key(key@),
    {
        let chars = chars_of(key);
        let parts = split_chars(&chars, '-');
        if parts.len() != 5 {
            return false;
        }
        let prefix = chars_of("HSPC");
        if !chars_equal(&parts[0], &prefix) {
            return false;
        }
        if !key_segment(&parts[1]) || !key_segment(&parts[2]) || !key_segment(&parts[3])
            || !key_segment(&parts[4]) {
            return false;
        }
        let mut payload: Vec<char> = Vec::new();
        let mut i: usize = 1;
        while i < 4
            invariant
                parts@.len() == 5,
                1 <= i <= 4,
                payload@ == if i == 1 {
                    Seq::<char>::empty()
                } else if i == 2 {
                    parts@[1]@
                } else if i == 3 {
                    parts@[1]@ + parts@[2]@
                } else {
                    parts@[1]@ + parts@[2]@ + parts@[3]@
                },
            decreases 4 - i,
        {
            let segment = &parts[i];
            let mut j: usize = 0;
            let ghost start = payload@;
            while j < segment.len()
                invariant
                    j <= segment@.len(),
                    payload@ == start + segment@.take(j as int),
                decreases segment@.len() - j,
            {
                payload.push(segment[j]);
                j = j + 1;
                assert(segment@.take(j as int) =~= segment@.take(j - 1).push(segment@[j - 1]));
                assert(payload@ =~= start + segment@.take(j as int));
            }
            assert(segment@.take(segment@.len() as int) =~= segment@);
            assert(start + Seq::<char>::empty() =~= start);
            assert(Seq::<char>::empty() + segment@ =~= segment@);
            i = i + 1;
        }
        checksum_ok(&payload, &parts[4])
    }

    /// Whether the last character of the checksum segment is the base-36
    /// digit of the digit sum of the segments modulo 36.
    pub fn verify_checksum(segments: &[&str], checksum_segment: &str) -> (ok: bool)
        ensures
            ok == checksum_matches(concatenated(segments@), checksum_segment@),
    {
        let mut payload: Vec<char> = Vec::new();
        let mut i: usize = 0;
        assert(segments@.take(0) =~= Seq::<&str>::empty());
        while i < segments.len()
            invariant
                i <= segments@.len(),
                payload@ == concatenated(segments@.take(i as int)),
            decreases segments@.len() - i,
        {
            assert(segments@.take(i + 1).drop_last() =~= segments@.take(i as int));
            assert(segments@.take(i + 1).last() == segments@[i as int]);
            let mut chars = chars_of(segments[i]);
            payload.append(&mut chars);
            i = i + 1;
        }
        assert(segments@.take(segments@.len() as int) =~= segments@);
        let checksum = chars_of(checksum_segment);
        checksum_ok(&payload, &checksum)
    }

    /// The paid license that activation with `key` at `now` gives, to be
    /// written to disk; an error where the key is not well-formed.
    pub fn activate_pro_at(&self, key: &str, now: i64) -> (activated: Result<License, String>)
        ensures
            activated is Ok <==> valid_key(key@),
            activated matches Err(message) ==> message@ == "Invalid license key format"@,
            activated matches Ok(license) ==> {
                &&& license.key matches Some(stored) && stored@ == ascii_uppercase(key@)
                &&& license.tier == LicenseTier::Pro
                &&& license.activated_at == now
                &&& license.expires_at is None
            },
    {
        if !Self::validate_key(key) {
            return Err("Invalid license key format".to_owned());
        }
        Ok(
            License {
                key: Some(to_ascii_uppercase(key)),
                tier: LicenseTier::Pro,
                activated_at: now,
                expires_at: None,
            },
        )
    }

    /// The paid license that activation with `key` gives by the system clock,
    /// to be written to disk; an error where the key is not well-formed.
    pub fn activate_pro(&self, key: &str) -> (activated: Result<License, String>)
        ensures
            activated is Ok <==> valid_key(key@),
            activated matches Err(message) ==> message@ == "Invalid license key format"@,
            activated matches Ok(license) ==> {
                &&& license.key matches Some(stored) && stored@ == ascii_uppercase(key@)
                &&& license.tier == LicenseTier::Pro
                &&& license.expires_at is None
            },
    {
        self.activate_pro_at(key, unix_now())
    }

    /// Starts a trial at `now` for the holder of `current`. A paid license
    /// refuses; a trial that still runs is handed back as it is; otherwise a
    /// new trial of fourteen days begins.
    pub fn start_trial_at(&self, current: License, now: i64) -> (started: Result<
        TrialGrant,
        String,
    >)
        requires
            now + TRIAL_SECONDS <= i64::MAX,
        ensures
            started is Err <==> current.tier == LicenseTier::Pro,
            started matches Err(message) ==> message@ == "Pro license is already active"@,
            started matches Ok(grant) ==> trial_granted(
                current,
                now as int,
                grant.license,
                grant.fresh,
            ),
    {
        match current.tier {
            LicenseTier::Pro => Err("Pro license is already active".to_owned()),
            LicenseTier::Trial => {
                if current.is_trial_expired_at(now) {
                    Ok(TrialGrant { license: Self::fresh_trial(now), fresh: true })
                } else {
                    Ok(TrialGrant { license: current, fresh: false })
                }
            },
            LicenseTier::Free => Ok(TrialGrant { license: Self::fresh_trial(now), fresh: true }),
        }
    }

    fn fresh_trial(now: i64) -> (license: License)
        requires
            now + TRIAL_SECONDS <= i64::MAX,
        ensures
            license.key is None,
            license.tier == LicenseTier::Trial,
            license.activated_at == now,
            license.expires_at == Some((now + TRIAL_SECONDS) as i64),
    {
        License {
            key: None,
            tier: LicenseTier::Trial,
            activated_at: now,
            expires_at: Some(now + TRIAL_SECONDS),
        }
    }

    /// Starts a trial by the system clock for the holder of `current`.
    pub fn start_trial(&self, current: License) -> (started: Result<TrialGrant, String>)
        ensures
            started is Err <==> current.tier == LicenseTier::Pro,
            started matches Err(message) ==> message@ == "Pro license is already active"@,
            started matches Ok(grant) ==> exists|now: i64| #[trigger]
                trial_granted(current, now as int, grant.license, grant.fresh),
            started matches Ok(grant) ==> grant.license.tier == LicenseTier::Trial,
    {
        let now = unix_now();
        let started = self.start_trial_at(current, now);
        assert(started matches Ok(grant) ==> trial_granted(
            current,
            now as int,
            grant.license,
            grant.fresh,
        ));
        started
    }

    /// The free license that a downgrade gives, to be written to disk.
    pub fn downgrade_to_free(&self) -> (downgraded: Result<License, String>)
        ensures
            downgraded matches Ok(license) && license.key is None && license.tier
                == LicenseTier::Free && license.expires_at is None,
    {
        Ok(License::default())
    }
}

} // verus!
