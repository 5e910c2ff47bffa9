//! What the running kernel offers: whether Multipath TCP is switched on, and
//! whether the kernel is new enough to hand out the per-connection record.
//!
//! Both answers come from the system, so no contract can say what the system
//! answers. What a contract does say is what is made of the answer: the
//! result is stated over a reading that the system gave, whatever it was.
//! What is decided from a reading, once it is there, is also a function of
//! its own with an exact contract.
use vstd::prelude::*;
use sysctl::Sysctl;
use crate::platform::Platform;

verus! {

/// The first kernel release, by major and minor number, that has the
/// per-connection MPTCP record.
pub const MPTCP_INFO_MIN_MAJOR: u64 = 5;

/// See `MPTCP_INFO_MIN_MAJOR`.
pub const MPTCP_INFO_MIN_MINOR: u64 = 16;

/// A kernel release, reduced to its three numbers.
#[derive(Debug, Clone, Copy, PartialEq, Eq, Structural)]
pub struct KernelVersion {
    pub major: u64,
    pub minor: u64,
    pub patch: u64,
}

/// A handle on one named system control, of the `sysctl` crate.
#[verifier::external_type_specification]
#[verifier::external_body]
pub struct ExCtl(sysctl::Ctl);

/// A value read from a system control, of the `sysctl` crate.
#[verifier::external_type_specification]
#[verifier::external_body]
pub struct ExCtlValue(sysctl::CtlValue);

/// The error of the `sysctl` crate.
#[verifier::external_type_specification]
#[verifier::external_body]
pub struct ExSysctlError(sysctl::SysctlError);

/// The major, minor and patch number that `semver::Version::parse` reads
/// from `text`, or `None` where it rejects the text.
pub uninterp spec fn semver_parse(text: Seq<char>) -> Option<(u64, u64, u64)>;

/// Calls `semver::Version::parse` and keeps the three numbers of the version
/// it returns. The contract only gives the outcome its name: the parse
/// depends on the text alone. What the grammar accepts is not stated.
#[verifier::external_body]
fn parse_semver(text: &str) -> (version: Option<(u64, u64, u64)>)
    ensures
        version == semver_parse(text@),
{
    match semver::Version::parse(text) {
        Ok(v) => Some((v.major, v.minor, v.patch)),
        Err(_) => None,
    }
}

/// Calls `sysinfo::System::kernel_version`, which asks the system for the
/// name of the running kernel's release. Nothing is claimed of the answer.
#[verifier::external_body]
fn kernel_release() -> (release: Option<String>) {
    sysinfo::System::kernel_version()
}

/// Calls `sysctl::Ctl::new`, which looks the control `name` up on the
/// running system. Nothing is claimed of the answer.
#[verifier::external_body]
fn ctl_new(name: &str) -> (ctl: Result<sysctl::Ctl, sysctl::SysctlError>) {
    sysctl::Ctl::new(name)
}

/// Calls `value` of `sysctl::Ctl`, which reads the control's current value
/// from the system. Nothing is claimed of the answer.
#[verifier::external_body]
fn ctl_value(ctl: &sysctl::Ctl) -> (value: Result<sysctl::CtlValue, sysctl::SysctlError>) {
    ctl.value()
}

/// Calls `as_string` of `sysctl::CtlValue`, which hands out the text of
/// a value that is a string and `None` for a value of another kind. The
/// value is opaque here, so nothing is claimed of the answer.
#[verifier::external_body]
fn ctl_as_string(value: &sysctl::CtlValue) -> (text: Option<&String>) {
    value.as_string()
}

impl KernelVersion {
    /// Whether a kernel of this release has the per-connection MPTCP
    /// record: its major and minor number are at least 5.16.
    pub open spec fn spec_has_mptcp_info(&self) -> bool {
        self.major > MPTCP_INFO_MIN_MAJOR || (self.major == MPTCP_INFO_MIN_MAJOR && self.minor
            >= MPTCP_INFO_MIN_MINOR)
    }

    /// Whether a kernel of this release has the per-connection MPTCP
    /// record.
    #[verifier::when_used_as_spec(spec_has_mptcp_info)]
    pub fn has_mptcp_info(&self) -> (b: bool)
        ensures
            b == self.spec_has_mptcp_info(),
    {
        self.major > MPTCP_INFO_MIN_MAJOR || (self.major == MPTCP_INFO_MIN_MAJOR && self.minor
            >= MPTCP_INFO_MIN_MINOR)
    }
}

/// The kernel version that the release name `release` stands for.
pub open spec fn spec_parse_kernel_version(release: Seq<char>) -> Option<KernelVersion> {
    match semver_parse(release) {
        Some((major, minor, patch)) => Some(KernelVersion { major, minor, patch }),
        None => None,
    }
}

/// Reads a release name as a semantic version and keeps its numbers; a name
/// that is no semantic version gives `None`.
pub fn parse_kernel_version(release: &str) -> (version: Option<KernelVersion>)
    ensures
        version == spec_parse_kernel_version(release@),
{
    match parse_semver(release) {
        Some((major, minor, patch)) => Some(KernelVersion { major, minor, patch }),
        None => None,
    }
}

/// Whether `release` is an answer that the running system can give when it
/// is asked for the name of its kernel's release: the name, or `None` where
/// it has none to give. Which answers the system can give is not known
/// here; only asking shows one.
pub closed spec fn release_reads(release: Option<Seq<char>>) -> bool {
    exists|answer: Option<String>| #[trigger]
        call_ensures(kernel_release, (), answer) && release == match answer {
            Some(name) => Some(name@),
            None => None,
        }
}

/// The kernel version that the system's answer `release` stands for: the
/// reading of the name, and none where the system gave no name or the name
/// is no version.
pub open spec fn spec_version_named(release: Option<Seq<char>>) -> Option<KernelVersion> {
    match release {
        Some(name) => spec_parse_kernel_version(name),
        None => None,
    }
}

/// The version of the running kernel: the system is asked for the name of
/// its release, once, and the answer is read as a version. There is no
/// version where the system gives no name or the name cannot be read as
/// one.
pub fn kernel_version() -> (version: Option<KernelVersion>)
    ensures
        exists|release: Option<Seq<char>>| #[trigger]
            release_reads(release) && version == spec_version_named(release),
{
    match kernel_release() {
        Some(release) => {
            let version = parse_kernel_version(release.as_str());
            assert(release_reads(Some(release@)));
            version
        },
        None => {
            assert(release_reads(None));
            None
        },
    }
}

/// Whether a kernel of the version `version` has the per-connection MPTCP
/// record. An unknown version counts as too old.
pub fn has_mptcp_info_in(version: Option<KernelVersion>) -> (b: bool)
    ensures
        b == (version matches Some(v) && v.spec_has_mptcp_info()),
{
    match version {
        Some(v) => v.has_mptcp_info(),
        None => false,
    }
}

/// Whether the running kernel has the per-connection MPTCP record: the
/// system is asked for the name of its release, and the answer is yes if
/// that name reads as a version of at least 5.16, and no in every other
/// case. The version does not change while the system runs, so a caller may
/// ask once and keep the answer.
pub fn has_mptcp_info() -> (b: bool)
    ensures
        exists|release: Option<Seq<char>>| #[trigger]
            release_reads(release) && b == (spec_version_named(release) matches Some(v)
                && v.spec_has_mptcp_info()),
{
    has_mptcp_info_in(kernel_version())
}

/// The name of the system control that switches Multipath TCP on and off,
/// where the platform has one.
pub open spec fn spec_enabled_control(platform: Platform) -> Option<Seq<char>> {
    match platform {
        Platform::Linux => Some("net.mptcp.enabled"@),
        Platform::Darwin => Some("net.inet.mptcp.enable"@),
        Platform::Other => None,
    }
}

/// The name of the system control that switches Multipath TCP on and off,
/// where the platform has one.
pub fn enabled_control(platform: Platform) -> (name: Option<&'static str>)
    ensures
        name is Some <==> platform != Platform::Other,
        name matches Some(n) ==> Some(n@) == spec_enabled_control(platform),
{
    match platform {
        Platform::Linux => Some("net.mptcp.enabled"),
        Platform::Darwin => Some("net.inet.mptcp.enable"),
        Platform::Other => None,
    }
}

/// Whether the text read from the control says that Multipath TCP is on: it
/// does exactly if it is the one character `1`.
pub fn is_enabled_value(text: &str) -> (b: bool)
    ensures
        b == (text@ == seq!['1']),
{
    if text.unicode_len() == 1 {
        let c = text.get_char(0);
        assert(c == '1' ==> text@ =~= seq!['1']);
        c == '1'
    } else {
        false
    }
}

/// Whether `reading` is what the running system can give when the control
/// `control` is read: the text it holds, or `None` where the control is
/// missing, cannot be read, or holds something that is no text. Which
/// readings the system can give is not known here; only reading shows one.
pub closed spec fn control_reads(control: Seq<char>, reading: Option<Seq<char>>) -> bool {
    exists|name: &str, opened: Result<sysctl::Ctl, sysctl::SysctlError>|
        name@ == control && #[trigger] call_ensures(ctl_new, (name,), opened) && match opened {
            Err(_) => reading is None,
            Ok(ctl) => value_reads(ctl, reading),
        }
}

/// Whether `reading` is what the running system can give when the value of
/// the control behind `ctl` is read.
spec fn value_reads(ctl: sysctl::Ctl, reading: Option<Seq<char>>) -> bool {
    exists|value: Result<sysctl::CtlValue, sysctl::SysctlError>| #[trigger]
        call_ensures(ctl_value, (&ctl,), value) && match value {
            Err(_) => reading is None,
            Ok(held) => text_reads(held, reading),
        }
}

/// Whether `reading` is the text that the value `held` hands out.
spec fn text_reads(held: sysctl::CtlValue, reading: Option<Seq<char>>) -> bool {
    exists|text: Option<&String>| #[trigger]
        call_ensures(ctl_as_string, (&held,), text) && reading == match text {
            Some(text) => Some(text@),
            None => None,
        }
}

/// Whether a reading of the control says that Multipath TCP is on: it does
/// exactly if the control holds the one character `1`.
pub open spec fn spec_reading_enables(reading: Option<Seq<char>>) -> bool {
    reading == Some(seq!['1'])
}

/// Whether `enabled` is the answer for `platform` that the reading
/// `reading` of its control gives.
pub open spec fn answers_enabled(
    platform: Platform,
    reading: Option<Seq<char>>,
    enabled: bool,
) -> bool {
    &&& spec_enabled_control(platform) matches Some(control) && control_reads(control, reading)
    &&& enabled == spec_reading_enables(reading)
}

/// Whether Multipath TCP is switched on, asked afresh at every call since an
/// operator may change it at any time. The control of the platform is read,
/// once, and the answer is yes exactly if it holds the text `1`; it is no
/// where the control is missing, cannot be read, or holds no text.
/// A platform without Multipath TCP has no control and is not asked: the
/// answer is no.
pub fn is_mptcp_enabled(platform: Platform) -> (enabled: bool)
    ensures
        spec_enabled_control(platform) is None ==> !enabled,
        spec_enabled_control(platform) is Some ==> exists|reading: Option<Seq<char>>|
            answers_enabled(platform, reading, enabled),
{
    let name = match enabled_control(platform) {
        Some(name) => name,
        None => {
            return false;
        },
    };
    let opened = ctl_new(name);
    let ctl = match opened {
        Ok(ctl) => ctl,
        Err(_) => {
            assert(control_reads(name@, None));
            assert(answers_enabled(platform, None, false));
            return false;
        },
    };
    let value = ctl_value(&ctl);
    let held = match value {
        Ok(held) => held,
        Err(_) => {
            assert(value_reads(ctl, None));
            assert(control_reads(name@, None));
            assert(answers_enabled(platform, None, false));
            return false;
        },
    };
    match ctl_as_string(&held) {
        Some(text) => {
            let enabled = is_enabled_value(text.as_str());
            assert(text_reads(held, Some(text@)));
            assert(value_reads(ctl, Some(text@)));
            assert(control_reads(name@, Some(text@)));
            assert(answers_enabled(platform, Some(text@), enabled));
            enabled
        },
        None => {
            assert(text_reads(held, None));
            assert(value_reads(ctl, None));
            assert(control_reads(name@, None));
            assert(answers_enabled(platform, None, false));
            false
        },
    }
}

} // verus!
