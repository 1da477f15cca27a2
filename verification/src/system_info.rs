//! Machine identity: platform and architecture tags handed in by the host
//! build environment, the human-readable OS version resolved per platform,
//! and the hostname with its sentinel fallback.

use crate::os_release::parse_pretty_name;
use crate::os_release::pretty_name_of;
use crate::text::decode_utf8_lossy;
use crate::text::lossy_utf8;
use crate::text::option_text_view;
use crate::text::trim_str;
use crate::text::trimmed;
use vstd::prelude::*;

verus! {

/// Identity of the host machine, built fresh on every query.
#[derive(Clone, Debug)]
pub struct SystemInfo {
    /// Operating-system tag of the build target.
    pub platform: String,
    /// CPU architecture tag of the build target.
    pub arch: String,
    /// Human-readable OS version, or a generic label when none is found.
    pub os_version: String,
    /// Machine hostname, or `"unknown"` when resolution fails.
    pub hostname: String,
}

/// Relies on `hostname::get`: the machine's hostname when the platform can
/// resolve one, converted lossily to text. Nothing is promised of the
/// outcome; resolution may fail.
#[verifier::external_body]
fn resolve_hostname() -> (r: Option<String>) {
    match hostname::get() {
        Ok(h) => Some(h.to_string_lossy().to_string()),
        Err(_) => None,
    }
}

/// The hostname field: the resolved name as it came, or the sentinel when
/// resolution failed.
pub open spec fn hostname_text(resolved: Option<Seq<char>>) -> Seq<char> {
    match resolved {
        Some(h) => h,
        None => "unknown"@,
    }
}

/// Assembles the identity record from the platform tags and the outcome of
/// hostname resolution. The hostname is the sentinel exactly when
/// resolution failed or resolved to the sentinel's own text.
pub fn finish_system_info(
    platform: String,
    arch: String,
    os_version: String,
    resolved: Option<String>,
) -> (r: SystemInfo)
    ensures
        r.platform@ == platform@,
        r.arch@ == arch@,
        r.os_version@ == os_version@,
        r.hostname@ == hostname_text(option_text_view(resolved)),
        r.hostname@ == "unknown"@ <==> (resolved is None || (resolved matches Some(h) && h@
            == "unknown"@)),
{
    match resolved {
        Some(h) => SystemInfo { platform, arch, os_version, hostname: h },
        None => SystemInfo { platform, arch, os_version, hostname: "unknown".to_owned() },
    }
}

/// Builds the identity record for the given platform tags, resolving the
/// hostname as it goes. It never fails: a hostname that cannot be resolved
/// becomes the sentinel rather than an error.
pub fn get_system_info(platform: String, arch: String, os_version: String) -> (r: Result<
    SystemInfo,
    String,
>)
    ensures
        r is Ok,
        r->Ok_0.platform@ == platform@,
        r->Ok_0.arch@ == arch@,
        r->Ok_0.os_version@ == os_version@,
{
    let resolved: Option<String> = resolve_hostname();
    Ok(finish_system_info(platform, arch, os_version, resolved))
}

/// Identity queries repeat their answer: two records assembled from the
/// same platform tags, the same version text and the same resolution
/// outcome agree on every field.
pub proof fn lemma_system_info_repeatable(
    r1: SystemInfo,
    r2: SystemInfo,
    platform: Seq<char>,
    arch: Seq<char>,
    os_version: Seq<char>,
    resolved: Option<Seq<char>>,
)
    requires
        r1.platform@ == platform,
        r1.arch@ == arch,
        r1.os_version@ == os_version,
        r1.hostname@ == hostname_text(resolved),
        r2.platform@ == platform,
        r2.arch@ == arch,
        r2.os_version@ == os_version,
        r2.hostname@ == hostname_text(resolved),
    ensures
        r1.platform@ == r2.platform@,
        r1.arch@ == r2.arch@,
        r1.os_version@ == r2.os_version@,
        r1.hostname@ == r2.hostname@,
{
}

/// The Windows version label. No registry or management query is made:
/// the label is fixed.
pub fn get_windows_version() -> (r: String)
    ensures
        r@ == "Windows"@,
{
    "Windows".to_owned()
}

/// The macOS version: the version-reporting tool's output trimmed, or the
/// generic label when the tool could not run. `probe` is the captured
/// standard output, `None` when the tool failed to execute.
pub fn get_macos_version(probe: Option<Vec<u8>>) -> (r: String)
    ensures
        probe matches Some(out) ==> r@ == trimmed(lossy_utf8(out@)),
        probe is None ==> r@ == "macOS"@,
{
    match probe {
        Some(out) => {
            let text: String = decode_utf8_lossy(&out);
            trim_str(text.as_str())
        },
        None => "macOS".to_owned(),
    }
}

/// What the Linux fallback yields once the release tool has failed: the
/// os-release pretty name when the file was read and names one, the
/// generic label otherwise.
pub open spec fn linux_fallback_text(os_release: Option<Seq<char>>) -> Seq<char> {
    match os_release {
        Some(content) => match pretty_name_of(content) {
            Some(name) => name,
            None => "Linux"@,
        },
        None => "Linux"@,
    }
}

/// The Linux version: the release tool's output trimmed when the tool ran,
/// otherwise the os-release pretty name, otherwise the generic label.
/// `probe` is the tool's captured standard output (`None` when it failed
/// to execute); `os_release` is the os-release file's content (`None` when
/// it could not be read).
pub fn get_linux_version(probe: Option<Vec<u8>>, os_release: Option<String>) -> (r: String)
    ensures
        probe matches Some(out) ==> r@ == trimmed(lossy_utf8(out@)),
        probe is None ==> r@ == linux_fallback_text(option_text_view(os_release)),
{
    match probe {
        Some(out) => {
            let text: String = decode_utf8_lossy(&out);
            trim_str(text.as_str())
        },
        None => match os_release {
            Some(content) => {
                match parse_pretty_name(content.as_str()) {
                    Some(name) => name,
                    None => "Linux".to_owned(),
                }
            },
            None => "Linux".to_owned(),
        },
    }
}

} // verus!
