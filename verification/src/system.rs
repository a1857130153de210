//! The system section: operating system, kernel, architecture and uptime.

use crate::section::{header_text, push_header, Section};
use crate::style::{Palette, PaletteView};
use crate::text::{decimal, push_decimal};
use crate::units::{uptime_hours, uptime_minutes, uptime_seconds, Uptime};
use vstd::prelude::*;

verus! {

/// What a host says of itself at one moment. A name or version that the
/// host does not report is `None`.
#[derive(Debug, PartialEq, Eq)]
pub struct SystemSnapshot {
    pub os_name: Option<String>,
    pub os_version: Option<String>,
    pub kernel_version: Option<String>,
    pub arch: String,
    pub uptime: u64,
}

/// A system snapshot as plain values.
pub struct SystemView {
    pub os_name: Option<Seq<char>>,
    pub os_version: Option<Seq<char>>,
    pub kernel_version: Option<Seq<char>>,
    pub arch: Seq<char>,
    pub uptime: nat,
}

/// The text of a field that may be missing.
pub open spec fn option_text(field: Option<String>) -> Option<Seq<char>> {
    match field {
        Some(text) => Some(text@),
        None => None,
    }
}

impl View for SystemSnapshot {
    type V = SystemView;

    open spec fn view(&self) -> SystemView {
        SystemView {
            os_name: option_text(self.os_name),
            os_version: option_text(self.os_version),
            kernel_version: option_text(self.kernel_version),
            arch: self.arch@,
            uptime: self.uptime as nat,
        }
    }
}

/// The text shown for a field: its value, or the word `Unknown` where the
/// host reports none.
pub open spec fn or_unknown(field: Option<Seq<char>>) -> Seq<char> {
    match field {
        Some(text) => text,
        None => "Unknown"@,
    }
}

/// The line that names the operating system and its version.
pub open spec fn os_line(name: Option<Seq<char>>, version: Option<Seq<char>>) -> Seq<char> {
    "Operating System: "@ + or_unknown(name) + " "@ + or_unknown(version) + "\n"@
}

/// The line that gives the kernel's version.
pub open spec fn kernel_line(version: Option<Seq<char>>) -> Seq<char> {
    "Kernel Version: "@ + or_unknown(version) + "\n"@
}

/// The line that gives the processor architecture.
pub open spec fn arch_line(arch: Seq<char>) -> Seq<char> {
    "Architecture: "@ + arch + "\n"@
}

/// The line that gives an uptime of `total` seconds in hours, minutes and
/// seconds.
pub open spec fn uptime_line(total: nat) -> Seq<char> {
    "Uptime: "@ + decimal(uptime_hours(total)) + " hours, "@ + decimal(uptime_minutes(total))
        + " minutes, "@ + decimal(uptime_seconds(total)) + " seconds\n"@
}

/// The lines of the system section below its header.
pub open spec fn system_body(system: SystemView) -> Seq<char> {
    os_line(system.os_name, system.os_version) + kernel_line(system.kernel_version) + arch_line(
        system.arch,
    ) + uptime_line(system.uptime)
}

/// The whole system section.
pub open spec fn system_text(system: SystemView, palette: PaletteView) -> Seq<char> {
    header_text(Section::System, palette) + system_body(system)
}

/// Appends a field to `out`, or the word `Unknown` where it is missing.
fn push_or_unknown(out: &mut String, field: &Option<String>)
    ensures
        final(out)@ == old(out)@ + or_unknown(option_text(*field)),
{
    match field {
        Some(text) => out.append(text.as_str()),
        None => out.append("Unknown"),
    }
}

/// Appends the uptime line for `total` seconds to `out`.
fn push_uptime_line(out: &mut String, total: u64)
    ensures
        final(out)@ == old(out)@ + uptime_line(total as nat),
{
    let uptime = Uptime::from_seconds(total);
    out.append("Uptime: ");
    push_decimal(out, uptime.hours);
    out.append(" hours, ");
    push_decimal(out, uptime.minutes);
    out.append(" minutes, ");
    push_decimal(out, uptime.seconds);
    out.append(" seconds\n");
    assert(out@ =~= old(out)@ + uptime_line(total as nat));
}

/// The system section of a report: the header, then operating system,
/// kernel, architecture and uptime, one line each. A missing name or
/// version shows as `Unknown`.
pub fn render_system(snapshot: &SystemSnapshot, palette: &Palette) -> (r: String)
    ensures
        r@ == system_text(snapshot@, palette@),
{
    let mut out = String::new();
    push_header(&mut out, Section::System, palette);
    out.append("Operating System: ");
    push_or_unknown(&mut out, &snapshot.os_name);
    out.append(" ");
    push_or_unknown(&mut out, &snapshot.os_version);
    out.append("\n");
    out.append("Kernel Version: ");
    push_or_unknown(&mut out, &snapshot.kernel_version);
    out.append("\n");
    out.append("Architecture: ");
    out.append(snapshot.arch.as_str());
    out.append("\n");
    push_uptime_line(&mut out, snapshot.uptime);
    assert(out@ =~= system_text(snapshot@, palette@));
    out
}

/// A missing name and a missing version are made up for one by one: each
/// shows as `Unknown` whatever the other is, and a field that is there
/// shows as it is. So a host with a version but without a name shows as
/// `Unknown`, a space and the version.
pub proof fn lemma_os_fields_fall_back_independently(name: Seq<char>, version: Seq<char>)
    ensures
        os_line(Some(name), Some(version)) == "Operating System: "@ + name + " "@ + version
            + "\n"@,
        os_line(None, Some(version)) == "Operating System: Unknown "@ + version + "\n"@,
        os_line(Some(name), None) == "Operating System: "@ + name + " Unknown\n"@,
        os_line(None, None) == "Operating System: Unknown Unknown\n"@,
{
    reveal_strlit("Operating System: ");
    reveal_strlit("Unknown");
    reveal_strlit(" ");
    reveal_strlit("\n");
    reveal_strlit("Operating System: Unknown ");
    reveal_strlit(" Unknown\n");
    reveal_strlit("Operating System: Unknown Unknown\n");
    assert(os_line(None, Some(version)) =~= "Operating System: Unknown "@ + version + "\n"@);
    assert(os_line(Some(name), None) =~= "Operating System: "@ + name + " Unknown\n"@);
    assert(os_line(None, None) =~= "Operating System: Unknown Unknown\n"@);
}

} // verus!
