//! The sections of a report: which of them a selection shows, and the header
//! that opens each.

use crate::style::{Color, Palette, PaletteView};
use vstd::prelude::*;

verus! {

/// One block of a report.
#[derive(Clone, Copy, Debug, PartialEq, Eq, Structural)]
pub enum Section {
    System,
    Cpu,
    Memory,
    Disk,
    Network,
}

/// The flags of a command line, one for every section but the system's and
/// one for all of them.
#[derive(Clone, Copy, Debug, PartialEq, Eq, Structural)]
pub struct Selection {
    pub all: bool,
    pub cpu: bool,
    pub memory: bool,
    pub disk: bool,
    pub network: bool,
}

/// Every section, in the order in which a full report shows them.
pub open spec fn every_section() -> Seq<Section> {
    seq![Section::System, Section::Cpu, Section::Memory, Section::Disk, Section::Network]
}

impl Selection {
    /// The one section that the flags other than `all` pick: the first that
    /// is set of cpu, memory, disk and network, and the system's where none
    /// is.
    pub open spec fn single(self) -> Section {
        if self.cpu {
            Section::Cpu
        } else if self.memory {
            Section::Memory
        } else if self.disk {
            Section::Disk
        } else if self.network {
            Section::Network
        } else {
            Section::System
        }
    }

    /// The sections that this selection shows, in order.
    pub open spec fn plan(self) -> Seq<Section> {
        if self.all {
            every_section()
        } else {
            seq![self.single()]
        }
    }

    /// The sections to show, in the order in which to show them: all five
    /// where `all` is set, else the one of highest priority among the flags
    /// set.
    pub fn sections(&self) -> (r: Vec<Section>)
        ensures
            r@ == self.plan(),
    {
        let mut out: Vec<Section> = Vec::new();
        if self.all {
            out.push(Section::System);
            out.push(Section::Cpu);
            out.push(Section::Memory);
            out.push(Section::Disk);
            out.push(Section::Network);
        } else if self.cpu {
            out.push(Section::Cpu);
        } else if self.memory {
            out.push(Section::Memory);
        } else if self.disk {
            out.push(Section::Disk);
        } else if self.network {
            out.push(Section::Network);
        } else {
            out.push(Section::System);
        }
        assert(out@ =~= self.plan());
        out
    }
}

/// With `all` set every section is shown exactly once, in one fixed order,
/// whatever the other flags are.
pub proof fn lemma_all_shows_every_section_once(selection: Selection)
    requires
        selection.all,
    ensures
        selection.plan() == every_section(),
        selection.plan().len() == 5,
        selection.plan().no_duplicates(),
        forall|section: Section| selection.plan().contains(section),
{
    let plan = selection.plan();
    assert forall|section: Section| plan.contains(section) by {
        match section {
            Section::System => assert(plan[0] == section),
            Section::Cpu => assert(plan[1] == section),
            Section::Memory => assert(plan[2] == section),
            Section::Disk => assert(plan[3] == section),
            Section::Network => assert(plan[4] == section),
        }
    }
}

/// Without `all` exactly one section is shown, and it is a function of the
/// flags alone: the first that is set in the order cpu, memory, disk,
/// network, and the system's where none is set.
pub proof fn lemma_one_section_without_all(selection: Selection)
    requires
        !selection.all,
    ensures
        selection.plan() == seq![selection.single()],
        selection.cpu ==> selection.single() == Section::Cpu,
        !selection.cpu && selection.memory ==> selection.single() == Section::Memory,
        !selection.cpu && !selection.memory && selection.disk ==> selection.single()
            == Section::Disk,
        !selection.cpu && !selection.memory && !selection.disk && selection.network
            ==> selection.single() == Section::Network,
        !selection.cpu && !selection.memory && !selection.disk && !selection.network
            ==> selection.single() == Section::System,
{
}

/// The colour of a section's header.
pub open spec fn section_color(section: Section) -> Color {
    match section {
        Section::System => Color::Cyan,
        Section::Cpu => Color::Green,
        Section::Memory => Color::Magenta,
        Section::Disk => Color::Blue,
        Section::Network => Color::Red,
    }
}

/// The line of equals signs above and below a section's title.
pub open spec fn rule_text() -> Seq<char> {
    "=========================="@
}

/// A section's title, centred in the width of the rule.
pub open spec fn title_text(section: Section) -> Seq<char> {
    match section {
        Section::System => "    System Information    "@,
        Section::Cpu => "     CPU Information      "@,
        Section::Memory => "    Memory Information    "@,
        Section::Disk => "     Disk Information     "@,
        Section::Network => "   Network Information    "@,
    }
}

/// The header of a section: two empty lines, the section's colour on a line
/// of its own, the title between two rules, and the reset sequence on a
/// line of its own.
pub open spec fn header_text(section: Section, palette: PaletteView) -> Seq<char> {
    "\n\n"@ + palette.color(section_color(section)) + "\n"@ + rule_text() + "\n"@ + title_text(
        section,
    ) + "\n"@ + rule_text() + "\n"@ + palette.reset + "\n"@
}

impl Section {
    /// The colour of this section's header.
    pub fn color(self) -> (r: Color)
        ensures
            r == section_color(self),
    {
        match self {
            Section::System => Color::Cyan,
            Section::Cpu => Color::Green,
            Section::Memory => Color::Magenta,
            Section::Disk => Color::Blue,
            Section::Network => Color::Red,
        }
    }

    /// This section's title, centred in the width of the rule.
    pub fn title(self) -> (r: &'static str)
        ensures
            r@ == title_text(self),
    {
        match self {
            Section::System => "    System Information    ",
            Section::Cpu => "     CPU Information      ",
            Section::Memory => "    Memory Information    ",
            Section::Disk => "     Disk Information     ",
            Section::Network => "   Network Information    ",
        }
    }
}

/// Appends the header of a section to `out`.
pub fn push_header(out: &mut String, section: Section, palette: &Palette)
    ensures
        final(out)@ == old(out)@ + header_text(section, palette@),
{
    out.append("\n\n");
    out.append(palette.color(section.color()));
    out.append("\n");
    out.append("==========================");
    out.append("\n");
    out.append(section.title());
    out.append("\n");
    out.append("==========================");
    out.append("\n");
    out.append(palette.reset.as_str());
    out.append("\n");
    assert(out@ =~= old(out)@ + header_text(section, palette@));
}

/// The header of a section.
pub fn section_header(section: Section, palette: &Palette) -> (r: String)
    ensures
        r@ == header_text(section, palette@),
{
    let mut out = String::new();
    push_header(&mut out, section, palette);
    assert(out@ =~= header_text(section, palette@));
    out
}

/// Every title is as wide as the rule: twenty-six characters.
pub proof fn lemma_titles_fill_the_rule(section: Section)
    ensures
        rule_text().len() == 26,
        title_text(section).len() == rule_text().len(),
{
    reveal_strlit("==========================");
    reveal_strlit("    System Information    ");
    reveal_strlit("     CPU Information      ");
    reveal_strlit("    Memory Information    ");
    reveal_strlit("     Disk Information     ");
    reveal_strlit("   Network Information    ");
}

/// No two sections share a header colour.
pub proof fn lemma_section_colors_differ(a: Section, b: Section)
    requires
        a != b,
    ensures
        section_color(a) != section_color(b),
{
}

} // verus!
