//! The memory section: total, used and free memory in gigabytes.

use crate::section::{header_text, push_header, Section};
use crate::style::{Palette, PaletteView};
use crate::units::{gigabytes_text, push_gigabytes};
use vstd::prelude::*;

verus! {

/// The memory of a host at one moment, in bytes.
#[derive(Clone, Copy, Debug, PartialEq, Eq, Structural)]
pub struct MemorySnapshot {
    pub total: u64,
    pub used: u64,
    pub free: u64,
}

/// A memory snapshot as plain values.
pub struct MemoryView {
    pub total: nat,
    pub used: nat,
    pub free: nat,
}

impl View for MemorySnapshot {
    type V = MemoryView;

    open spec fn view(&self) -> MemoryView {
        MemoryView { total: self.total as nat, used: self.used as nat, free: self.free as nat }
    }
}

/// The lines of the memory section below its header.
pub open spec fn memory_body(memory: MemoryView) -> Seq<char> {
    "Total Memory: "@ + gigabytes_text(memory.total) + "\n"@ + "Used Memory: "@ + gigabytes_text(
        memory.used,
    ) + "\n"@ + "Free Memory: "@ + gigabytes_text(memory.free) + "\n"@
}

/// The whole memory section.
pub open spec fn memory_text(memory: MemoryView, palette: PaletteView) -> Seq<char> {
    header_text(Section::Memory, palette) + memory_body(memory)
}

/// The memory section of a report: the header, then total, used and free
/// memory, one line each, in gigabytes with one decimal place.
pub fn render_memory(snapshot: &MemorySnapshot, palette: &Palette) -> (r: String)
    ensures
        r@ == memory_text(snapshot@, palette@),
{
    let mut out = String::new();
    push_header(&mut out, Section::Memory, palette);
    out.append("Total Memory: ");
    push_gigabytes(&mut out, snapshot.total);
    out.append("\n");
    out.append("Used Memory: ");
    push_gigabytes(&mut out, snapshot.used);
    out.append("\n");
    out.append("Free Memory: ");
    push_gigabytes(&mut out, snapshot.free);
    out.append("\n");
    assert(out@ =~= memory_text(snapshot@, palette@));
    out
}

} // verus!
