//! The CPU section: model, physical cores and usage.

use crate::section::{header_text, push_header, Section};
use crate::style::{Palette, PaletteView};
use crate::text::{decimal, one_decimal, push_decimal, push_one_decimal, texts};
use vstd::prelude::*;

verus! {

/// What a host says of its processors at one moment: the brand of the first
/// logical CPU, the number of physical cores, and the usage of all CPUs
/// together in tenths of a percent.
#[derive(Debug, PartialEq, Eq)]
pub struct CpuSnapshot {
    pub brand: String,
    pub cores: usize,
    pub usage_tenths: u64,
}

/// A CPU snapshot as plain values.
pub struct CpuView {
    pub brand: Seq<char>,
    pub cores: nat,
    pub usage_tenths: nat,
}

impl View for CpuSnapshot {
    type V = CpuView;

    open spec fn view(&self) -> CpuView {
        CpuView {
            brand: self.brand@,
            cores: self.cores as nat,
            usage_tenths: self.usage_tenths as nat,
        }
    }
}

/// Why a host's readings make no CPU snapshot.
#[derive(Clone, Copy, Debug, PartialEq, Eq, Structural)]
pub enum CpuError {
    /// The host lists no logical CPU.
    NoCpu,
    /// The host does not say how many physical cores it has.
    NoCoreCount,
}

/// The snapshot that a host's readings make: the brand is that of the
/// first CPU listed. A host without a CPU is an error, and so, after that,
/// is one without a count of cores.
pub open spec fn cpu_reading(
    brands: Seq<Seq<char>>,
    cores: Option<usize>,
    usage_tenths: nat,
) -> Result<CpuView, CpuError> {
    if brands.len() == 0 {
        Err(CpuError::NoCpu)
    } else {
        match cores {
            None => Err(CpuError::NoCoreCount),
            Some(count) => Ok(CpuView { brand: brands[0], cores: count as nat, usage_tenths }),
        }
    }
}

impl CpuSnapshot {
    /// Makes a snapshot of a host's readings: the brands of its logical
    /// CPUs in the order listed, its count of physical cores, and its usage
    /// in tenths of a percent.
    pub fn from_readings(
        brands: &Vec<String>,
        cores: Option<usize>,
        usage_tenths: u64,
    ) -> (r: Result<CpuSnapshot, CpuError>)
        ensures
            match cpu_reading(texts(brands@), cores, usage_tenths as nat) {
                Ok(view) => r matches Ok(snapshot) && snapshot@ == view,
                Err(error) => r matches Err(e) && e == error,
            },
    {
        if brands.len() == 0 {
            return Err(CpuError::NoCpu);
        }
        match cores {
            None => Err(CpuError::NoCoreCount),
            Some(count) => {
                let brand = brands[0].clone();
                Ok(CpuSnapshot { brand, cores: count, usage_tenths })
            },
        }
    }
}

/// The lines of the CPU section below its header.
pub open spec fn cpu_body(cpu: CpuView) -> Seq<char> {
    "CPU Model: "@ + cpu.brand + "\n"@ + "Cores: "@ + decimal(cpu.cores) + "\n"@ + "CPU Usage: "@
        + one_decimal(cpu.usage_tenths) + "%\n"@
}

/// The whole CPU section.
pub open spec fn cpu_text(cpu: CpuView, palette: PaletteView) -> Seq<char> {
    header_text(Section::Cpu, palette) + cpu_body(cpu)
}

/// The CPU section of a report: the header, then model, cores and usage,
/// one line each, the usage as a percentage with one decimal place.
pub fn render_cpu(snapshot: &CpuSnapshot, palette: &Palette) -> (r: String)
    ensures
        r@ == cpu_text(snapshot@, palette@),
{
    let mut out = String::new();
    push_header(&mut out, Section::Cpu, palette);
    out.append("CPU Model: ");
    out.append(snapshot.brand.as_str());
    out.append("\n");
    out.append("Cores: ");
    push_decimal(&mut out, snapshot.cores as u64);
    out.append("\n");
    out.append("CPU Usage: ");
    push_one_decimal(&mut out, snapshot.usage_tenths);
    out.append("%\n");
    assert(out@ =~= cpu_text(snapshot@, palette@));
    out
}

} // verus!
