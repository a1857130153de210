//! The disk section: one row for every mounted disk.

use crate::section::{header_text, push_header, Section};
use crate::style::{Palette, PaletteView};
use crate::units::{gigabytes_text, push_gigabytes};
use vstd::prelude::*;

verus! {

/// One mounted disk: where it is mounted, and its total and available space
/// in bytes.
#[derive(Debug, PartialEq, Eq)]
pub struct DiskInfo {
    pub mount_point: String,
    pub total_space: u64,
    pub available_space: u64,
}

/// A disk as plain values.
pub struct DiskView {
    pub mount_point: Seq<char>,
    pub total_space: nat,
    pub available_space: nat,
}

impl View for DiskInfo {
    type V = DiskView;

    open spec fn view(&self) -> DiskView {
        DiskView {
            mount_point: self.mount_point@,
            total_space: self.total_space as nat,
            available_space: self.available_space as nat,
        }
    }
}

/// A list of disks as plain values, in the same order.
pub open spec fn disk_views(disks: Seq<DiskInfo>) -> Seq<DiskView> {
    disks.map_values(|disk: DiskInfo| disk@)
}

/// The row of one disk: an empty line, then the mount point with the total
/// and the available space in gigabytes.
pub open spec fn disk_row(disk: DiskView) -> Seq<char> {
    "\n"@ + disk.mount_point + ": "@ + gigabytes_text(disk.total_space) + " total, "@
        + gigabytes_text(disk.available_space) + " free\n"@
}

/// The rows of a list of disks, one after the other in the order of the
/// list.
pub open spec fn disk_rows(disks: Seq<DiskView>) -> Seq<char>
    decreases disks.len(),
{
    if disks.len() == 0 {
        Seq::empty()
    } else {
        disk_rows(disks.drop_last()) + disk_row(disks.last())
    }
}

/// The whole disk section.
pub open spec fn disk_text(disks: Seq<DiskView>, palette: PaletteView) -> Seq<char> {
    header_text(Section::Disk, palette) + disk_rows(disks)
}

/// Appends the row of one disk to `out`.
fn push_disk_row(out: &mut String, disk: &DiskInfo)
    ensures
        final(out)@ == old(out)@ + disk_row(disk@),
{
    out.append("\n");
    out.append(disk.mount_point.as_str());
    out.append(": ");
    push_gigabytes(out, disk.total_space);
    out.append(" total, ");
    push_gigabytes(out, disk.available_space);
    out.append(" free\n");
    assert(out@ =~= old(out)@ + disk_row(disk@));
}

/// The disk section of a report: the header, then one row for every disk
/// in the order given. Without disks it is the header alone.
pub fn render_disks(disks: &Vec<DiskInfo>, palette: &Palette) -> (r: String)
    ensures
        r@ == disk_text(disk_views(disks@), palette@),
        disks@.len() == 0 ==> r@ == header_text(Section::Disk, palette@),
{
    let ghost views = disk_views(disks@);
    let mut out = String::new();
    push_header(&mut out, Section::Disk, palette);
    assert(out@ =~= disk_text(views.take(0), palette@));
    let mut i: usize = 0;
    while i < disks.len()
        invariant
            i <= disks.len(),
            views == disk_views(disks@),
            out@ == disk_text(views.take(i as int), palette@),
        decreases disks.len() - i,
    {
        push_disk_row(&mut out, &disks[i]);
        proof {
            let done = views.take(i as int + 1);
            assert(done.drop_last() =~= views.take(i as int));
            assert(done.last() == disks@[i as int]@);
            assert(out@ =~= disk_text(done, palette@));
        }
        i += 1;
    }
    proof {
        assert(views.take(i as int) =~= views);
        if disks@.len() == 0 {
            assert(out@ =~= header_text(Section::Disk, palette@));
        }
    }
    out
}

/// The rows of two lists of disks one after the other are the rows of the
/// first followed by the rows of the second: each disk has one row, and the
/// rows keep the order of the list.
pub proof fn lemma_disk_rows_concat(first: Seq<DiskView>, second: Seq<DiskView>)
    ensures
        disk_rows(first + second) == disk_rows(first) + disk_rows(second),
    decreases second.len(),
{
    if second.len() == 0 {
        assert(first + second =~= first);
        assert(disk_rows(first) + disk_rows(second) =~= disk_rows(first));
    } else {
        lemma_disk_rows_concat(first, second.drop_last());
        assert((first + second).drop_last() =~= first + second.drop_last());
        assert((first + second).last() == second.last());
        assert(disk_rows(first + second) =~= disk_rows(first) + disk_rows(second));
    }
}

/// Without disks the section is its header alone.
pub proof fn lemma_no_disks_no_rows(palette: PaletteView)
    ensures
        disk_text(Seq::empty(), palette) == header_text(Section::Disk, palette),
{
    assert(disk_text(Seq::empty(), palette) =~= header_text(Section::Disk, palette));
}

} // verus!
