//! The frame partition: a uniform margin, a fixed one-line header band,
//! three proportional bands below it, and the horizontal panel splits
//! within the top and mid bands.

use vstd::prelude::*;

use crate::geometry::Rect;
use vstd::arithmetic::div_mod::lemma_fundamental_div_mod;
use vstd::arithmetic::div_mod::lemma_mod_bound;

verus! {

/// Blank border reserved on every side of the canvas, in cells.
pub const MARGIN: u16 = 4;

/// Height of the fixed header band, in cells.
pub const HEADER_HEIGHT: u16 = 1;

/// Blank rows between consecutive vertical bands.
pub const BAND_SPACING: u16 = 1;

/// Blank columns between the two panels of a band.
pub const PANEL_SPACING: u16 = 2;

/// Narrowest canvas the partition is defined for: eight margins.
pub const MIN_CANVAS_WIDTH: u16 = 32;

/// Shortest canvas the partition is defined for: two margins, the header,
/// three band gaps, and at least one row for each proportional band.
pub const MIN_CANVAS_HEIGHT: u16 = 16;

/// A canvas large enough for the whole partition.
pub open spec fn canvas_ok(c: Rect) -> bool {
    &&& c.wf()
    &&& c.width >= MIN_CANVAS_WIDTH
    &&& c.height >= MIN_CANVAS_HEIGHT
}

/// The canvas with the uniform margin removed from all four sides.
pub open spec fn spec_inner_canvas(c: Rect) -> Rect {
    Rect {
        x: (c.x + MARGIN) as u16,
        y: (c.y + MARGIN) as u16,
        width: (c.width - 2 * MARGIN) as u16,
        height: (c.height - 2 * MARGIN) as u16,
    }
}

/// Removes the uniform margin from the canvas.
pub fn inner_canvas(canvas: Rect) -> (r: Rect)
    requires
        canvas.wf(),
        canvas.width >= 2 * MARGIN,
        canvas.height >= 2 * MARGIN,
    ensures
        r == spec_inner_canvas(canvas),
        r.inside(canvas),
        r.wf(),
{
    Rect {
        x: canvas.x + MARGIN,
        y: canvas.y + MARGIN,
        width: canvas.width - 2 * MARGIN,
        height: canvas.height - 2 * MARGIN,
    }
}

/// The four vertical bands of the partition, from top to bottom. The bottom
/// band holds no panel; it is reserved blank space.
#[derive(Clone, Copy, Debug, PartialEq, Eq, Structural)]
pub struct Bands {
    pub header: Rect,
    pub top: Rect,
    pub mid: Rect,
    pub bottom: Rect,
}

/// Height left for the three proportional bands once the header and the
/// three band gaps are taken out of the inner canvas.
pub open spec fn spec_fill_height(c: Rect) -> int {
    spec_inner_canvas(c).height - HEADER_HEIGHT - 3 * BAND_SPACING
}

/// The vertical partition of the canvas: after the margin, a one-line
/// header, then the top, mid and bottom bands sharing the remaining height
/// in the ratio one to two to one, with one blank row between consecutive
/// bands. The remainder of the division goes to the mid band.
pub open spec fn spec_bands(c: Rect) -> Bands {
    let inner = spec_inner_canvas(c);
    let rem = spec_fill_height(c);
    let side_h = rem / 4;
    let mid_h = rem - 2 * (rem / 4);
    let top_y = inner.y + HEADER_HEIGHT + BAND_SPACING;
    let mid_y = top_y + side_h + BAND_SPACING;
    let bot_y = mid_y + mid_h + BAND_SPACING;
    Bands {
        header: Rect { x: inner.x, y: inner.y, width: inner.width, height: HEADER_HEIGHT },
        top: Rect { x: inner.x, y: top_y as u16, width: inner.width, height: side_h as u16 },
        mid: Rect { x: inner.x, y: mid_y as u16, width: inner.width, height: mid_h as u16 },
        bottom: Rect { x: inner.x, y: bot_y as u16, width: inner.width, height: side_h as u16 },
    }
}

/// Computes the vertical bands of the canvas. The bands stack without
/// overlap, stay inside the canvas, and the header is exactly one row high.
pub fn vertical_bands(canvas: Rect) -> (b: Bands)
    requires
        canvas_ok(canvas),
    ensures
        b == spec_bands(canvas),
        b.header.height == HEADER_HEIGHT,
        b.header.inside(canvas),
        b.top.inside(canvas),
        b.mid.inside(canvas),
        b.bottom.inside(canvas),
        b.header.wf(),
        b.top.wf(),
        b.mid.wf(),
        b.bottom.wf(),
        b.top.width == canvas.width - 2 * MARGIN,
        b.mid.width == canvas.width - 2 * MARGIN,
        b.header.y == canvas.y + MARGIN,
        b.top.y == b.header.bottom() + BAND_SPACING,
        b.mid.y == b.top.bottom() + BAND_SPACING,
        b.bottom.y == b.mid.bottom() + BAND_SPACING,
        b.bottom.bottom() == canvas.bottom() - MARGIN,
        b.top.height >= 1,
        b.mid.height >= 2,
        b.bottom.height >= 1,
        // The one-to-two-to-one proportion, up to the rounding remainder,
        // which goes to the mid band.
        b.top.height == b.bottom.height,
        2 * b.top.height <= b.mid.height,
        b.mid.height <= 2 * b.top.height + 3,
{
    let inner = inner_canvas(canvas);
    let rem: u16 = inner.height - (HEADER_HEIGHT + 3 * BAND_SPACING);
    proof {
        lemma_fundamental_div_mod(rem as int, 4);
        lemma_mod_bound(rem as int, 4);
    }
    let side_h: u16 = rem / 4;
    let mid_h: u16 = rem - 2 * side_h;
    let header = Rect { x: inner.x, y: inner.y, width: inner.width, height: HEADER_HEIGHT };
    let top_y: u16 = inner.y + HEADER_HEIGHT + BAND_SPACING;
    let top = Rect { x: inner.x, y: top_y, width: inner.width, height: side_h };
    let mid_y: u16 = top_y + side_h + BAND_SPACING;
    let mid = Rect { x: inner.x, y: mid_y, width: inner.width, height: mid_h };
    let bot_y: u16 = mid_y + mid_h + BAND_SPACING;
    let bottom = Rect { x: inner.x, y: bot_y, width: inner.width, height: side_h };
    Bands { header, top, mid, bottom }
}

/// The equal split of the top band: two panel regions of the band's height,
/// separated by the panel gap; a leftover column goes to the right region.
pub open spec fn spec_split_top(band: Rect) -> (Rect, Rect) {
    let avail = band.width - PANEL_SPACING;
    let lw = avail / 2;
    let rw = avail - lw;
    (
        Rect { x: band.x, y: band.y, width: lw as u16, height: band.height },
        Rect {
            x: (band.x + lw + PANEL_SPACING) as u16,
            y: band.y,
            width: rw as u16,
            height: band.height,
        },
    )
}

/// Splits the top band into the two equal-width panel regions, left and
/// right, with the panel gap between them.
pub fn split_top_band(band: Rect) -> (r: (Rect, Rect))
    requires
        band.wf(),
        band.width >= PANEL_SPACING,
    ensures
        r == spec_split_top(band),
        r.0.inside(band),
        r.1.inside(band),
        r.0.disjoint(r.1),
        r.0.wf(),
        r.1.wf(),
        r.0.height == band.height,
        r.1.height == band.height,
        r.0.y == band.y,
        r.1.y == band.y,
        r.0.x == band.x,
        r.1.x == band.x + r.0.width + PANEL_SPACING,
        r.0.width + r.1.width + PANEL_SPACING == band.width,
        // Equal widths, up to the one leftover column.
        r.0.width <= r.1.width,
        r.1.width <= r.0.width + 1,
{
    let avail: u16 = band.width - PANEL_SPACING;
    let lw: u16 = avail / 2;
    proof {
        lemma_fundamental_div_mod(avail as int, 2);
        lemma_mod_bound(avail as int, 2);
    }
    let rw: u16 = avail - lw;
    let left = Rect { x: band.x, y: band.y, width: lw, height: band.height };
    let right = Rect { x: band.x + lw + PANEL_SPACING, y: band.y, width: rw, height: band.height };
    (left, right)
}

/// The one-to-two split of the mid band: the Disk region takes a third of
/// the width after the panel gap, the Memory region the rest, so Memory is
/// never narrower than Disk.
pub open spec fn spec_split_mid(band: Rect) -> (Rect, Rect) {
    let avail = band.width - PANEL_SPACING;
    let lw = avail / 3;
    let rw = avail - lw;
    (
        Rect { x: band.x, y: band.y, width: lw as u16, height: band.height },
        Rect {
            x: (band.x + lw + PANEL_SPACING) as u16,
            y: band.y,
            width: rw as u16,
            height: band.height,
        },
    )
}

/// Splits the mid band into the narrow Disk region and the wide Memory
/// region, with the panel gap between them. The rounding favors the wider
/// share: the Memory region is always at least as wide as the Disk region.
pub fn split_mid_band(band: Rect) -> (r: (Rect, Rect))
    requires
        band.wf(),
        band.width >= PANEL_SPACING,
    ensures
        r == spec_split_mid(band),
        r.0.inside(band),
        r.1.inside(band),
        r.0.disjoint(r.1),
        r.0.wf(),
        r.1.wf(),
        r.0.height == band.height,
        r.1.height == band.height,
        r.0.y == band.y,
        r.1.y == band.y,
        r.0.x == band.x,
        r.1.x == band.x + r.0.width + PANEL_SPACING,
        r.0.width + r.1.width + PANEL_SPACING == band.width,
        // One to two, up to the rounding remainder, which goes to the
        // wider Memory share.
        r.1.width >= r.0.width,
        2 * r.0.width <= r.1.width,
        r.1.width <= 2 * r.0.width + 2,
{
    let avail: u16 = band.width - PANEL_SPACING;
    let lw: u16 = avail / 3;
    proof {
        lemma_fundamental_div_mod(avail as int, 3);
        lemma_mod_bound(avail as int, 3);
    }
    let rw: u16 = avail - lw;
    let left = Rect { x: band.x, y: band.y, width: lw, height: band.height };
    let right = Rect { x: band.x + lw + PANEL_SPACING, y: band.y, width: rw, height: band.height };
    (left, right)
}

/// The regions one frame is drawn into: the header line and the four panel
/// regions.
#[derive(Clone, Copy, Debug, PartialEq, Eq, Structural)]
pub struct FrameLayout {
    pub header: Rect,
    pub cpu: Rect,
    pub gpu: Rect,
    pub disk: Rect,
    pub memory: Rect,
}

/// The whole partition: vertical bands, the top band split equally between
/// CPU and GPU, the mid band split one to two between Disk and Memory.
pub open spec fn spec_compose(c: Rect) -> FrameLayout {
    let bands = spec_bands(c);
    let top_split = spec_split_top(bands.top);
    let mid_split = spec_split_mid(bands.mid);
    FrameLayout {
        header: bands.header,
        cpu: top_split.0,
        gpu: top_split.1,
        disk: mid_split.0,
        memory: mid_split.1,
    }
}

/// The header line and the four panel regions are pairwise disjoint and
/// each lies entirely within the canvas.
pub open spec fn panels_well_placed(c: Rect, fl: FrameLayout) -> bool {
    &&& fl.header.inside(c)
    &&& fl.cpu.inside(c)
    &&& fl.gpu.inside(c)
    &&& fl.disk.inside(c)
    &&& fl.memory.inside(c)
    &&& fl.header.disjoint(fl.cpu)
    &&& fl.header.disjoint(fl.gpu)
    &&& fl.header.disjoint(fl.disk)
    &&& fl.header.disjoint(fl.memory)
    &&& fl.cpu.disjoint(fl.gpu)
    &&& fl.cpu.disjoint(fl.disk)
    &&& fl.cpu.disjoint(fl.memory)
    &&& fl.gpu.disjoint(fl.disk)
    &&& fl.gpu.disjoint(fl.memory)
    &&& fl.disk.disjoint(fl.memory)
}

/// Computes the frame partition for one canvas: the regions are pairwise
/// disjoint, lie inside the canvas, the header is exactly one row high, and
/// every panel region is at least one row high.
pub fn compose(canvas: Rect) -> (r: FrameLayout)
    requires
        canvas_ok(canvas),
    ensures
        r == spec_compose(canvas),
        panels_well_placed(canvas, r),
        r.header.height == HEADER_HEIGHT,
        r.cpu.height >= 1,
        r.gpu.height >= 1,
        r.disk.height >= 1,
        r.memory.height >= 1,
        r.cpu.wf(),
        r.gpu.wf(),
        r.disk.wf(),
        r.memory.wf(),
{
    let bands = vertical_bands(canvas);
    let (cpu, gpu) = split_top_band(bands.top);
    let (disk, memory) = split_mid_band(bands.mid);
    FrameLayout { header: bands.header, cpu, gpu, disk, memory }
}

/// Returns whether the canvas is large enough for the partition, exactly
/// the condition `compose` requires.
pub fn is_canvas_ok(c: Rect) -> (b: bool)
    ensures
        b == canvas_ok(c),
{
    (c.x as u32 + c.width as u32 <= u16::MAX as u32) && (c.y as u32 + c.height as u32
        <= u16::MAX as u32) && c.width >= MIN_CANVAS_WIDTH && c.height >= MIN_CANVAS_HEIGHT
}

} // verus!
