//! The four panels: their titles, which of them carry a bar graph and under
//! which gradient, the interior left inside a panel's top border, and how
//! many samples a graph over that interior needs.

use vstd::prelude::*;

use crate::geometry::Rect;

verus! {

/// The four panels drawn each frame.
#[derive(Clone, Copy, Debug, PartialEq, Eq, Structural)]
pub enum PanelKind {
    Cpu,
    Gpu,
    Disk,
    Memory,
}

/// The named color gradients a graph panel can be drawn with.
#[derive(Clone, Copy, Debug, PartialEq, Eq, Structural)]
pub enum GradientPreset {
    Plasma,
    Blues,
}

/// The title shown centered on a panel's top border.
pub open spec fn spec_panel_title(kind: PanelKind) -> Seq<char> {
    match kind {
        PanelKind::Cpu => "CPU"@,
        PanelKind::Gpu => "GPU"@,
        PanelKind::Disk => "Disk"@,
        PanelKind::Memory => "Memory"@,
    }
}

/// Returns the title shown centered on a panel's top border.
pub fn panel_title(kind: PanelKind) -> (r: &'static str)
    ensures
        r@ == spec_panel_title(kind),
{
    match kind {
        PanelKind::Cpu => "CPU",
        PanelKind::Gpu => "GPU",
        PanelKind::Disk => "Disk",
        PanelKind::Memory => "Memory",
    }
}

/// The line of text shown in the header band.
pub fn header_text() -> (r: &'static str)
    ensures
        r@ == "Blocks without borders"@,
{
    "Blocks without borders"
}

/// The gradient a panel's bar graph uses, or `None` for a panel whose
/// interior stays empty.
pub open spec fn spec_panel_gradient(kind: PanelKind) -> Option<GradientPreset> {
    match kind {
        PanelKind::Cpu => Some(GradientPreset::Plasma),
        PanelKind::Gpu => Some(GradientPreset::Plasma),
        PanelKind::Disk => None,
        PanelKind::Memory => Some(GradientPreset::Blues),
    }
}

/// Returns the gradient for a panel's bar graph; `None` means the panel's
/// interior is left empty.
pub fn panel_gradient(kind: PanelKind) -> (r: Option<GradientPreset>)
    ensures
        r == spec_panel_gradient(kind),
{
    match kind {
        PanelKind::Cpu => Some(GradientPreset::Plasma),
        PanelKind::Gpu => Some(GradientPreset::Plasma),
        PanelKind::Disk => None,
        PanelKind::Memory => Some(GradientPreset::Blues),
    }
}

/// The interior of a panel region: everything strictly below the one-row top
/// border.
pub open spec fn spec_panel_interior(region: Rect) -> Rect {
    Rect {
        x: region.x,
        y: (region.y + 1) as u16,
        width: region.width,
        height: (region.height - 1) as u16,
    }
}

/// Computes the interior of a panel region, the area strictly inside its top
/// border.
pub fn panel_interior(region: Rect) -> (r: Rect)
    requires
        region.wf(),
        region.height >= 1,
    ensures
        r == spec_panel_interior(region),
        r.inside(region),
        r.wf(),
{
    Rect { x: region.x, y: region.y + 1, width: region.width, height: region.height - 1 }
}

/// Number of samples a bar graph needs for an interior of the given width:
/// two per terminal column.
pub fn sample_count(interior_width: u16) -> (n: usize)
    ensures
        n == 2 * interior_width,
{
    (interior_width as usize) * 2
}

} // verus!
