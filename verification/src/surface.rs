//! The terminal grid that a native surface admits.

use vstd::prelude::*;

verus! {

/// A surface in pixels and the grid Orbit lays out on it.
#[derive(Clone, Copy, Debug, PartialEq, Eq, Structural)]
pub struct SurfaceSize {
    pub cols: u16,
    pub rows: u16,
    pub screen_width: u32,
    pub screen_height: u32,
    pub cell_width: u32,
    pub cell_height: u32,
    pub padding_top: u32,
    pub padding_bottom: u32,
    pub padding_left: u32,
    pub padding_right: u32,
}

/// The grid on a `width` by `height` surface with whole-pixel cells and padding,
/// holding at most `max_cells` cells: as many columns as fit, then as many rows as
/// fit within the cell budget. The remainder becomes bottom and right padding.
pub open spec fn spec_surface_size(width: u32, height: u32, cell_width: u32, cell_height: u32, padding: u32, max_cells: u32) -> Option<SurfaceSize> {
    if width == 0 || height == 0 || width > u16::MAX || height > u16::MAX || 2 * padding >= width || 2 * padding >= height {
        None
    } else {
        let columns = (width - 2 * padding) / (cell_width as int);
        let fitting_rows = (height - 2 * padding) / (cell_height as int);
        let budget: int = (max_cells as int) / columns;
        let rows: int = if fitting_rows < budget { fitting_rows } else { budget };
        if columns == 0 || fitting_rows == 0 || columns > u16::MAX || rows > u16::MAX {
            None
        } else {
            Some(SurfaceSize {
                cols: columns as u16,
                rows: rows as u16,
                screen_width: width,
                screen_height: height,
                cell_width,
                cell_height,
                padding_top: padding,
                padding_bottom: (height - padding - rows * cell_height) as u32,
                padding_left: padding,
                padding_right: (width - padding - columns * cell_width) as u32,
            })
        }
    }
}

/// Lay a grid out on a surface.
pub fn surface_size(width: u32, height: u32, cell_width: u32, cell_height: u32, padding: u32, max_cells: u32) -> (size: Option<SurfaceSize>)
    requires
        cell_width > 0,
        cell_height > 0,
    ensures
        size == spec_surface_size(width, height, cell_width, cell_height, padding, max_cells),
        size matches Some(s) ==> s.padding_left + s.cols * s.cell_width + s.padding_right == width
            && s.padding_top + s.rows * s.cell_height + s.padding_bottom == height,
{
    if width == 0 || height == 0 || width > 65535 || height > 65535 {
        return None;
    }
    let doubled = padding.checked_mul(2);
    let doubled = match doubled {
        Some(doubled) => doubled,
        None => return None,
    };
    if doubled >= width || doubled >= height {
        return None;
    }
    let columns = (width - doubled) / cell_width;
    let fitting_rows = (height - doubled) / cell_height;
    if columns == 0 || fitting_rows == 0 {
        return None;
    }
    let budget = max_cells / columns;
    let rows = if fitting_rows < budget { fitting_rows } else { budget };
    if columns > 65535 || rows > 65535 {
        return None;
    }
    proof {
        assert(columns * cell_width <= width - doubled) by (nonlinear_arith)
            requires columns == (width - doubled) / (cell_width as int), cell_width > 0, width > doubled;
        assert(rows * cell_height <= fitting_rows * cell_height) by (nonlinear_arith)
            requires rows <= fitting_rows, cell_height > 0;
        assert(fitting_rows * cell_height <= height - doubled) by (nonlinear_arith)
            requires fitting_rows == (height - doubled) / (cell_height as int), cell_height > 0, height > doubled;
    }
    let padding_bottom = height - padding - rows * cell_height;
    let padding_right = width - padding - columns * cell_width;
    Some(SurfaceSize {
        cols: columns as u16,
        rows: rows as u16,
        screen_width: width,
        screen_height: height,
        cell_width,
        cell_height,
        padding_top: padding,
        padding_bottom,
        padding_left: padding,
        padding_right,
    })
}

} // verus!
