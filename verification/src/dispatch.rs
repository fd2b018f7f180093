//! Dispatch grid planning and timestamp arithmetic.
//!
//! The compute pipeline bakes a square workgroup tile into its build; a
//! dispatch covers an N x N matrix with a grid of exactly (N / TILE,
//! N / TILE, 1) workgroups.  The grid is exact only when the tile divides N,
//! and both grid dimensions must stay within the device's maximum compute
//! workgroup counts; a violation is rejected, never clamped or truncated.

use vstd::prelude::*;

use crate::errors::EngineError;

verus! {

/// The workgroup grid of one dispatch.
#[derive(Clone, Copy, Debug, PartialEq, Eq, Structural)]
pub struct DispatchGrid {
    pub x: u32,
    pub y: u32,
    pub z: u32,
}

/// The dimension and tile admit an exact grid within the device limits.
pub open spec fn dispatch_valid(n: u32, tile: u32, max_group_count_x: u32, max_group_count_y: u32) -> bool {
    &&& tile > 0
    &&& n % tile == 0
    &&& n / tile <= max_group_count_x
    &&& n / tile <= max_group_count_y
}

/// The grid of a valid dispatch: (n / tile, n / tile, 1).
pub open spec fn grid_of(n: u32, tile: u32) -> DispatchGrid {
    DispatchGrid { x: (n / tile) as u32, y: (n / tile) as u32, z: 1u32 }
}

/// Computes the dispatch grid for an N x N matrix under the given tile and
/// device limits.  Returns exactly (N / TILE, N / TILE, 1) when the tile
/// divides N and both dimensions fit the limits; otherwise fails with
/// `ContractViolation` rather than computing a truncated grid.
pub fn plan_dispatch(
    n: u32,
    tile: u32,
    max_group_count_x: u32,
    max_group_count_y: u32,
) -> (r: Result<DispatchGrid, EngineError>)
    ensures
        match r {
            Ok(grid) => {
                &&& dispatch_valid(n, tile, max_group_count_x, max_group_count_y)
                &&& grid == grid_of(n, tile)
            },
            Err(e) => {
                &&& e == EngineError::ContractViolation
                &&& !dispatch_valid(n, tile, max_group_count_x, max_group_count_y)
            },
        },
{
    if tile == 0 || n % tile != 0 {
        return Err(EngineError::ContractViolation);
    }
    let groups = n / tile;
    if groups > max_group_count_x || groups > max_group_count_y {
        return Err(EngineError::ContractViolation);
    }
    Ok(DispatchGrid { x: groups, y: groups, z: 1 })
}

/// The elapsed device ticks between the dispatch-start and dispatch-end
/// timestamps.  The end timestamp is taken after the start timestamp in the
/// same command stream, so it is never smaller.
pub fn elapsed_ticks(timestamp_start: u64, timestamp_end: u64) -> (r: u64)
    requires
        timestamp_start <= timestamp_end,
    ensures
        r == timestamp_end - timestamp_start,
{
    timestamp_end - timestamp_start
}

} // verus!
