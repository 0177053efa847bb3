//! State shared by the operating modes.
use vstd::prelude::*;
use crate::sweep::LightMap;

verus! {

/// What the operating modes share: the board's peripherals and the thresholds that the
/// last calibration derived, if any.
pub struct LineFollowerStatus<B> {
    pub board: B,
    pub light_sensor_thresholds: Option<LightMap>,
}

impl<B> LineFollowerStatus<B> {
    /// A status around `board`, not calibrated yet.
    pub fn new(board: B) -> (r: Self)
        ensures
            r.board == board,
            r.light_sensor_thresholds is None,
    {
        LineFollowerStatus { board, light_sensor_thresholds: None }
    }
}

} // verus!
