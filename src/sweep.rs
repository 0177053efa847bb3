//! Arithmetic of the calibration sweep: the running band of each light sensor,
//! the direction rule, and the thresholds derived from the band.
use vstd::prelude::*;

verus! {

/// Number of light sensors in the array.
pub const SENSOR_COUNT: usize = 8;

/// One reading per light sensor, leftmost first.
pub type LightMap = [u16; 8];

/// Direction in which the chassis turns on the spot.
#[derive(Clone, Copy, Debug, PartialEq, Eq, Structural)]
pub enum RotationDirection {
    Left,
    Right,
}

/// Whether reading `i` is no greater than any reading of `v`.
pub open spec fn is_min_at(v: Seq<u16>, i: int) -> bool {
    forall|j: int| 0 <= j < v.len() ==> v[i] <= #[trigger] v[j]
}

/// The direction that a reading settles, if any: left when the leftmost sensor holds the
/// smallest reading (this wins a tie), right when the rightmost one does.
pub open spec fn settled_direction(v: Seq<u16>) -> Option<RotationDirection> {
    if is_min_at(v, 0) {
        Some(RotationDirection::Left)
    } else if is_min_at(v, 7) {
        Some(RotationDirection::Right)
    } else {
        None
    }
}

/// Each running maximum raised to the matching reading where the reading is larger.
pub open spec fn raised(max_values: Seq<u16>, v: Seq<u16>) -> Seq<u16> {
    Seq::new(max_values.len(), |i: int| if v[i] > max_values[i] { v[i] } else { max_values[i] })
}

/// Each running minimum lowered to the matching reading where the reading is smaller.
pub open spec fn lowered(min_values: Seq<u16>, v: Seq<u16>) -> Seq<u16> {
    Seq::new(min_values.len(), |i: int| if v[i] < min_values[i] { v[i] } else { min_values[i] })
}

/// Midpoint of a band, rounded down.
pub open spec fn midpoint(hi: u16, lo: u16) -> u16 {
    ((hi as int + lo as int) / 2) as u16
}

/// The threshold of each sensor: the midpoint of its observed band.
pub open spec fn thresholds_of(max_values: Seq<u16>, min_values: Seq<u16>) -> Seq<u16> {
    Seq::new(max_values.len(), |i: int| midpoint(max_values[i], min_values[i]))
}

/// The smallest reading of the array.
pub fn get_min_value_of_array(array: &LightMap) -> (r: u16)
    ensures
        forall|j: int| 0 <= j < 8 ==> r <= #[trigger] array[j],
        exists|j: int| 0 <= j < 8 && r == #[trigger] array[j],
{
    let mut min: u16 = u16::MAX;
    let mut k: usize = 0;
    let mut at: Ghost<int> = Ghost(0);
    while k < SENSOR_COUNT
        invariant
            0 <= k <= 8,
            forall|j: int| 0 <= j < k ==> min <= #[trigger] array[j],
            0 <= at@ < 8,
            min == u16::MAX || min == array[at@],
        decreases 8 - k,
    {
        if array[k] < min {
            min = array[k];
            at = Ghost(k as int);
        }
        k = k + 1;
    }
    proof {
        if min == u16::MAX {
            assert(min == array[0]);
        }
    }
    min
}

/// Widens each sensor's running band `[min_values[i], max_values[i]]` to take in `light_values[i]`.
pub fn update_min_and_max_values(
    light_values: &LightMap,
    min_values: &mut LightMap,
    max_values: &mut LightMap,
)
    ensures
        final(max_values)@ == raised(old(max_values)@, light_values@),
        final(min_values)@ == lowered(old(min_values)@, light_values@),
{
    let mut k: usize = 0;
    while k < SENSOR_COUNT
        invariant
            0 <= k <= 8,
            forall|j: int| 0 <= j < k ==> max_values[j] == #[trigger] raised(old(max_values)@, light_values@)[j],
            forall|j: int| 0 <= j < k ==> min_values[j] == #[trigger] lowered(old(min_values)@, light_values@)[j],
            forall|j: int| k <= j < 8 ==> max_values[j] == #[trigger] old(max_values)[j],
            forall|j: int| k <= j < 8 ==> min_values[j] == #[trigger] old(min_values)[j],
        decreases 8 - k,
    {
        let light_value = light_values[k];
        if light_value > max_values[k] {
            max_values[k] = light_value;
        }
        if light_value < min_values[k] {
            min_values[k] = light_value;
        }
        k = k + 1;
    }
    assert(max_values@ =~= raised(old(max_values)@, light_values@));
    assert(min_values@ =~= lowered(old(min_values)@, light_values@));
}

/// Threshold of each sensor: the midpoint of its observed band, rounded down.
pub fn calculate_light_thresholds(max_values: LightMap, min_values: LightMap) -> (r: LightMap)
    ensures
        r@ == thresholds_of(max_values@, min_values@),
{
    let mut thresholds: LightMap = [0; 8];
    let mut k: usize = 0;
    while k < SENSOR_COUNT
        invariant
            0 <= k <= 8,
            forall|j: int| 0 <= j < k ==> thresholds[j] == #[trigger] thresholds_of(max_values@, min_values@)[j],
        decreases 8 - k,
    {
        thresholds[k] = ((max_values[k] as u32 + min_values[k] as u32) / 2) as u16;
        k = k + 1;
    }
    assert(thresholds@ =~= thresholds_of(max_values@, min_values@));
    thresholds
}

/// The direction that a reading settles: left when the leftmost sensor holds the smallest
/// reading, else right when the rightmost one does, else none.
pub fn settle_direction(light_values: &LightMap) -> (r: Option<RotationDirection>)
    ensures
        r == settled_direction(light_values@),
{
    if get_min_value_of_array(light_values) == light_values[0] {
        Some(RotationDirection::Left)
    } else if get_min_value_of_array(light_values) == light_values[7] {
        Some(RotationDirection::Right)
    } else {
        None
    }
}

/// A reading whose smallest value is at the leftmost sensor settles on turning left, also
/// where the rightmost sensor holds the same value.
pub proof fn lemma_leftmost_minimum_turns_left(v: Seq<u16>)
    requires
        v.len() == 8,
        forall|j: int| 0 <= j < 8 ==> v[0] <= #[trigger] v[j],
    ensures
        settled_direction(v) == Some(RotationDirection::Left),
{
}

/// Taking in the same reading a second time leaves the band as the first time left it.
pub proof fn lemma_band_update_idempotent(min_values: Seq<u16>, max_values: Seq<u16>, v: Seq<u16>)
    requires
        min_values.len() == v.len(),
        max_values.len() == v.len(),
    ensures
        raised(raised(max_values, v), v) == raised(max_values, v),
        lowered(lowered(min_values, v), v) == lowered(min_values, v),
{
    assert(raised(raised(max_values, v), v) =~= raised(max_values, v));
    assert(lowered(lowered(min_values, v), v) =~= lowered(min_values, v));
}

} // verus!
