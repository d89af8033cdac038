//! The calibration data model: stick samples, the running extent of a
//! calibration phase, and the calibration record of one stick.

use vstd::prelude::*;

use crate::codec::MAX_12BIT;

verus! {

/// At-rest value of an axis: the middle of the 12-bit range.
pub const AXIS_REST: u16 = 0x800;

/// The smaller of two readings.
pub open spec fn lower(a: u16, b: u16) -> u16 {
    if a <= b {
        a
    } else {
        b
    }
}

/// The larger of two readings.
pub open spec fn upper(a: u16, b: u16) -> u16 {
    if a >= b {
        a
    } else {
        b
    }
}

/// The midpoint of a range, rounded down.
pub open spec fn midpoint(min: u16, max: u16) -> u16 {
    ((min + max) / 2) as u16
}

/// Half the width of a range, rounded down; 0 for an empty range.
pub open spec fn half_width(min: u16, max: u16) -> u16 {
    if max >= min {
        ((max - min) / 2) as u16
    } else {
        0
    }
}

/// `r` is half the square root of `s`, rounded down.
pub open spec fn is_half_root(r: int, s: int) -> bool {
    0 <= r && 4 * (r * r) <= s < 4 * ((r + 1) * (r + 1))
}

/// Half the square root of `s`, rounded down.
pub open spec fn half_root(s: int) -> int {
    choose|r: int| is_half_root(r, s)
}

/// The square of the distance between the corner of the minima and the
/// corner of the maxima of a stick.
pub open spec fn diagonal_squared(min_x: u16, max_x: u16, min_y: u16, max_y: u16) -> int {
    (max_x - min_x) * (max_x - min_x) + (max_y - min_y) * (max_y - min_y)
}

/// How the deadzone of a stick follows from its extent.
#[derive(Debug, Clone, Copy, PartialEq, Eq, Structural)]
pub enum DeadzoneRule {
    /// Half the width of the horizontal axis.
    Axis,
    /// Half the distance between the corner of the minima and the corner of
    /// the maxima.
    Diagonal,
}

/// The deadzone of a stick under a rule.
pub open spec fn deadzone_by(
    rule: DeadzoneRule,
    min_x: u16,
    max_x: u16,
    min_y: u16,
    max_y: u16,
) -> u16 {
    match rule {
        DeadzoneRule::Axis => half_width(min_x, max_x),
        DeadzoneRule::Diagonal => half_root(diagonal_squared(min_x, max_x, min_y, max_y)) as u16,
    }
}

/// The kind of controller a session talks to.
#[derive(Debug, Clone, Copy, PartialEq, Eq, Structural)]
pub enum ControllerType {
    JoyConL,
    JoyConR,
    ProController,
}

/// Calibration record of one stick.
#[derive(Debug, Clone, Copy, PartialEq, Eq, Structural)]
pub struct StickCalibration {
    pub xmax: u16,
    pub ymax: u16,
    pub xcenter: u16,
    pub ycenter: u16,
    pub xmin: u16,
    pub ymin: u16,
}

impl StickCalibration {
    /// A record is well formed when, on each axis, minimum, center and
    /// maximum are in this order and fit in twelve bits.
    pub open spec fn wf(&self) -> bool {
        &&& self.xmin <= self.xcenter <= self.xmax <= MAX_12BIT
        &&& self.ymin <= self.ycenter <= self.ymax <= MAX_12BIT
    }

    /// Tells whether the record is well formed.
    pub fn is_valid(&self) -> (valid: bool)
        ensures
            valid == self.wf(),
    {
        self.xmin <= self.xcenter && self.xcenter <= self.xmax && self.xmax <= MAX_12BIT
            && self.ymin <= self.ycenter && self.ycenter <= self.ymax && self.ymax <= MAX_12BIT
    }
}

impl Default for StickCalibration {
    /// The record with every field 0.
    fn default() -> (record: Self)
        ensures
            record == (StickCalibration {
                xmax: 0,
                ymax: 0,
                xcenter: 0,
                ycenter: 0,
                xmin: 0,
                ymin: 0,
            }),
    {
        StickCalibration { xmax: 0, ymax: 0, xcenter: 0, ycenter: 0, xmin: 0, ymin: 0 }
    }
}

/// One reading of both sticks.
#[derive(Debug, Clone, Copy, PartialEq, Eq, Structural)]
pub struct StickData {
    pub lx: u16,
    pub ly: u16,
    pub rx: u16,
    pub ry: u16,
}

impl StickData {
    /// Every axis fits in twelve bits.
    pub open spec fn wf(&self) -> bool {
        &&& self.lx <= MAX_12BIT
        &&& self.ly <= MAX_12BIT
        &&& self.rx <= MAX_12BIT
        &&& self.ry <= MAX_12BIT
    }

    /// Tells whether every axis fits in twelve bits.
    pub fn is_valid(&self) -> (valid: bool)
        ensures
            valid == self.wf(),
    {
        self.lx <= MAX_12BIT && self.ly <= MAX_12BIT && self.rx <= MAX_12BIT && self.ry
            <= MAX_12BIT
    }
}

impl Default for StickData {
    /// Both sticks at rest.
    fn default() -> (data: Self)
        ensures
            data == (StickData { lx: AXIS_REST, ly: AXIS_REST, rx: AXIS_REST, ry: AXIS_REST }),
    {
        StickData { lx: AXIS_REST, ly: AXIS_REST, rx: AXIS_REST, ry: AXIS_REST }
    }
}

/// Running minimum and maximum of each axis during a calibration phase.
#[derive(Debug, Clone, Copy, PartialEq, Eq, Structural)]
pub struct CalibrationState {
    pub min_lx: u16,
    pub max_lx: u16,
    pub min_ly: u16,
    pub max_ly: u16,
    pub min_rx: u16,
    pub max_rx: u16,
    pub min_ry: u16,
    pub max_ry: u16,
}

impl CalibrationState {
    /// The extent before any sample: every minimum at the top of the range
    /// and every maximum at the bottom.
    pub open spec fn seed() -> CalibrationState {
        CalibrationState {
            min_lx: MAX_12BIT,
            max_lx: 0,
            min_ly: MAX_12BIT,
            max_ly: 0,
            min_rx: MAX_12BIT,
            max_rx: 0,
            min_ry: MAX_12BIT,
            max_ry: 0,
        }
    }

    /// The extent after one more sample.
    pub open spec fn widened(self, data: StickData) -> CalibrationState {
        CalibrationState {
            min_lx: lower(self.min_lx, data.lx),
            max_lx: upper(self.max_lx, data.lx),
            min_ly: lower(self.min_ly, data.ly),
            max_ly: upper(self.max_ly, data.ly),
            min_rx: lower(self.min_rx, data.rx),
            max_rx: upper(self.max_rx, data.rx),
            min_ry: lower(self.min_ry, data.ry),
            max_ry: upper(self.max_ry, data.ry),
        }
    }

    /// The extent after a sequence of samples, the first one first.
    pub open spec fn widened_by(self, samples: Seq<StickData>) -> CalibrationState
        decreases samples.len(),
    {
        if samples.len() == 0 {
            self
        } else {
            self.widened_by(samples.drop_last()).widened(samples.last())
        }
    }

    /// On every axis the extent of `self` lies within that of `other`.
    pub open spec fn within(self, other: CalibrationState) -> bool {
        &&& other.min_lx <= self.min_lx && self.max_lx <= other.max_lx
        &&& other.min_ly <= self.min_ly && self.max_ly <= other.max_ly
        &&& other.min_rx <= self.min_rx && self.max_rx <= other.max_rx
        &&& other.min_ry <= self.min_ry && self.max_ry <= other.max_ry
    }

    /// On every axis the sample lies between minimum and maximum.
    pub open spec fn covers(self, data: StickData) -> bool {
        &&& self.min_lx <= data.lx <= self.max_lx
        &&& self.min_ly <= data.ly <= self.max_ly
        &&& self.min_rx <= data.rx <= self.max_rx
        &&& self.min_ry <= data.ry <= self.max_ry
    }

    /// The seeded extent, which the first sample always narrows.
    pub fn new() -> (state: Self)
        ensures
            state == Self::seed(),
    {
        CalibrationState {
            min_lx: MAX_12BIT,
            max_lx: 0,
            min_ly: MAX_12BIT,
            max_ly: 0,
            min_rx: MAX_12BIT,
            max_rx: 0,
            min_ry: MAX_12BIT,
            max_ry: 0,
        }
    }

    /// Widens the extent so that it covers the sample.
    pub fn update(&mut self, data: &StickData)
        ensures
            *final(self) == old(self).widened(*data),
            old(self).within(*final(self)),
            final(self).covers(*data),
    {
        if data.lx < self.min_lx {
            self.min_lx = data.lx;
        }
        if data.lx > self.max_lx {
            self.max_lx = data.lx;
        }
        if data.ly < self.min_ly {
            self.min_ly = data.ly;
        }
        if data.ly > self.max_ly {
            self.max_ly = data.ly;
        }
        if data.rx < self.min_rx {
            self.min_rx = data.rx;
        }
        if data.rx > self.max_rx {
            self.max_rx = data.rx;
        }
        if data.ry < self.min_ry {
            self.min_ry = data.ry;
        }
        if data.ry > self.max_ry {
            self.max_ry = data.ry;
        }
    }
}

impl Default for CalibrationState {
    /// The extent with every field 0. A phase starts from `new` instead.
    fn default() -> (state: Self)
        ensures
            state == (CalibrationState {
                min_lx: 0,
                max_lx: 0,
                min_ly: 0,
                max_ly: 0,
                min_rx: 0,
                max_rx: 0,
                min_ry: 0,
                max_ry: 0,
            }),
    {
        CalibrationState {
            min_lx: 0,
            max_lx: 0,
            min_ly: 0,
            max_ly: 0,
            min_rx: 0,
            max_rx: 0,
            min_ry: 0,
            max_ry: 0,
        }
    }
}

/// The running extent of a calibration phase together with what follows
/// from it: the center of each axis and a provisional deadzone of each
/// stick.
#[derive(Debug, Clone, Copy, PartialEq, Eq, Structural)]
pub struct CalibrationData {
    pub rule: DeadzoneRule,
    pub extent: CalibrationState,
    pub center_lx: u16,
    pub center_ly: u16,
    pub center_rx: u16,
    pub center_ry: u16,
    pub deadzone_l: u16,
    pub deadzone_r: u16,
}

impl CalibrationData {
    /// What follows from an extent: each center is the midpoint of its axis,
    /// each deadzone what the rule makes of the extent of its stick.
    pub open spec fn derived(rule: DeadzoneRule, extent: CalibrationState) -> CalibrationData {
        CalibrationData {
            rule,
            extent,
            center_lx: midpoint(extent.min_lx, extent.max_lx),
            center_ly: midpoint(extent.min_ly, extent.max_ly),
            center_rx: midpoint(extent.min_rx, extent.max_rx),
            center_ry: midpoint(extent.min_ry, extent.max_ry),
            deadzone_l: deadzone_by(
                rule,
                extent.min_lx,
                extent.max_lx,
                extent.min_ly,
                extent.max_ly,
            ),
            deadzone_r: deadzone_by(
                rule,
                extent.min_rx,
                extent.max_rx,
                extent.min_ry,
                extent.max_ry,
            ),
        }
    }

    /// The data before any sample: the seeded extent, centers and deadzones
    /// at 0.
    pub open spec fn initial(rule: DeadzoneRule) -> CalibrationData {
        CalibrationData {
            rule,
            extent: CalibrationState::seed(),
            center_lx: 0,
            center_ly: 0,
            center_rx: 0,
            center_ry: 0,
            deadzone_l: 0,
            deadzone_r: 0,
        }
    }

    /// The data after a sequence of samples, the first one first.
    pub open spec fn after(self, samples: Seq<StickData>) -> CalibrationData
        decreases samples.len(),
    {
        if samples.len() == 0 {
            self
        } else {
            Self::derived(
                self.rule,
                self.after(samples.drop_last()).extent.widened(samples.last()),
            )
        }
    }

    /// The data before any sample, with deadzones that are half the width of
    /// the horizontal axis.
    pub fn new() -> (data: Self)
        ensures
            data == Self::initial(DeadzoneRule::Axis),
    {
        Self::with_rule(DeadzoneRule::Axis)
    }

    /// The data before any sample, with deadzones that follow the rule.
    pub fn with_rule(rule: DeadzoneRule) -> (data: Self)
        ensures
            data == Self::initial(rule),
    {
        CalibrationData {
            rule,
            extent: CalibrationState::new(),
            center_lx: 0,
            center_ly: 0,
            center_rx: 0,
            center_ry: 0,
            deadzone_l: 0,
            deadzone_r: 0,
        }
    }

    /// Takes one more sample: widens the extent and computes centers and
    /// deadzones anew.
    pub fn update(&mut self, data: &StickData)
        ensures
            *final(self) == Self::derived(old(self).rule, old(self).extent.widened(*data)),
            old(self).extent.within(final(self).extent),
            final(self).center_lx == (final(self).extent.min_lx + final(self).extent.max_lx) / 2,
            final(self).center_ly == (final(self).extent.min_ly + final(self).extent.max_ly) / 2,
            final(self).center_rx == (final(self).extent.min_rx + final(self).extent.max_rx) / 2,
            final(self).center_ry == (final(self).extent.min_ry + final(self).extent.max_ry) / 2,
            old(self).rule == DeadzoneRule::Axis ==> {
                &&& final(self).deadzone_l == (final(self).extent.max_lx
                    - final(self).extent.min_lx) / 2
                &&& final(self).deadzone_r == (final(self).extent.max_rx
                    - final(self).extent.min_rx) / 2
            },
    {
        self.extent.update(data);
        let extent = self.extent;
        self.center_lx = center_of(extent.min_lx, extent.max_lx);
        self.center_ly = center_of(extent.min_ly, extent.max_ly);
        self.center_rx = center_of(extent.min_rx, extent.max_rx);
        self.center_ry = center_of(extent.min_ry, extent.max_ry);
        self.deadzone_l = deadzone_for(
            self.rule,
            extent.min_lx,
            extent.max_lx,
            extent.min_ly,
            extent.max_ly,
        );
        self.deadzone_r = deadzone_for(
            self.rule,
            extent.min_rx,
            extent.max_rx,
            extent.min_ry,
            extent.max_ry,
        );
    }
}

/// The center of an axis: the midpoint of its range, rounded down.
pub fn center_of(min: u16, max: u16) -> (center: u16)
    ensures
        center == midpoint(min, max),
        center == (min + max) / 2,
        min <= max ==> min <= center <= max,
{
    ((min as u32 + max as u32) / 2) as u16
}

/// The deadzone of a stick: half the width of the range of its horizontal
/// axis, rounded down; 0 for an empty range.
pub fn deadzone_of(min: u16, max: u16) -> (deadzone: u16)
    ensures
        deadzone == half_width(min, max),
        min <= max ==> deadzone == (max - min) / 2,
{
    if max >= min {
        (max - min) / 2
    } else {
        0
    }
}

/// The distance between two readings.
fn distance(a: u16, b: u16) -> (d: u64)
    ensures
        d == if a <= b {
            b - a
        } else {
            a - b
        },
{
    if a <= b {
        (b - a) as u64
    } else {
        (a - b) as u64
    }
}

/// The deadzone of a stick by the diagonal of its extent: half the distance
/// between the corner of the minima and the corner of the maxima, rounded
/// down.
pub fn diagonal_deadzone(min_x: u16, max_x: u16, min_y: u16, max_y: u16) -> (deadzone: u16)
    ensures
        is_half_root(deadzone as int, diagonal_squared(min_x, max_x, min_y, max_y)),
        deadzone == half_root(diagonal_squared(min_x, max_x, min_y, max_y)),
{
    let dx: u64 = distance(min_x, max_x);
    let dy: u64 = distance(min_y, max_y);
    assert(dx * dx <= 0xFFFF * 0xFFFF && dx * dx == (max_x - min_x) * (max_x - min_x))
        by (nonlinear_arith)
        requires
            dx <= 0xFFFF,
            dx == max_x - min_x || dx == min_x - max_x,
    ;
    assert(dy * dy <= 0xFFFF * 0xFFFF && dy * dy == (max_y - min_y) * (max_y - min_y))
        by (nonlinear_arith)
        requires
            dy <= 0xFFFF,
            dy == max_y - min_y || dy == min_y - max_y,
    ;
    let s: u64 = dx * dx + dy * dy;
    let mut low: u64 = 0;
    let mut high: u64 = 0x10000;
    assert(4 * (low * low) <= s < 4 * (high * high)) by (nonlinear_arith)
        requires
            low == 0,
            high == 0x10000,
            s <= 2 * (0xFFFF * 0xFFFF),
    ;
    while high - low > 1
        invariant
            low < high <= 0x10000,
            4 * (low * low) <= s < 4 * (high * high),
        decreases high - low,
    {
        let mid: u64 = low + (high - low) / 2;
        assert(mid * mid <= 0x10000 * 0x10000) by (nonlinear_arith)
            requires
                mid <= 0x10000,
        ;
        if 4 * (mid * mid) <= s {
            low = mid;
        } else {
            high = mid;
        }
    }
    proof {
        lemma_half_root_unique(low as int, s as int);
    }
    low as u16
}

/// The deadzone of a stick under a rule.
pub fn deadzone_for(rule: DeadzoneRule, min_x: u16, max_x: u16, min_y: u16, max_y: u16) -> (deadzone:
    u16)
    ensures
        deadzone == deadzone_by(rule, min_x, max_x, min_y, max_y),
{
    match rule {
        DeadzoneRule::Axis => deadzone_of(min_x, max_x),
        DeadzoneRule::Diagonal => diagonal_deadzone(min_x, max_x, min_y, max_y),
    }
}

/// Only one number is half the square root of `s`, rounded down.
pub proof fn lemma_half_root_unique(r: int, s: int)
    requires
        is_half_root(r, s),
    ensures
        half_root(s) == r,
{
    let other = half_root(s);
    assert(is_half_root(other, s));
    if other < r {
        assert((other + 1) * (other + 1) <= r * r) by (nonlinear_arith)
            requires
                0 <= other + 1 <= r,
        ;
    } else if r < other {
        assert((r + 1) * (r + 1) <= other * other) by (nonlinear_arith)
            requires
                0 <= r + 1 <= other,
        ;
    }
}

/// After every sample of a sequence, each center is the midpoint of its
/// axis, over the extent of all samples so far, and so is each deadzone
/// half the width of its horizontal axis where that is the rule.
pub proof fn lemma_data_follows_extent(start: CalibrationData, samples: Seq<StickData>)
    requires
        samples.len() > 0,
    ensures
        start.after(samples) == CalibrationData::derived(
            start.rule,
            start.extent.widened_by(samples),
        ),
        ({
            let data = start.after(samples);
            &&& data.extent.min_lx <= data.extent.max_lx
            &&& data.extent.min_ly <= data.extent.max_ly
            &&& data.extent.min_rx <= data.extent.max_rx
            &&& data.extent.min_ry <= data.extent.max_ry
            &&& data.center_lx == (data.extent.min_lx + data.extent.max_lx) / 2
            &&& data.center_ly == (data.extent.min_ly + data.extent.max_ly) / 2
            &&& data.center_rx == (data.extent.min_rx + data.extent.max_rx) / 2
            &&& data.center_ry == (data.extent.min_ry + data.extent.max_ry) / 2
            &&& start.rule == DeadzoneRule::Axis ==> {
                &&& data.deadzone_l == (data.extent.max_lx - data.extent.min_lx) / 2
                &&& data.deadzone_r == (data.extent.max_rx - data.extent.min_rx) / 2
            }
        }),
    decreases samples.len(),
{
    if samples.len() > 1 {
        lemma_data_follows_extent(start, samples.drop_last());
    } else {
        assert(samples.drop_last().len() == 0);
        assert(start.after(samples.drop_last()) == start);
        assert(start.extent.widened_by(samples.drop_last()) == start.extent);
    }
}

/// Over any sequence of samples no minimum ever rises and no maximum ever
/// falls: the extent after a prefix lies within the extent after the whole.
pub proof fn lemma_extent_monotone(start: CalibrationState, samples: Seq<StickData>, k: int)
    requires
        0 <= k <= samples.len(),
    ensures
        start.widened_by(samples.take(k)).within(start.widened_by(samples)),
    decreases samples.len(),
{
    if k == samples.len() {
        assert(samples.take(k) =~= samples);
    } else {
        let shorter = samples.drop_last();
        assert(shorter.take(k) =~= samples.take(k));
        lemma_extent_monotone(start, shorter, k);
    }
}

/// Every sample of the sequence lies within the extent that results from it.
pub proof fn lemma_extent_covers(start: CalibrationState, samples: Seq<StickData>, i: int)
    requires
        0 <= i < samples.len(),
    ensures
        start.widened_by(samples).covers(samples[i]),
    decreases samples.len(),
{
    if i < samples.len() - 1 {
        lemma_extent_covers(start, samples.drop_last(), i);
    }
}

/// Feeding a sample twice changes nothing beyond feeding it once.
pub proof fn lemma_widened_idempotent(state: CalibrationState, data: StickData)
    ensures
        state.widened(data).widened(data) == state.widened(data),
{
}

/// The order in which two samples arrive does not matter.
pub proof fn lemma_widened_commutes(state: CalibrationState, a: StickData, b: StickData)
    ensures
        state.widened(a).widened(b) == state.widened(b).widened(a),
{
}

} // verus!
