//! The calibration wizard: two phases of measuring, a choice, a review and
//! the final write.
//!
//! The wizard holds what was measured and decides what each event leads to.
//! It talks to no device: the caller carries out the requests and hands the
//! wizard their results.

use vstd::prelude::*;

use crate::codec::MAX_12BIT;
use crate::model::{
    center_of, deadzone_by, deadzone_for, midpoint, CalibrationData, ControllerType,
    DeadzoneRule, StickCalibration, StickData, AXIS_REST,
};
use crate::protocol::ControllerError;

verus! {

/// How far the measured range is drawn in at each end when an outer
/// deadzone is asked for.
pub const OUTER_PADDING: u16 = 0x050;

/// The steps of the wizard, in their order.
#[derive(Debug, Clone, Copy, PartialEq, Eq, Structural)]
pub enum CalibrationStep {
    /// No controller yet.
    Connect,
    /// A controller is connected.
    Connected,
    /// The sticks are moved within their slack: center and deadzone are
    /// measured.
    CalibrateCenter,
    /// The sticks are moved along their rim: the range is measured.
    CalibrateRange,
    /// The user chooses whether the range is drawn in.
    OuterDeadzoneChoice,
    /// The calibration is shown before it is written.
    Review,
    /// The calibration was written.
    Done,
}

/// The state of the wizard.
#[derive(Debug, Clone, Copy, PartialEq, Eq, Structural)]
pub struct CalibrationWizard {
    pub controller_type: Option<ControllerType>,
    pub has_left: bool,
    pub has_right: bool,
    pub stick_data: StickData,
    pub calibration_step: CalibrationStep,
    pub calibration_data: CalibrationData,
    pub left_result: StickCalibration,
    pub right_result: StickCalibration,
    pub left_deadzone: u16,
    pub right_deadzone: u16,
    pub outer_deadzone: bool,
    pub deadzone_rule: DeadzoneRule,
    pub error: Option<ControllerError>,
}

/// The place of a step in the order of the wizard.
pub open spec fn rank(step: CalibrationStep) -> int {
    match step {
        CalibrationStep::Connect => 0,
        CalibrationStep::Connected => 1,
        CalibrationStep::CalibrateCenter => 2,
        CalibrationStep::CalibrateRange => 3,
        CalibrationStep::OuterDeadzoneChoice => 4,
        CalibrationStep::Review => 5,
        CalibrationStep::Done => 6,
    }
}

/// The padding that a choice stands for.
pub open spec fn padding_for(enable: bool) -> u16 {
    if enable {
        OUTER_PADDING
    } else {
        0
    }
}

/// A measured minimum drawn in by the padding, and never above the 12-bit
/// range.
pub open spec fn padded_min(min: u16, padding: u16) -> u16 {
    if min + padding <= MAX_12BIT {
        (min + padding) as u16
    } else {
        MAX_12BIT
    }
}

/// A measured maximum drawn in by the padding, and never below 0.
pub open spec fn padded_max(max: u16, padding: u16) -> u16 {
    if max >= padding {
        (max - padding) as u16
    } else {
        0
    }
}

/// A record with its bounds set from a measured range and a padding; the
/// center stays.
pub open spec fn bounded(
    record: StickCalibration,
    min_x: u16,
    max_x: u16,
    min_y: u16,
    max_y: u16,
    padding: u16,
) -> StickCalibration {
    StickCalibration {
        xmin: padded_min(min_x, padding),
        xmax: padded_max(max_x, padding),
        ymin: padded_min(min_y, padding),
        ymax: padded_max(max_y, padding),
        ..record
    }
}

/// A record with its center set from a measured range; the bounds stay.
pub open spec fn centered(
    record: StickCalibration,
    min_x: u16,
    max_x: u16,
    min_y: u16,
    max_y: u16,
) -> StickCalibration {
    StickCalibration { xcenter: midpoint(min_x, max_x), ycenter: midpoint(min_y, max_y), ..record }
}

/// Draws a measured minimum in by the padding.
pub fn raise_minimum(min: u16, padding: u16) -> (raised: u16)
    ensures
        raised == padded_min(min, padding),
        raised <= MAX_12BIT || raised == min,
        padding == 0 && min <= MAX_12BIT ==> raised == min,
{
    let sum: u32 = min as u32 + padding as u32;
    if sum <= MAX_12BIT as u32 {
        sum as u16
    } else {
        MAX_12BIT
    }
}

/// Draws a measured maximum in by the padding.
pub fn lower_maximum(max: u16, padding: u16) -> (lowered: u16)
    ensures
        lowered == padded_max(max, padding),
        lowered <= max,
        padding == 0 ==> lowered == max,
{
    if max >= padding {
        max - padding
    } else {
        0
    }
}

impl CalibrationWizard {
    /// The wizard before anything happened, with the rule by which it will
    /// derive the deadzones.
    pub open spec fn initial(rule: DeadzoneRule) -> CalibrationWizard {
        CalibrationWizard {
            controller_type: None,
            has_left: false,
            has_right: false,
            stick_data: StickData { lx: AXIS_REST, ly: AXIS_REST, rx: AXIS_REST, ry: AXIS_REST },
            calibration_step: CalibrationStep::Connect,
            calibration_data: CalibrationData::initial(rule),
            left_result: StickCalibration {
                xmax: 0,
                ymax: 0,
                xcenter: 0,
                ycenter: 0,
                xmin: 0,
                ymin: 0,
            },
            right_result: StickCalibration {
                xmax: 0,
                ymax: 0,
                xcenter: 0,
                ycenter: 0,
                xmin: 0,
                ymin: 0,
            },
            left_deadzone: 0,
            right_deadzone: 0,
            outer_deadzone: false,
            deadzone_rule: rule,
            error: None,
        }
    }

    /// The wizard after an attempt to connect. A controller moves the
    /// wizard from its first step to the next, tells which sticks there are
    /// and clears the error. A failure is kept as the error. After the first
    /// step an attempt to connect changes nothing.
    pub open spec fn after_connect(self, result: Result<ControllerType, ControllerError>)
        -> CalibrationWizard {
        if self.calibration_step != CalibrationStep::Connect {
            self
        } else {
            match result {
                Ok(kind) => CalibrationWizard {
                    controller_type: Some(kind),
                    has_left: kind != ControllerType::JoyConR,
                    has_right: kind != ControllerType::JoyConL,
                    calibration_step: CalibrationStep::Connected,
                    error: None,
                    ..self
                },
                Err(error) => CalibrationWizard { error: Some(error), ..self },
            }
        }
    }

    /// The wizard after the device was asked for standard input reports.
    /// Success starts the first phase with a fresh extent. A failure is kept
    /// as the error. In any step but `Connected` nothing changes.
    pub open spec fn after_start(self, enabled: Result<(), ControllerError>) -> CalibrationWizard {
        if self.calibration_step != CalibrationStep::Connected {
            self
        } else {
            match enabled {
                Ok(_) => CalibrationWizard {
                    calibration_step: CalibrationStep::CalibrateCenter,
                    calibration_data: CalibrationData::initial(self.deadzone_rule),
                    ..self
                },
                Err(error) => CalibrationWizard { error: Some(error), ..self },
            }
        }
    }

    /// The wizard after new stick data. The data is kept in every step, and
    /// in the two phases of measuring it widens the extent.
    pub open spec fn after_stick_data(self, data: StickData) -> CalibrationWizard {
        if self.measuring() {
            CalibrationWizard {
                stick_data: data,
                calibration_data: CalibrationData::derived(
                    self.calibration_data.rule,
                    self.calibration_data.extent.widened(data),
                ),
                ..self
            }
        } else {
            CalibrationWizard { stick_data: data, ..self }
        }
    }

    /// The wizard is in one of the two phases of measuring.
    pub open spec fn measuring(self) -> bool {
        self.calibration_step == CalibrationStep::CalibrateCenter || self.calibration_step
            == CalibrationStep::CalibrateRange
    }

    /// New stick data is worth showing: in every step that shows the
    /// sticks.
    pub open spec fn shows_sticks(self) -> bool {
        self.calibration_step != CalibrationStep::Connect && self.calibration_step
            != CalibrationStep::OuterDeadzoneChoice
    }

    /// The wizard after the end of a phase. The first phase gives each
    /// stick its center, the midpoint of each axis, and its deadzone, which
    /// the rule of the wizard makes of the extent; the second phase then
    /// starts with a fresh extent. The second phase keeps its extent for the choice that
    /// follows. In any other step nothing changes.
    pub open spec fn after_next_step(self) -> CalibrationWizard {
        let extent = self.calibration_data.extent;
        match self.calibration_step {
            CalibrationStep::CalibrateCenter => CalibrationWizard {
                left_result: centered(
                    self.left_result,
                    extent.min_lx,
                    extent.max_lx,
                    extent.min_ly,
                    extent.max_ly,
                ),
                right_result: centered(
                    self.right_result,
                    extent.min_rx,
                    extent.max_rx,
                    extent.min_ry,
                    extent.max_ry,
                ),
                left_deadzone: deadzone_by(
                    self.deadzone_rule,
                    extent.min_lx,
                    extent.max_lx,
                    extent.min_ly,
                    extent.max_ly,
                ),
                right_deadzone: deadzone_by(
                    self.deadzone_rule,
                    extent.min_rx,
                    extent.max_rx,
                    extent.min_ry,
                    extent.max_ry,
                ),
                calibration_step: CalibrationStep::CalibrateRange,
                calibration_data: CalibrationData::initial(self.deadzone_rule),
                ..self
            },
            CalibrationStep::CalibrateRange => CalibrationWizard {
                calibration_step: CalibrationStep::OuterDeadzoneChoice,
                ..self
            },
            _ => self,
        }
    }

    /// The wizard after the choice of an outer deadzone: each stick gets
    /// its bounds, the measured range drawn in by the padding that the
    /// choice stands for. In any step but the choice nothing changes.
    pub open spec fn after_outer_deadzone(self, enable: bool) -> CalibrationWizard {
        let extent = self.calibration_data.extent;
        if self.calibration_step != CalibrationStep::OuterDeadzoneChoice {
            self
        } else {
            CalibrationWizard {
                outer_deadzone: enable,
                left_result: bounded(
                    self.left_result,
                    extent.min_lx,
                    extent.max_lx,
                    extent.min_ly,
                    extent.max_ly,
                    padding_for(enable),
                ),
                right_result: bounded(
                    self.right_result,
                    extent.min_rx,
                    extent.max_rx,
                    extent.min_ry,
                    extent.max_ry,
                    padding_for(enable),
                ),
                calibration_step: CalibrationStep::Review,
                ..self
            }
        }
    }

    /// The wizard after the calibration was sent to the device. Success
    /// ends the wizard. A failure is kept as the error and leaves the wizard
    /// in the review. In any step but the review nothing changes.
    pub open spec fn after_write(self, written: Result<(), ControllerError>) -> CalibrationWizard {
        if self.calibration_step != CalibrationStep::Review {
            self
        } else {
            match written {
                Ok(_) => CalibrationWizard { calibration_step: CalibrationStep::Done, ..self },
                Err(error) => CalibrationWizard { error: Some(error), ..self },
            }
        }
    }

    /// The wizard before anything happened. Its deadzones will be half the
    /// width of the horizontal axis of each stick.
    pub fn new() -> (wizard: Self)
        ensures
            wizard == Self::initial(DeadzoneRule::Axis),
    {
        Self::with_deadzone_rule(DeadzoneRule::Axis)
    }

    /// The wizard before anything happened, with the rule by which it will
    /// derive the deadzones.
    pub fn with_deadzone_rule(rule: DeadzoneRule) -> (wizard: Self)
        ensures
            wizard == Self::initial(rule),
    {
        CalibrationWizard {
            controller_type: None,
            has_left: false,
            has_right: false,
            stick_data: StickData::default(),
            calibration_step: CalibrationStep::Connect,
            calibration_data: CalibrationData::with_rule(rule),
            left_result: StickCalibration::default(),
            right_result: StickCalibration::default(),
            left_deadzone: 0,
            right_deadzone: 0,
            outer_deadzone: false,
            deadzone_rule: rule,
            error: None,
        }
    }

    /// Takes the result of an attempt to connect.
    pub fn connect(&mut self, result: Result<ControllerType, ControllerError>)
        ensures
            *final(self) == old(self).after_connect(result),
    {
        if self.calibration_step == CalibrationStep::Connect {
            match result {
                Ok(kind) => {
                    self.controller_type = Some(kind);
                    self.has_left = kind != ControllerType::JoyConR;
                    self.has_right = kind != ControllerType::JoyConL;
                    self.calibration_step = CalibrationStep::Connected;
                    self.error = None;
                },
                Err(error) => {
                    self.error = Some(error);
                },
            }
        }
    }

    /// Takes the result of the request for standard input reports.
    pub fn start_calibration(&mut self, enabled: Result<(), ControllerError>)
        ensures
            *final(self) == old(self).after_start(enabled),
    {
        if self.calibration_step == CalibrationStep::Connected {
            match enabled {
                Ok(_) => {
                    self.calibration_step = CalibrationStep::CalibrateCenter;
                    self.calibration_data = CalibrationData::with_rule(self.deadzone_rule);
                },
                Err(error) => {
                    self.error = Some(error);
                },
            }
        }
    }

    /// Takes new stick data, and tells whether it is worth showing.
    pub fn update_stick_data(&mut self, data: StickData) -> (redraw: bool)
        ensures
            *final(self) == old(self).after_stick_data(data),
            redraw == old(self).shows_sticks(),
    {
        self.stick_data = data;
        match self.calibration_step {
            CalibrationStep::CalibrateCenter | CalibrationStep::CalibrateRange => {
                self.calibration_data.update(&data);
                true
            },
            CalibrationStep::Connected | CalibrationStep::Review | CalibrationStep::Done => true,
            _ => false,
        }
    }

    /// Ends the current phase of measuring.
    pub fn next_step(&mut self)
        ensures
            *final(self) == old(self).after_next_step(),
    {
        match self.calibration_step {
            CalibrationStep::CalibrateCenter => {
                let extent = self.calibration_data.extent;
                self.left_result.xcenter = center_of(extent.min_lx, extent.max_lx);
                self.left_result.ycenter = center_of(extent.min_ly, extent.max_ly);
                self.right_result.xcenter = center_of(extent.min_rx, extent.max_rx);
                self.right_result.ycenter = center_of(extent.min_ry, extent.max_ry);
                self.left_deadzone = deadzone_for(
                    self.deadzone_rule,
                    extent.min_lx,
                    extent.max_lx,
                    extent.min_ly,
                    extent.max_ly,
                );
                self.right_deadzone = deadzone_for(
                    self.deadzone_rule,
                    extent.min_rx,
                    extent.max_rx,
                    extent.min_ry,
                    extent.max_ry,
                );
                self.calibration_step = CalibrationStep::CalibrateRange;
                self.calibration_data = CalibrationData::with_rule(self.deadzone_rule);
            },
            CalibrationStep::CalibrateRange => {
                self.calibration_step = CalibrationStep::OuterDeadzoneChoice;
            },
            _ => {},
        }
    }

    /// Takes the choice of an outer deadzone.
    pub fn set_outer_deadzone(&mut self, enable: bool)
        ensures
            *final(self) == old(self).after_outer_deadzone(enable),
    {
        if self.calibration_step == CalibrationStep::OuterDeadzoneChoice {
            self.outer_deadzone = enable;
            let padding: u16 = if enable {
                OUTER_PADDING
            } else {
                0
            };
            let extent = self.calibration_data.extent;
            self.left_result.xmin = raise_minimum(extent.min_lx, padding);
            self.left_result.ymin = raise_minimum(extent.min_ly, padding);
            self.left_result.xmax = lower_maximum(extent.max_lx, padding);
            self.left_result.ymax = lower_maximum(extent.max_ly, padding);
            self.right_result.xmin = raise_minimum(extent.min_rx, padding);
            self.right_result.ymin = raise_minimum(extent.min_ry, padding);
            self.right_result.xmax = lower_maximum(extent.max_rx, padding);
            self.right_result.ymax = lower_maximum(extent.max_ry, padding);
            self.calibration_step = CalibrationStep::Review;
        }
    }

    /// Takes the result of the write of the calibration.
    pub fn write_calibration(&mut self, written: Result<(), ControllerError>)
        ensures
            *final(self) == old(self).after_write(written),
    {
        if self.calibration_step == CalibrationStep::Review {
            match written {
                Ok(_) => {
                    self.calibration_step = CalibrationStep::Done;
                },
                Err(error) => {
                    self.error = Some(error);
                },
            }
        }
    }
}

/// Whatever happens, the wizard stays where it is or moves on by one step:
/// it never goes back and never skips a step.
pub proof fn lemma_wizard_moves_forward(
    wizard: CalibrationWizard,
    connected: Result<ControllerType, ControllerError>,
    done: Result<(), ControllerError>,
    data: StickData,
    enable: bool,
)
    ensures
        rank(wizard.calibration_step) <= rank(wizard.after_connect(connected).calibration_step)
            <= rank(wizard.calibration_step) + 1,
        rank(wizard.calibration_step) <= rank(wizard.after_start(done).calibration_step) <= rank(
            wizard.calibration_step,
        ) + 1,
        wizard.after_stick_data(data).calibration_step == wizard.calibration_step,
        rank(wizard.calibration_step) <= rank(wizard.after_next_step().calibration_step) <= rank(
            wizard.calibration_step,
        ) + 1,
        rank(wizard.calibration_step) <= rank(
            wizard.after_outer_deadzone(enable).calibration_step,
        ) <= rank(wizard.calibration_step) + 1,
        rank(wizard.calibration_step) <= rank(wizard.after_write(done).calibration_step) <= rank(
            wizard.calibration_step,
        ) + 1,
        done is Err ==> wizard.after_start(done).calibration_step == wizard.calibration_step
            && wizard.after_write(done).calibration_step == wizard.calibration_step,
{
}

/// Without padding the bounds are the measured range, for every range
/// within twelve bits.
pub proof fn lemma_no_padding_keeps_range(
    record: StickCalibration,
    min_x: u16,
    max_x: u16,
    min_y: u16,
    max_y: u16,
)
    requires
        min_x <= MAX_12BIT,
        min_y <= MAX_12BIT,
    ensures
        ({
            let result = bounded(record, min_x, max_x, min_y, max_y, padding_for(false));
            &&& result.xmin == min_x
            &&& result.xmax == max_x
            &&& result.ymin == min_y
            &&& result.ymax == max_y
        }),
{
}

} // verus!
