//! The perception path as one object: what a video frame does to the
//! acquisition, and what command follows from it.

use vstd::prelude::*;
use crate::acquisition::{Acquisition, AcquisitionModel, VisionRequest, VisionResult};
use crate::command::{command_callback, scale_error, scale_error_of, steered, Command, DroneMode};
use crate::geometry::{capture_screen, screen_after, Rect, ScreenGeometry};

verus! {

/// What the vision engine reported for one frame, and how long it took.
#[derive(Debug)]
pub struct VisionReport {
    pub result: VisionResult,
    pub measured_ms: u32,
}

/// Everything the perception path owns: the screen geometry, fixed by the
/// first frame, and the acquisition.
#[derive(Debug)]
pub struct Pilot {
    screen: Option<ScreenGeometry>,
    acquisition: Acquisition,
}

/// The pilot, as a mathematical value.
pub struct PilotModel {
    pub screen: Option<ScreenGeometry>,
    pub acquisition: AcquisitionModel,
}

impl View for Pilot {
    type V = PilotModel;

    closed spec fn view(&self) -> PilotModel {
        PilotModel { screen: self.screen, acquisition: self.acquisition@ }
    }
}

/// The command of an airborne vehicle on which no manual input is present.
pub open spec fn airborne_neutral() -> Command {
    Command { throttle: 0, yaw: 0, pitch: 0, roll: 0, mode: DroneMode::TookOff }
}

impl PilotModel {
    /// The pilot after a frame of the given size that arrived at `now_ms`,
    /// for which the vision engine reported `report`, or was not run.
    pub open spec fn after_frame(
        &self,
        width: u32,
        height: u32,
        now_ms: u64,
        report: Option<VisionReport>,
    ) -> PilotModel {
        PilotModel {
            screen: screen_after(self.screen, width, height),
            acquisition: match report {
                Some(r) => self.acquisition.step(now_ms, r.result@, r.measured_ms),
                None => self.acquisition,
            },
        }
    }

    /// The command after steering towards the current box.
    pub open spec fn steer(&self, command: Command) -> Command {
        steered(self.screen, self.acquisition.bounding_box, command)
    }

    /// The scale signal: how much the box has grown in area since the lock.
    pub open spec fn scale_signal(&self) -> Option<int> {
        match self.acquisition.initial_box {
            Some(initial) => Some(scale_error_of(self.acquisition.bounding_box, initial)),
            None => None,
        }
    }
}

impl Pilot {
    /// The acquisition is well formed.
    pub open spec fn wf(&self) -> bool {
        self@.acquisition.wf()
    }

    /// A pilot that has seen no frame yet.
    pub fn new() -> (p: Pilot)
        ensures
            p.wf(),
            p@.screen == None::<ScreenGeometry>,
            p@.acquisition == Acquisition::new_model(),
    {
        Pilot { screen: None, acquisition: Acquisition::new() }
    }

    /// The screen geometry, once a frame has fixed it.
    pub fn screen(&self) -> (s: Option<ScreenGeometry>)
        ensures
            s == self@.screen,
    {
        self.screen
    }

    /// The acquisition.
    pub fn acquisition(&self) -> (a: &Acquisition)
        ensures
            a@ == self@.acquisition,
    {
        &self.acquisition
    }

    /// The current box.
    pub fn bounding_box(&self) -> (b: Rect)
        ensures
            b == self@.acquisition.bounding_box,
    {
        self.acquisition.bounding_box()
    }

    /// What to ask of the vision engine for the frame that arrives at
    /// `now_ms`.
    pub fn request(&self, now_ms: u64) -> (r: VisionRequest)
        ensures
            r == self@.acquisition.request(now_ms),
    {
        self.acquisition.request(now_ms)
    }

    /// Steers `command` towards the current box, behind the safety gate.
    pub fn steer(&self, command: &mut Command)
        ensures
            *final(command) == self@.steer(*old(command)),
    {
        let target = self.acquisition.bounding_box();
        command_callback(command, self.screen, &target);
    }

    /// The scale signal: the area of the current box less that of the box
    /// first locked on. There is none before the lock.
    pub fn scale_signal(&self) -> (signal: Option<i64>)
        ensures
            signal.is_some() == self@.scale_signal().is_some(),
            signal matches Some(v) ==> self@.scale_signal() == Some(v as int),
    {
        match self.acquisition.initial_box() {
            Some(initial) => Some(scale_error(&self.acquisition.bounding_box(), &initial)),
            None => None,
        }
    }
}

/// Handles one video frame of the given size that arrived at `now_ms`.
///
/// The first frame with pixels fixes the screen geometry. The report of the
/// vision engine, if it was run on this frame, moves the acquisition on. The
/// result is the command that steering gives an airborne vehicle with
/// neutral controls for the box as it now stands.
pub fn video_callback(
    pilot: &mut Pilot,
    width: u32,
    height: u32,
    now_ms: u64,
    report: Option<VisionReport>,
) -> (command: Command)
    requires
        old(pilot).wf(),
        report matches Some(r) ==> r.result@.wf(),
    ensures
        final(pilot).wf(),
        final(pilot)@ == old(pilot)@.after_frame(width, height, now_ms, report),
        command == final(pilot)@.steer(airborne_neutral()),
{
    match report {
        Some(r) => {
            pilot.acquisition.advance(now_ms, r.result, r.measured_ms);
        },
        None => {},
    }
    pilot.screen = capture_screen(pilot.screen, width, height);
    let mut command = Command { throttle: 0, yaw: 0, pitch: 0, roll: 0, mode: DroneMode::TookOff };
    pilot.steer(&mut command);
    command
}

/// A video listener that looks at nothing and changes nothing.
#[allow(unused_variables)]
pub fn video_callback_empty(data: &mut [u8], width: u32, height: u32)
    ensures
        final(data)@ == old(data)@,
{
}

} // verus!
