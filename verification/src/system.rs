//! The frame loop: what each window event does to the state, and what the
//! program around the library has to do in turn.
//!
//! One redraw is one tick. A tick takes the time, reads the keys, decides on
//! the camera's motion, voids the accumulation where the camera moves, plans
//! the frame, and clears the marks of the keys.

use vstd::prelude::*;
use crate::camera::{camera_motion, spec_camera_motion, CameraMotion};
use crate::input::{
    all_released,
    changes_cleared,
    key_changed,
    key_clicked,
    Input,
    KeyCode,
    KeyState,
};
use crate::math::Ext2;
use crate::render::{
    frame_after,
    lemma_frames_count_up,
    spec_next_frame,
    spec_select_buffers,
    Buffers,
    Pass,
    Render,
};
use crate::timer::{responded, started, Timer, TimerModel, NANOS_PER_SECOND};
use crate::uniform::CameraDescriptor;

verus! {

/// The shortest time between two reports of the frame rate, in nanoseconds.
pub const FPS_REPORT_PERIOD: u64 = NANOS_PER_SECOND;

/// The key that switches between a window and the full screen.
pub open spec fn fullscreen_key() -> KeyCode {
    KeyCode::F11
}

/// An event of the window system, as far as the frame loop reads it.
#[derive(Copy, Clone, Debug, PartialEq, Eq)]
pub enum WindowEvent {
    /// The user asked to close the window.
    CloseRequested,
    /// A key went down or up.
    KeyboardInput { key: KeyCode, is_pressed: bool },
    /// The window has a new size in pixels.
    Resized(Ext2<u32>),
    /// The window is to be drawn. `now` is the clock's reading in nanoseconds;
    /// `image` is the size of the surface image to draw on, or nothing where
    /// none could be had.
    RedrawRequested { now: u64, image: Option<Ext2<u32>> },
}

/// What one tick asks the program to do.
#[derive(Copy, Clone, Debug, PartialEq, Eq)]
pub struct Frame {
    /// Switch between a window and the full screen.
    pub toggle_fullscreen: bool,
    /// Move the camera so, and upload its record, before the frame is drawn.
    pub camera: Option<CameraMotion>,
    /// Report this frame rate, in frames per thousand seconds.
    pub fps_report: Option<u64>,
    /// Draw this frame: gather, then present.
    pub pass: Pass,
}

/// What the program has to do after an event.
#[derive(Copy, Clone, Debug, PartialEq, Eq)]
pub enum Reaction {
    /// Nothing.
    Nothing,
    /// Leave the event loop.
    Exit,
    /// Make the buffers anew at this size, configure the surface for it, and
    /// upload the camera record with the projection of the new size.
    Resize(Ext2<u32>),
    /// Do what the tick asks, then ask for the next redraw.
    Draw(Frame),
    /// Draw nothing, and ask for the next redraw.
    Skip,
}

/// The state of the frame loop.
pub struct SystemModel {
    /// The level and the mark of every key.
    pub keys: Map<KeyCode, KeyState>,
    /// The timer.
    pub timer: TimerModel,
    /// The size of the surface and of the accumulation buffers.
    pub extent: Ext2<u32>,
    /// The counter of the next frame.
    pub frame_index: u32,
    /// The reading at which the frame rate was last reported, once the first
    /// tick has run.
    pub fps_reported_at: Option<u64>,
}

/// The state at the start, for a surface of the given size and at the
/// clock's reading `now`.
pub open spec fn initial(surface_ext: Ext2<u32>, now: u64) -> SystemModel {
    SystemModel {
        keys: all_released(),
        timer: started(now),
        extent: surface_ext,
        frame_index: 0,
        fps_reported_at: None,
    }
}

/// A report is due at the reading `now`: more than a period has passed since
/// the last one.
pub open spec fn report_due(reported_at: Option<u64>, now: u64) -> bool {
    match reported_at {
        Some(at) => now - at > FPS_REPORT_PERIOD,
        None => false,
    }
}

/// The reading of the last report after a tick at the reading `now`. The first
/// tick reports nothing and starts the period.
pub open spec fn reported_at_after(reported_at: Option<u64>, now: u64) -> Option<u64> {
    match reported_at {
        Some(at) => if report_due(reported_at, now) {
            Some(now)
        } else {
            Some(at)
        },
        None => Some(now),
    }
}

/// One tick on a surface image of the size `resolution`, at the clock's
/// reading `now`: the state after it, and what it asks for.
pub open spec fn ticked(s: SystemModel, now: u64, resolution: Ext2<u32>) -> (SystemModel, Frame) {
    let timer = responded(s.timer, now);
    let camera = spec_camera_motion(s.keys, timer.delta);
    let frame_index = if camera is Some {
        0
    } else {
        s.frame_index
    };
    (
        SystemModel {
            keys: changes_cleared(s.keys),
            timer,
            extent: s.extent,
            frame_index: spec_next_frame(frame_index),
            fps_reported_at: reported_at_after(s.fps_reported_at, timer.now),
        },
        Frame {
            toggle_fullscreen: key_clicked(s.keys, fullscreen_key()),
            camera,
            fps_report: if report_due(s.fps_reported_at, timer.now) {
                Some(timer.fps)
            } else {
                None
            },
            pass: Pass { frame_index, buffers: spec_select_buffers(frame_index), resolution },
        },
    )
}

/// The state after an event, and what the program has to do. An event of
/// another window changes nothing; so does a redraw for which no surface
/// image could be had.
pub open spec fn spec_on_window_event(s: SystemModel, own_window: bool, event: WindowEvent) -> (
    SystemModel,
    Reaction,
) {
    if !own_window {
        (s, Reaction::Nothing)
    } else {
        match event {
            WindowEvent::CloseRequested => (s, Reaction::Exit),
            WindowEvent::KeyboardInput { key, is_pressed } => (
                SystemModel { keys: key_changed(s.keys, key, is_pressed), ..s },
                Reaction::Nothing,
            ),
            WindowEvent::Resized(new_extent) => (
                SystemModel { extent: new_extent, frame_index: 0, ..s },
                Reaction::Resize(new_extent),
            ),
            WindowEvent::RedrawRequested { now, image } => match image {
                Some(resolution) => (
                    ticked(s, now, resolution).0,
                    Reaction::Draw(ticked(s, now, resolution).1),
                ),
                None => (s, Reaction::Skip),
            },
        }
    }
}

/// The state after a run of events, each with the mark that tells whether it
/// is for the loop's own window.
pub open spec fn run(s: SystemModel, events: Seq<(bool, WindowEvent)>) -> SystemModel
    decreases events.len(),
{
    if events.len() == 0 {
        s
    } else {
        spec_on_window_event(run(s, events.drop_last()), events.last().0, events.last().1).0
    }
}

/// The event draws a frame: it is a redraw of the loop's own window for
/// which a surface image was had.
pub open spec fn draws(event: (bool, WindowEvent)) -> bool {
    event.0 && event.1 matches WindowEvent::RedrawRequested { image: Some(_), .. }
}

/// The event leaves what was gathered valid in the state `s`: it is no new
/// size, and no tick in which the keys move the camera.
pub open spec fn keeps_history(s: SystemModel, event: (bool, WindowEvent)) -> bool {
    !event.0 || match event.1 {
        WindowEvent::Resized(_) => false,
        WindowEvent::RedrawRequested { now, image: Some(_) } => spec_camera_motion(
            s.keys,
            responded(s.timer, now).delta,
        ) is None,
        _ => true,
    }
}

/// Every event of the run leaves what was gathered valid in the state in
/// which it arrives.
pub open spec fn steady(s: SystemModel, events: Seq<(bool, WindowEvent)>) -> bool
    decreases events.len(),
{
    events.len() == 0 || (steady(s, events.drop_last()) && keeps_history(
        run(s, events.drop_last()),
        events.last(),
    ))
}

/// The number of frames that a run of events draws.
pub open spec fn frames_drawn(events: Seq<(bool, WindowEvent)>) -> nat
    decreases events.len(),
{
    if events.len() == 0 {
        0
    } else {
        frames_drawn(events.drop_last()) + if draws(events.last()) {
            1nat
        } else {
            0nat
        }
    }
}

/// A tick in which the keys do not move the camera draws the frame that the
/// counter stands at, and counts it.
pub proof fn lemma_steady_tick(s: SystemModel, now: u64, resolution: Ext2<u32>)
    requires
        spec_camera_motion(s.keys, responded(s.timer, now).delta) is None,
    ensures
        ticked(s, now, resolution).1.pass.frame_index == s.frame_index,
        ticked(s, now, resolution).1.pass.buffers == spec_select_buffers(s.frame_index),
        ticked(s, now, resolution).0.frame_index == spec_next_frame(s.frame_index),
        s.frame_index < u32::MAX ==> ticked(s, now, resolution).0.frame_index == s.frame_index
            + 1,
{
}

/// Over any run of events without a new size and without a tick in which the
/// keys move the camera, the counter goes up by 1 with each frame drawn and
/// is never reset: within its range it ends at where it began plus the
/// number of frames drawn.
pub proof fn lemma_steady_run_counts_frames(s: SystemModel, events: Seq<(bool, WindowEvent)>)
    requires
        steady(s, events),
    ensures
        run(s, events).frame_index == frame_after(s.frame_index, frames_drawn(events)),
        s.frame_index + frames_drawn(events) <= u32::MAX ==> run(s, events).frame_index
            == s.frame_index + frames_drawn(events),
    decreases events.len(),
{
    if events.len() > 0 {
        lemma_steady_run_counts_frames(s, events.drop_last());
    }
    if s.frame_index + frames_drawn(events) <= u32::MAX {
        lemma_frames_count_up(s.frame_index, frames_drawn(events));
    }
}

/// A tick in which the keys move the camera starts the accumulation anew:
/// it draws frame 0, which reads buffer 0 and writes buffer 1, and the next
/// frame is frame 1.
pub proof fn lemma_camera_change_restarts(s: SystemModel, now: u64, resolution: Ext2<u32>)
    requires
        spec_camera_motion(s.keys, responded(s.timer, now).delta) is Some,
    ensures
        ticked(s, now, resolution).1.pass.frame_index == 0,
        ticked(s, now, resolution).1.pass.buffers == (Buffers { read: 0, write: 1 }),
        ticked(s, now, resolution).0.frame_index == 1,
{
}

/// A new size starts the accumulation anew, whatever the size and the state
/// were: the counter is 0 after it, and the tick that follows draws frame 0.
pub proof fn lemma_resize_restarts(
    s: SystemModel,
    new_extent: Ext2<u32>,
    now: u64,
    resolution: Ext2<u32>,
)
    ensures
        spec_on_window_event(s, true, WindowEvent::Resized(new_extent)).0.frame_index == 0,
        spec_on_window_event(s, true, WindowEvent::Resized(new_extent)).0.extent == new_extent,
        ticked(
            spec_on_window_event(s, true, WindowEvent::Resized(new_extent)).0,
            now,
            resolution,
        ).1.pass.frame_index == 0,
{
}

/// The frame loop's state: the keys, the timer, the accumulation.
pub struct System {
    render: Render,
    timer: Timer,
    input: Input,
    fps_reported_at: Option<u64>,
}

impl View for System {
    type V = SystemModel;

    closed spec fn view(&self) -> SystemModel {
        SystemModel {
            keys: self.input@,
            timer: self.timer@,
            extent: self.render.spec_extent(),
            frame_index: self.render.spec_frame_index(),
            fps_reported_at: self.fps_reported_at,
        }
    }
}

impl System {
    /// The frame loop at its start, for a surface of the given size and at
    /// the clock's reading `now`.
    pub fn new(surface_ext: Ext2<u32>, now: u64) -> (r: Self)
        ensures
            r@ == initial(surface_ext, now),
    {
        System {
            render: Render::new(surface_ext),
            timer: Timer::new(now),
            input: Input::new(),
            fps_reported_at: None,
        }
    }

    /// The size of the surface and of the accumulation buffers.
    pub fn extent(&self) -> (r: Ext2<u32>)
        ensures
            r == self@.extent,
    {
        self.render.extent()
    }

    /// The counter of the next frame.
    pub fn frame_index(&self) -> (r: u32)
        ensures
            r == self@.frame_index,
    {
        self.render.frame_index()
    }

    /// Takes a view that does not come from a tick, as at the start and after
    /// a new size: returns the bytes of the camera record to upload, and
    /// voids what was gathered.
    pub fn update_render_camera(&mut self, camera: &CameraDescriptor) -> (bytes: Vec<u8>)
        ensures
            bytes@ == camera.spec_record_bytes(),
            final(self)@ == (SystemModel { frame_index: 0, ..old(self)@ }),
    {
        self.render.set_camera(camera)
    }

    /// Whether a report of the frame rate is due at the reading `now`; the
    /// reading of the last report is brought up to date.
    fn report_fps(&mut self, now: u64) -> (due: bool)
        ensures
            due == report_due(old(self).fps_reported_at, now),
            final(self).fps_reported_at == reported_at_after(old(self).fps_reported_at, now),
            final(self).render == old(self).render,
            final(self).timer == old(self).timer,
            final(self).input == old(self).input,
    {
        match self.fps_reported_at {
            Some(at) => {
                if now > at && now - at > FPS_REPORT_PERIOD {
                    self.fps_reported_at = Some(now);
                    true
                } else {
                    false
                }
            },
            None => {
                self.fps_reported_at = Some(now);
                false
            },
        }
    }

    /// One tick on a surface image of the size `resolution`.
    fn tick(&mut self, now: u64, resolution: Ext2<u32>) -> (frame: Frame)
        ensures
            final(self)@ == ticked(old(self)@, now, resolution).0,
            frame == ticked(old(self)@, now, resolution).1,
    {
        self.timer.response(now);
        let timer_state = self.timer.get_state();
        let input_state = self.input.get_state();
        let toggle_fullscreen = input_state.is_key_clicked(KeyCode::F11);
        let camera = camera_motion(input_state, timer_state.get_delta_time());
        let due = self.report_fps(timer_state.get_now());
        let fps_report = if due {
            Some(timer_state.get_fps())
        } else {
            None
        };
        self.input.clear_changed();
        if camera.is_some() {
            self.render.invalidate();
        }
        let pass = self.render.render_frame(resolution);
        Frame { toggle_fullscreen, camera, fps_report, pass }
    }

    /// Takes one event of the window system and says what the program has to
    /// do. `own_window` tells whether the event is for the window that the
    /// frame loop draws to.
    pub fn on_window_event(&mut self, own_window: bool, event: WindowEvent) -> (reaction: Reaction)
        ensures
            final(self)@ == spec_on_window_event(old(self)@, own_window, event).0,
            reaction == spec_on_window_event(old(self)@, own_window, event).1,
    {
        if !own_window {
            return Reaction::Nothing;
        }
        match event {
            WindowEvent::CloseRequested => Reaction::Exit,
            WindowEvent::KeyboardInput { key, is_pressed } => {
                self.input.on_key_change(key, is_pressed);
                Reaction::Nothing
            },
            WindowEvent::Resized(new_extent) => {
                self.render.resize(new_extent);
                Reaction::Resize(new_extent)
            },
            WindowEvent::RedrawRequested { now, image } => match image {
                Some(resolution) => Reaction::Draw(self.tick(now, resolution)),
                None => Reaction::Skip,
            },
        }
    }
}

} // verus!
