//! What the event loop of the window system does with each event.
//!
//! The loop itself belongs to the window system. For every event it has, it
//! asks the [`MainLoop`] kept here, which holds the render state, and carries
//! out the reaction it is given: run a tick of the application, send an
//! event into the world, configure the surface, submit a frame, or stop.
//! While the window has no pixels no frame is drawn. Once the loop is exiting
//! no event has any effect.

use vstd::prelude::*;
use crate::event::{
    AppExit,
    Events,
    ManualEventReader,
    OnCursorEntered,
    OnCursorLeft,
    OnFileDragAndDrop,
    OnReceivedCharacter,
    OnRedrawRequested,
    OnWindowCloseRequested,
    OnWindowFocused,
    OnWindowResized,
    OnWindowScaleFactorChanged,
};
use crate::input::{ElementState, KeyCode, MouseButton, PhysicalSize, WindowEvent, WindowId};
use crate::render::{frame_passes, route_of, InputRoute, Pass, State, SurfaceConfiguration, SurfaceError};
use crate::time::{get_time_passed, time_passed};
use crate::window::{create_window, fullscreen_choice, VideoMode, WindowError, WindowPlan, WindowSettings};

verus! {

/// An event for the world, made from an event of the window.
#[derive(Debug, Clone, PartialEq, Eq)]
pub enum WorldEvent {
    /// The window was resized.
    WindowResized(OnWindowResized),
    /// The ratio of physical to logical pixels of the window changed.
    WindowScaleFactorChanged(OnWindowScaleFactorChanged),
    /// The user asked for the window to be closed.
    WindowCloseRequested(OnWindowCloseRequested),
    /// The window gained or lost focus.
    WindowFocused(OnWindowFocused),
    /// A file is held over the window or was dropped into it.
    FileDragAndDrop(OnFileDragAndDrop),
    /// The cursor entered the window.
    CursorEntered(OnCursorEntered),
    /// The cursor left the window.
    CursorLeft(OnCursorLeft),
    /// The window received a character of text.
    ReceivedCharacter(OnReceivedCharacter),
}

/// The event for the world that an event of window `id` gives rise to, if
/// it gives rise to one. `inner_size` is the size of the window's client
/// area at the time of asking, which is what a resize is reported with.
pub open spec fn world_event_of(id: WindowId, event: WindowEvent, inner_size: PhysicalSize) -> Option<
    WorldEvent,
> {
    match event {
        WindowEvent::CloseRequested => Some(
            WorldEvent::WindowCloseRequested(OnWindowCloseRequested { id }),
        ),
        WindowEvent::Resized(_) => Some(
            WorldEvent::WindowResized(
                OnWindowResized { id, width: inner_size.width, height: inner_size.height },
            ),
        ),
        WindowEvent::ScaleFactorChanged { scale_factor, .. } => Some(
            WorldEvent::WindowScaleFactorChanged(OnWindowScaleFactorChanged { id, scale_factor }),
        ),
        WindowEvent::Focused(focused) => Some(
            WorldEvent::WindowFocused(OnWindowFocused { id, focused }),
        ),
        WindowEvent::HoveredFile(path_buf) => Some(
            WorldEvent::FileDragAndDrop(OnFileDragAndDrop::HoveredFile { id, path_buf }),
        ),
        WindowEvent::DroppedFile(path_buf) => Some(
            WorldEvent::FileDragAndDrop(OnFileDragAndDrop::DroppedFile { id, path_buf }),
        ),
        WindowEvent::CursorEntered => Some(WorldEvent::CursorEntered(OnCursorEntered { id })),
        WindowEvent::CursorLeft => Some(WorldEvent::CursorLeft(OnCursorLeft { id })),
        WindowEvent::ReceivedCharacter(char) => Some(
            WorldEvent::ReceivedCharacter(OnReceivedCharacter { id, char }),
        ),
        _ => None,
    }
}

/// Makes the event for the world that an event of window `id` gives rise to.
pub fn to_world_event(id: WindowId, event: &WindowEvent, inner_size: PhysicalSize) -> (r: Option<
    WorldEvent,
>)
    ensures
        r == world_event_of(id, *event, inner_size),
{
    match event {
        WindowEvent::CloseRequested => Some(
            WorldEvent::WindowCloseRequested(OnWindowCloseRequested { id }),
        ),
        WindowEvent::Resized(_) => Some(
            WorldEvent::WindowResized(
                OnWindowResized { id, width: inner_size.width, height: inner_size.height },
            ),
        ),
        WindowEvent::ScaleFactorChanged { scale_factor, .. } => Some(
            WorldEvent::WindowScaleFactorChanged(
                OnWindowScaleFactorChanged { id, scale_factor: *scale_factor },
            ),
        ),
        WindowEvent::Focused(focused) => Some(
            WorldEvent::WindowFocused(OnWindowFocused { id, focused: *focused }),
        ),
        WindowEvent::HoveredFile(path_buf) => Some(
            WorldEvent::FileDragAndDrop(
                OnFileDragAndDrop::HoveredFile { id, path_buf: path_buf.clone() },
            ),
        ),
        WindowEvent::DroppedFile(path_buf) => Some(
            WorldEvent::FileDragAndDrop(
                OnFileDragAndDrop::DroppedFile { id, path_buf: path_buf.clone() },
            ),
        ),
        WindowEvent::CursorEntered => Some(WorldEvent::CursorEntered(OnCursorEntered { id })),
        WindowEvent::CursorLeft => Some(WorldEvent::CursorLeft(OnCursorLeft { id })),
        WindowEvent::ReceivedCharacter(char) => Some(
            WorldEvent::ReceivedCharacter(OnReceivedCharacter { id, char: *char }),
        ),
        _ => None,
    }
}

/// The size that a window's resize or change of scale brings, if `event` is
/// one of the two.
pub open spec fn new_size_of(event: WindowEvent) -> Option<PhysicalSize> {
    match event {
        WindowEvent::Resized(physical_size) => Some(physical_size),
        WindowEvent::ScaleFactorChanged { new_inner_size, .. } => Some(new_inner_size),
        _ => None,
    }
}

/// Whether `event` is the escape key going down, which ends the loop.
pub open spec fn is_escape_pressed(event: WindowEvent) -> bool {
    event matches WindowEvent::KeyboardInput {
        key: Some(KeyCode::Escape),
        state: ElementState::Pressed,
    }
}

/// Whether the loop goes on.
#[derive(Debug, Clone, Copy, PartialEq, Eq, Structural)]
pub enum Phase {
    /// Events are dealt with.
    Ready,
    /// The loop is to stop; no event has any effect.
    Exiting,
}

/// What to do when the window system has handed out all pending events.
#[derive(Debug, Clone, Copy, PartialEq, Eq, Structural)]
pub struct Tick {
    /// Ask the window for a redraw. This comes first.
    pub request_redraw: bool,
    /// Run one tick of the application. This comes second.
    pub update: bool,
}

/// What to do about an event of the window.
#[derive(Debug, Clone)]
pub struct WindowReaction<F> {
    /// Hand the event to the overlay.
    pub overlay: bool,
    /// Configure the surface with this.
    pub reconfigure: Option<SurfaceConfiguration<F>>,
    /// Send this into the world.
    pub send: Option<WorldEvent>,
    /// Stop the loop.
    pub exit: bool,
}

/// What to do about a movement of the mouse.
#[derive(Debug, Clone, Copy, PartialEq, Eq, Structural)]
pub struct CursorReaction {
    /// Hand the movement to the camera controller.
    pub turn_camera: bool,
    /// Show the cursor, or hide it.
    pub cursor_visible: bool,
    /// Move the cursor to this place in the window.
    pub cursor_position: Option<PhysicalSize>,
}

/// How a frame ended.
#[derive(Debug, Clone, Copy)]
pub enum FrameOutcome<F> {
    /// Record the passes, submit them together and present the texture.
    Present,
    /// The surface was lost or is outdated: configure it with this, if there
    /// is anything to configure it with. Nothing is presented.
    Reconfigure(Option<SurfaceConfiguration<F>>),
    /// The texture did not come in time. Nothing is presented.
    Skip,
    /// Memory ran out: stop the loop. Nothing is presented.
    Exit,
}

/// What to do at the end of a frame.
#[derive(Debug, Clone)]
pub struct FrameReaction<F> {
    /// How the frame ended.
    pub outcome: FrameOutcome<F>,
    /// The passes of the frame in the order of submission; empty unless the
    /// frame is presented.
    pub passes: Vec<Pass>,
    /// Send this into the world.
    pub send: Option<OnRedrawRequested>,
}

/// The settings to create the window from and the window they lead to.
/// Settings that are absent are the default ones.
pub fn init_renderer(win_settings: Option<WindowSettings>, monitors: &Vec<Vec<VideoMode>>) -> (r:
    Result<(WindowSettings, WindowPlan), WindowError>)
    ensures
        match r {
            Ok((settings, plan)) => {
                &&& win_settings matches Some(given) ==> settings == given
                &&& win_settings is None ==> settings.is_default()
                &&& plan.title == settings.title
                &&& plan.width == settings.width
                &&& plan.height == settings.height
                &&& plan.transparent == settings.transparent
                &&& plan.resizable == settings.resizable
                &&& plan.decorations == settings.decorations
                &&& fullscreen_choice(
                    settings.window_mode,
                    monitors@,
                    settings.width,
                    settings.height,
                    Ok(plan.fullscreen),
                )
            },
            Err(e) => match win_settings {
                Some(given) => fullscreen_choice(
                    given.window_mode,
                    monitors@,
                    given.width,
                    given.height,
                    Err(e),
                ),
                None => false,
            },
        },
{
    let settings = match win_settings {
        Some(given) => given,
        None => WindowSettings::default(),
    };
    let plan = create_window(&settings, monitors)?;
    Ok((settings, plan))
}

/// The state of the event loop of one window.
#[derive(Debug, Clone)]
pub struct MainLoop<F> {
    /// The render state of the window.
    pub state: State<F>,
    /// The window.
    pub window: WindowId,
    /// When the last frame began, in nanoseconds of a clock that never runs
    /// backwards.
    pub last_render_time: u64,
    /// What has been seen of the requests to end the application.
    pub app_exit_event_reader: ManualEventReader,
    /// Whether the loop goes on.
    pub phase: Phase,
}

impl<F: Copy> MainLoop<F> {
    /// The loop of `window` at time `now`, before its first event.
    pub fn new(state: State<F>, window: WindowId, now: u64) -> (r: Self)
        ensures
            r.state == state,
            r.window == window,
            r.last_render_time == now,
            r.app_exit_event_reader.spec_last_event_count() == 0,
            r.phase == Phase::Ready,
    {
        MainLoop {
            state,
            window,
            last_render_time: now,
            app_exit_event_reader: ManualEventReader::new(),
            phase: Phase::Ready,
        }
    }

    /// All pending events have been handed out: ask for a redraw, then run
    /// one tick of the application. Neither while exiting.
    pub fn main_events_cleared(&self) -> (tick: Tick)
        ensures
            tick.request_redraw == (self.phase == Phase::Ready),
            tick.update == (self.phase == Phase::Ready),
    {
        let ready = matches!(self.phase, Phase::Ready);
        Tick { request_redraw: ready, update: ready }
    }

    /// Takes note of an input event of `window_id` and says where it goes.
    /// Events of other windows, and all events while exiting, go nowhere.
    pub fn input(&mut self, window_id: WindowId, event: &WindowEvent) -> (route: InputRoute)
        ensures
            old(self).listens(window_id) ==> route == route_of(*event) && *final(self)
                == (MainLoop { state: old(self).state.noted(*event), ..*old(self) }),
            !old(self).listens(window_id) ==> route == InputRoute::Unhandled && *final(self)
                == *old(self),
            final(self).state.spec_is_right_mouse_pressed() == match *event {
                WindowEvent::MouseInput { button: MouseButton::Right, state } => if old(
                    self,
                ).listens(window_id) {
                    state == ElementState::Pressed
                } else {
                    old(self).state.spec_is_right_mouse_pressed()
                },
                _ => old(self).state.spec_is_right_mouse_pressed(),
            },
            final(self).state.spec_surface_config() == old(self).state.spec_surface_config(),
            final(self).state.spec_size() == old(self).state.spec_size(),
            final(self).state.spec_aspect() == old(self).state.spec_aspect(),
            final(self).state.spec_drawables() == old(self).state.spec_drawables(),
            final(self).state.spec_overlay() == old(self).state.spec_overlay(),
            final(self).state.spec_is_suppressed() == old(self).state.spec_is_suppressed(),
            old(self).state.consistent() ==> final(self).state.consistent(),
    {
        if !self.is_listening(window_id) {
            return InputRoute::Unhandled;
        }
        self.state.input(event)
    }

    /// Whether events of `window_id` have any effect: it is the window of
    /// this loop, and the loop is not exiting.
    pub open spec fn listens(&self, window_id: WindowId) -> bool {
        self.phase == Phase::Ready && window_id == self.window
    }

    /// Whether a frame of `window_id` is drawn when it is asked for: events
    /// of the window have an effect, and the window was not last seen without
    /// pixels.
    pub open spec fn draws(&self, window_id: WindowId) -> bool {
        self.listens(window_id) && !self.state.spec_is_suppressed()
    }

    /// Whether events of `window_id` have any effect: it is the window of
    /// this loop, and the loop is not exiting.
    pub fn is_listening(&self, window_id: WindowId) -> (r: bool)
        ensures
            r == self.listens(window_id),
    {
        matches!(self.phase, Phase::Ready) && window_id.0 == self.window.0
    }

    /// The loop after an event of `window_id` that nobody has dealt with
    /// (`handled` says whether somebody has).
    ///
    /// The escape key going down makes the loop exit. A resize or a change
    /// of scale makes the render state follow the window: to a size with
    /// pixels, or into drawing nothing while the window has none. Other
    /// events leave the loop as it is, and so do events of other windows,
    /// events that were dealt with, and all events while exiting.
    pub open spec fn after_window_event(
        self,
        window_id: WindowId,
        event: WindowEvent,
        handled: bool,
    ) -> Self {
        if !self.listens(window_id) || handled {
            self
        } else if is_escape_pressed(event) {
            MainLoop { phase: Phase::Exiting, ..self }
        } else {
            match new_size_of(event) {
                Some(new_size) => MainLoop { state: self.state.resized(new_size), ..self },
                None => self,
            }
        }
    }

    /// Deals with an event of `window_id`, unless somebody else has
    /// (`handled`), the event is of another window, or the loop is exiting:
    /// then nothing is to be done.
    ///
    /// Otherwise the event goes to the overlay, where there is one. The
    /// escape key going down stops the loop. A resize or a change of scale
    /// makes the render state follow the window, and the surface is to be
    /// configured anew where the new size has pixels; where it has none,
    /// nothing is drawn until a size with pixels comes. Every event that the
    /// world has a counterpart for is to be sent there; a resize is reported
    /// with `inner_size`, the size of the window's client area now.
    pub fn window_event(
        &mut self,
        window_id: WindowId,
        event: &WindowEvent,
        handled: bool,
        inner_size: PhysicalSize,
    ) -> (reaction: WindowReaction<F>)
        ensures
            *final(self) == old(self).after_window_event(window_id, *event, handled),
            !old(self).listens(window_id) || handled ==> {
                &&& !reaction.overlay
                &&& reaction.reconfigure is None
                &&& reaction.send is None
                &&& !reaction.exit
            },
            old(self).listens(window_id) && !handled ==> {
                &&& reaction.overlay == old(self).state.spec_overlay()
                &&& reaction.exit == is_escape_pressed(*event)
                &&& reaction.send == world_event_of(window_id, *event, inner_size)
                &&& reaction.reconfigure == match new_size_of(*event) {
                    Some(new_size) => old(self).state.reconfiguration(new_size),
                    None => None,
                }
                &&& new_size_of(*event) matches Some(new_size) ==> {
                    &&& final(self).state.spec_is_suppressed() == new_size.is_empty()
                    &&& reaction.reconfigure is Some <==> !new_size.is_empty()
                    &&& !new_size.is_empty() ==> final(self).state.spec_size() == new_size
                        && final(self).state.spec_aspect() == new_size
                        && reaction.reconfigure == Some(final(self).state.spec_surface_config())
                }
            },
            new_size_of(*event) is None ==> final(self).state == old(self).state,
            (new_size_of(*event) matches Some(new_size) && new_size.is_empty()) ==> {
                &&& final(self).state.spec_surface_config() == old(self).state.spec_surface_config()
                &&& final(self).state.spec_size() == old(self).state.spec_size()
                &&& final(self).state.spec_aspect() == old(self).state.spec_aspect()
            },
            final(self).state.spec_is_right_mouse_pressed() == old(
                self,
            ).state.spec_is_right_mouse_pressed(),
            final(self).state.spec_drawables() == old(self).state.spec_drawables(),
            final(self).state.spec_overlay() == old(self).state.spec_overlay(),
            old(self).state.consistent() ==> final(self).state.consistent(),
    {
        if !self.is_listening(window_id) || handled {
            return WindowReaction { overlay: false, reconfigure: None, send: None, exit: false };
        }
        let overlay = self.state.has_overlay();
        let mut reconfigure: Option<SurfaceConfiguration<F>> = None;
        let mut exit = false;
        match event {
            WindowEvent::KeyboardInput {
                key: Some(KeyCode::Escape),
                state: ElementState::Pressed,
            } => {
                self.phase = Phase::Exiting;
                exit = true;
            },
            WindowEvent::Resized(physical_size) => {
                reconfigure = self.state.resize(*physical_size);
            },
            WindowEvent::ScaleFactorChanged { new_inner_size, .. } => {
                reconfigure = self.state.resize(*new_inner_size);
            },
            _ => {},
        }
        let send = to_world_event(window_id, event, inner_size);
        WindowReaction { overlay, reconfigure, send, exit }
    }

    /// Deals with a movement of the mouse.
    ///
    /// While the right button is held the movement turns the camera, and the
    /// cursor is hidden and put back in the middle of the window, whose
    /// client area has `inner_size`. Otherwise the cursor is shown. While
    /// exiting nothing is to be done.
    pub fn mouse_motion(&self, inner_size: PhysicalSize) -> (reaction: Option<CursorReaction>)
        ensures
            self.phase == Phase::Exiting ==> reaction is None,
            self.phase == Phase::Ready ==> reaction == Some(
                if self.state.spec_is_right_mouse_pressed() {
                    CursorReaction {
                        turn_camera: true,
                        cursor_visible: false,
                        cursor_position: Some(
                            PhysicalSize {
                                width: inner_size.width / 2,
                                height: inner_size.height / 2,
                            },
                        ),
                    }
                } else {
                    CursorReaction {
                        turn_camera: false,
                        cursor_visible: true,
                        cursor_position: None,
                    }
                },
            ),
    {
        if !matches!(self.phase, Phase::Ready) {
            return None;
        }
        if self.state.is_right_mouse_pressed() {
            Some(
                CursorReaction {
                    turn_camera: true,
                    cursor_visible: false,
                    cursor_position: Some(
                        PhysicalSize {
                            width: inner_size.width / 2,
                            height: inner_size.height / 2,
                        },
                    ),
                },
            )
        } else {
            Some(CursorReaction { turn_camera: false, cursor_visible: true, cursor_position: None })
        }
    }

    /// The time between the last frame and `now`, in nanoseconds.
    pub open spec fn elapsed(&self, now: u64) -> u64 {
        time_passed(now, self.last_render_time)
    }

    /// Begins a frame of `window_id` at time `now`.
    ///
    /// Returns the time since the last frame began, in nanoseconds, by which
    /// the camera is to be moved on before the frame is drawn: once for the
    /// frame, whatever input has come in since. Returns nothing, and changes
    /// nothing, for another window, while exiting, and while the window has
    /// no pixels: then no texture is to be acquired and nothing is drawn.
    pub fn redraw_requested(&mut self, window_id: WindowId, now: u64) -> (delta: Option<u64>)
        ensures
            old(self).draws(window_id) ==> delta == Some(old(self).elapsed(now)) && *final(self)
                == (MainLoop { last_render_time: now, ..*old(self) }),
            !old(self).draws(window_id) ==> delta is None && *final(self) == *old(self),
    {
        if !self.is_listening(window_id) || self.state.is_suppressed() {
            return None;
        }
        let delta = get_time_passed(now, Some(self.last_render_time));
        self.last_render_time = now;
        Some(delta)
    }

    /// How a frame ends, given what acquiring the surface's next texture
    /// came to: it is presented where there is a texture; a lost or outdated
    /// surface is configured again at its last size; a texture that did not
    /// come in time is skipped; without memory the loop stops. While exiting,
    /// and while the window has no pixels, every frame is skipped.
    pub open spec fn frame_outcome(self, texture: Result<(), SurfaceError>) -> FrameOutcome<F> {
        if !self.draws(self.window) {
            FrameOutcome::Skip
        } else {
            match texture {
                Ok(_) => FrameOutcome::Present,
                Err(SurfaceError::Lost) | Err(SurfaceError::Outdated) => FrameOutcome::Reconfigure(
                    self.state.reconfiguration(self.state.spec_size()),
                ),
                Err(SurfaceError::OutOfMemory) => FrameOutcome::Exit,
                Err(SurfaceError::Timeout) => FrameOutcome::Skip,
            }
        }
    }

    /// The passes that are submitted at the end of a frame: those of a whole
    /// frame where it is presented, none otherwise.
    pub open spec fn submitted(self, texture: Result<(), SurfaceError>) -> Seq<Pass> {
        if self.frame_outcome(texture) is Present {
            frame_passes(self.state.spec_drawables(), self.state.spec_overlay())
        } else {
            Seq::empty()
        }
    }

    /// The loop after a frame.
    pub open spec fn after_frame(self, texture: Result<(), SurfaceError>) -> Self {
        match self.frame_outcome(texture) {
            FrameOutcome::Reconfigure(_) => MainLoop {
                state: self.state.resized(self.state.spec_size()),
                ..self
            },
            FrameOutcome::Exit => MainLoop { phase: Phase::Exiting, ..self },
            _ => self,
        }
    }

    /// Ends the frame that `redraw_requested` began, given what acquiring
    /// the surface's next texture came to.
    ///
    /// With a texture, the passes of the frame are to be recorded in their
    /// order, submitted together, and the texture presented. A lost or
    /// outdated surface is to be configured again at its last size, and the
    /// next frame tried when it is asked for. A texture that did not come in
    /// time is skipped. Without memory the loop stops. Whatever came of it,
    /// the world is told that a frame was asked for. While exiting, and
    /// while the window has no pixels, nothing is to be done.
    pub fn frame_acquired(&mut self, texture: Result<(), SurfaceError>) -> (reaction:
        FrameReaction<F>)
        ensures
            *final(self) == old(self).after_frame(texture),
            reaction.outcome == old(self).frame_outcome(texture),
            reaction.passes@ == old(self).submitted(texture),
            reaction.send is Some <==> old(self).draws(old(self).window),
    {
        if !matches!(self.phase, Phase::Ready) || self.state.is_suppressed() {
            return FrameReaction { outcome: FrameOutcome::Skip, passes: Vec::new(), send: None };
        }
        let send = Some(OnRedrawRequested {  });
        match self.state.render(texture) {
            Ok(passes) => FrameReaction { outcome: FrameOutcome::Present, passes, send },
            Err(SurfaceError::Lost) | Err(SurfaceError::Outdated) => {
                let size = self.state.size();
                let reconfigure = self.state.resize(size);
                FrameReaction {
                    outcome: FrameOutcome::Reconfigure(reconfigure),
                    passes: Vec::new(),
                    send,
                }
            },
            Err(SurfaceError::OutOfMemory) => {
                self.phase = Phase::Exiting;
                FrameReaction { outcome: FrameOutcome::Exit, passes: Vec::new(), send }
            },
            Err(SurfaceError::Timeout) => FrameReaction {
                outcome: FrameOutcome::Skip,
                passes: Vec::new(),
                send,
            },
        }
    }

    /// Whether a request to end the application has come in that this loop
    /// has not seen and, not exiting yet, will act on.
    pub open spec fn sees_exit(self, app_exit_events: Option<&Events<AppExit>>) -> bool {
        &&& self.phase == Phase::Ready
        &&& app_exit_events matches Some(events)
        &&& self.app_exit_event_reader.unread(events).len() > 0
    }

    /// All redraws of this turn of the loop are done: looks for requests to
    /// end the application among `app_exit_events`, the queue of such
    /// requests where the world has one.
    ///
    /// The loop stops, and `true` is returned, where a request has come in
    /// that this loop has not seen. Every request counts as seen afterwards.
    /// While exiting nothing is looked at.
    pub fn redraw_events_cleared(&mut self, app_exit_events: Option<&Events<AppExit>>) -> (exit:
        bool)
        requires
            app_exit_events matches Some(events) ==> events.wf(),
        ensures
            exit == old(self).sees_exit(app_exit_events),
            final(self).phase == if exit {
                Phase::Exiting
            } else {
                old(self).phase
            },
            old(self).phase == Phase::Ready ==> match app_exit_events {
                Some(events) => final(self).app_exit_event_reader.spec_last_event_count()
                    == events.event_count(),
                None => final(self).app_exit_event_reader == old(self).app_exit_event_reader,
            },
            old(self).phase == Phase::Exiting ==> *final(self) == *old(self),
            final(self).state == old(self).state,
            final(self).window == old(self).window,
            final(self).last_render_time == old(self).last_render_time,
    {
        if !matches!(self.phase, Phase::Ready) {
            return false;
        }
        if let Some(events) = app_exit_events {
            let unread = self.app_exit_event_reader.iter(events);
            if unread.len() > 0 {
                self.phase = Phase::Exiting;
                return true;
            }
        }
        false
    }

    /// A frame that finds the surface lost or outdated presents nothing and
    /// asks for the surface to be configured once, as it was. It leaves the
    /// loop as it found it, so that the next frame for which there is a
    /// texture is presented whole, and once.
    pub proof fn lemma_lost_surface_recovers(self, cause: SurfaceError)
        requires
            self.phase == Phase::Ready,
            self.state.consistent(),
            !self.state.spec_is_suppressed(),
            cause == SurfaceError::Lost || cause == SurfaceError::Outdated,
        ensures
            self.frame_outcome(Err(cause)) == FrameOutcome::Reconfigure(
                Some(self.state.spec_surface_config()),
            ),
            self.submitted(Err(cause)) == Seq::<Pass>::empty(),
            self.after_frame(Err(cause)) == self,
            self.after_frame(Err(cause)).frame_outcome(Ok(())) == FrameOutcome::<F>::Present,
            self.after_frame(Err(cause)).submitted(Ok(())) == frame_passes(
                self.state.spec_drawables(),
                self.state.spec_overlay(),
            ),
            self.after_frame(Err(cause)).after_frame(Ok(())) == self,
    {
        self.state.lemma_resized(self.state.spec_size());
    }

    /// Once the loop is exiting it stays as it is: no event of a window and
    /// no frame changes it, nothing is presented, and it does not return to
    /// being ready.
    pub proof fn lemma_exiting_is_final(
        self,
        window_id: WindowId,
        event: WindowEvent,
        handled: bool,
        texture: Result<(), SurfaceError>,
    )
        requires
            self.phase == Phase::Exiting,
        ensures
            !self.listens(window_id),
            !self.draws(window_id),
            self.after_window_event(window_id, event, handled) == self,
            self.after_frame(texture) == self,
            self.frame_outcome(texture) == FrameOutcome::<F>::Skip,
            self.submitted(texture) == Seq::<Pass>::empty(),
    {
    }

    /// While the window has no pixels nothing is drawn, and the loop stays
    /// ready. An event that tells of a size without pixels leaves surface
    /// configuration, window size and camera aspect ratio as they were and
    /// puts an end to drawing: no frame begins, and none is presented. Input
    /// does not bring drawing back. An event that tells of a size with
    /// pixels does.
    pub proof fn lemma_no_pixels_no_frames(
        self,
        minimised: WindowEvent,
        input: WindowEvent,
        restored: WindowEvent,
        texture: Result<(), SurfaceError>,
    )
        requires
            self.phase == Phase::Ready,
            new_size_of(minimised) matches Some(size) && size.is_empty(),
            new_size_of(restored) matches Some(size) && !size.is_empty(),
        ensures
            ({
                let idle = self.after_window_event(self.window, minimised, false);
                &&& idle.phase == Phase::Ready
                &&& !idle.draws(self.window)
                &&& idle.state.spec_surface_config() == self.state.spec_surface_config()
                &&& idle.state.spec_size() == self.state.spec_size()
                &&& idle.state.spec_aspect() == self.state.spec_aspect()
                &&& idle.frame_outcome(texture) == FrameOutcome::<F>::Skip
                &&& idle.submitted(texture) == Seq::<Pass>::empty()
                &&& idle.after_frame(texture) == idle
                &&& !(MainLoop { state: idle.state.noted(input), ..idle }).draws(self.window)
                &&& idle.after_window_event(self.window, restored, false).draws(self.window)
                &&& idle.after_window_event(self.window, restored, false).state.spec_size()
                    == new_size_of(restored)->0
            }),
    {
        let idle = self.after_window_event(self.window, minimised, false);
        self.state.lemma_resized(new_size_of(minimised)->0);
        idle.state.lemma_noted(input);
        idle.state.lemma_resized(new_size_of(restored)->0);
    }
}

} // verus!
