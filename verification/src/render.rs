//! The state behind the frames: the configuration of the presentation
//! surface, the camera's aspect ratio and the drawable objects, kept
//! consistent with the window through resizes and lost surfaces.
//!
//! The state is created once, when device and surface have been acquired, and
//! is ready from then on. A resize reconfigures surface and camera together;
//! a frame is a fixed sequence of passes submitted as one. While the window
//! has no pixels nothing is drawn.

use vstd::prelude::*;
use crate::input::{ElementState, MouseButton, PhysicalSize, WindowEvent, KeyCode};
use crate::window::PresentMode;

verus! {

/// How a presentation surface is set up. `F` is the texture format of the
/// graphics device, which is carried and never inspected.
#[derive(Debug, Clone, Copy)]
pub struct SurfaceConfiguration<F> {
    /// The format of the surface's textures.
    pub format: F,
    /// Width of the surface in physical pixels.
    pub width: u32,
    /// Height of the surface in physical pixels.
    pub height: u32,
    /// How finished frames reach the screen.
    pub present_mode: PresentMode,
}

/// Why the next texture of a surface could not be had.
#[derive(Debug, Clone, Copy, PartialEq, Eq, Structural)]
pub enum SurfaceError {
    /// The texture did not become available in time.
    Timeout,
    /// The surface has changed and must be configured again.
    Outdated,
    /// The surface was lost and must be configured again.
    Lost,
    /// There is no memory left for a new frame.
    OutOfMemory,
}

/// What acquiring a graphics device for a surface came to.
#[derive(Debug, Clone)]
pub enum Acquisition<F> {
    /// No adapter is compatible with the surface.
    NoAdapter,
    /// The adapter gave no device.
    NoDevice,
    /// Device and queue were acquired.
    Acquired {
        /// The texture formats the surface supports with this adapter, the
        /// preferred one first.
        formats: Vec<F>,
    },
}

/// Why the render state could not be created. Each of these is fatal: there
/// is no degraded mode.
#[derive(Debug, Clone, Copy, PartialEq, Eq, Structural)]
pub enum InitError {
    /// No adapter is compatible with the surface.
    NoAdapter,
    /// The adapter gave no device.
    NoDevice,
    /// The surface supports no texture format with the adapter.
    NoSurfaceFormat,
}

/// One pass of a frame.
#[derive(Debug, Clone, Copy, PartialEq, Eq, Structural)]
pub enum Pass {
    /// Clears the target to the background colour.
    Clear,
    /// Draws one object over what the target holds, without clearing it.
    Draw {
        /// The object to draw.
        drawable: u64,
    },
    /// Draws the user interface on top of everything else.
    Overlay,
}

/// Where an input event of the window goes.
#[derive(Debug, Clone, Copy, PartialEq, Eq, Structural)]
pub enum InputRoute {
    /// A key for the camera controller, which says whether it uses the key.
    CameraKey {
        /// The key.
        key: KeyCode,
        /// Whether it went down or came up.
        state: ElementState,
    },
    /// A scroll for the camera controller.
    CameraScroll,
    /// The right mouse button, which the render state itself keeps track of.
    RightButton,
    /// Nothing of the render state's.
    Unhandled,
}

impl InputRoute {
    /// Whether an event that went this way has been dealt with.
    /// `camera_took_key` is the camera controller's answer to a key; it
    /// counts for a key only.
    pub open spec fn spec_handled(&self, camera_took_key: bool) -> bool {
        match self {
            InputRoute::CameraKey { .. } => camera_took_key,
            InputRoute::CameraScroll => true,
            InputRoute::RightButton => true,
            InputRoute::Unhandled => false,
        }
    }

    /// Whether an event that went this way has been dealt with.
    /// `camera_took_key` is the camera controller's answer to a key; it
    /// counts for a key only.
    #[verifier::when_used_as_spec(spec_handled)]
    pub fn handled(&self, camera_took_key: bool) -> (r: bool)
        ensures
            r == self.spec_handled(camera_took_key),
    {
        match self {
            InputRoute::CameraKey { .. } => camera_took_key,
            InputRoute::CameraScroll => true,
            InputRoute::RightButton => true,
            InputRoute::Unhandled => false,
        }
    }
}

/// Where `event` goes.
pub open spec fn route_of(event: WindowEvent) -> InputRoute {
    match event {
        WindowEvent::KeyboardInput { key: Some(key), state } => InputRoute::CameraKey {
            key,
            state,
        },
        WindowEvent::MouseWheel => InputRoute::CameraScroll,
        WindowEvent::MouseInput { button: MouseButton::Right, .. } => InputRoute::RightButton,
        _ => InputRoute::Unhandled,
    }
}

/// The passes of one frame over `drawables`, in the order of submission:
/// the clear pass, one pass for each drawable object in the order of
/// registration, and the overlay last where there is one.
pub open spec fn frame_passes(drawables: Seq<u64>, overlay: bool) -> Seq<Pass> {
    let draws = Seq::new(drawables.len(), |i: int| Pass::Draw { drawable: drawables[i] });
    let scene = seq![Pass::Clear] + draws;
    if overlay {
        scene.push(Pass::Overlay)
    } else {
        scene
    }
}

/// The state of rendering to one surface.
#[derive(Debug, Clone)]
pub struct State<F> {
    surface_config: SurfaceConfiguration<F>,
    size: PhysicalSize,
    aspect: PhysicalSize,
    is_right_mouse_pressed: bool,
    drawables: Vec<u64>,
    overlay: bool,
    suppressed: bool,
}

impl<F: Copy> State<F> {
    /// The configuration of the surface.
    pub closed spec fn spec_surface_config(&self) -> SurfaceConfiguration<F> {
        self.surface_config
    }

    /// The size of the window as last seen with pixels in it.
    pub closed spec fn spec_size(&self) -> PhysicalSize {
        self.size
    }

    /// The camera's aspect ratio, as the width and the height it is the
    /// quotient of.
    pub closed spec fn spec_aspect(&self) -> PhysicalSize {
        self.aspect
    }

    /// Whether the right mouse button is held down.
    pub closed spec fn spec_is_right_mouse_pressed(&self) -> bool {
        self.is_right_mouse_pressed
    }

    /// The drawable objects in the order of their registration.
    pub closed spec fn spec_drawables(&self) -> Seq<u64> {
        self.drawables@
    }

    /// Whether frames end with an overlay pass.
    pub closed spec fn spec_overlay(&self) -> bool {
        self.overlay
    }

    /// Whether nothing is to be drawn because the window was last seen
    /// without pixels. This lasts until the window is seen with pixels
    /// again.
    pub closed spec fn spec_is_suppressed(&self) -> bool {
        self.suppressed
    }

    /// Whether surface and camera agree with the window on the size, and
    /// that size has pixels wherever something is to be drawn. This holds of
    /// a new state and of every state that follows from it.
    pub open spec fn consistent(&self) -> bool {
        &&& self.spec_surface_config().width == self.spec_size().width
        &&& self.spec_surface_config().height == self.spec_size().height
        &&& self.spec_aspect() == self.spec_size()
        &&& !self.spec_is_suppressed() ==> !self.spec_size().is_empty()
    }

    /// The state after the window has taken `new_size`. Where the new size
    /// has pixels, surface configuration, window size and camera aspect
    /// ratio all take it, and drawing goes on. A size without pixels leaves
    /// the three as they were, and nothing is drawn from then on.
    pub closed spec fn resized(self, new_size: PhysicalSize) -> Self {
        if new_size.is_empty() {
            State { suppressed: true, ..self }
        } else {
            State {
                surface_config: SurfaceConfiguration {
                    width: new_size.width,
                    height: new_size.height,
                    ..self.surface_config
                },
                size: new_size,
                aspect: new_size,
                suppressed: false,
                ..self
            }
        }
    }

    /// What the surface is to be configured with when the window has taken
    /// `new_size`: nothing where the size has no pixels.
    pub open spec fn reconfiguration(self, new_size: PhysicalSize) -> Option<
        SurfaceConfiguration<F>,
    > {
        if new_size.is_empty() {
            None
        } else {
            Some(self.resized(new_size).spec_surface_config())
        }
    }

    /// A resize to a size without pixels leaves surface configuration,
    /// window size and camera aspect ratio as they were, and puts an end to
    /// drawing. A resize to a size with pixels gives all three the new size
    /// at once, so that they agree with each other and with the window
    /// before and after, and lets drawing go on. Neither changes anything
    /// else, and the size of a state never loses its pixels.
    pub proof fn lemma_resized(self, new_size: PhysicalSize)
        ensures
            self.resized(new_size).spec_is_suppressed() == new_size.is_empty(),
            new_size.is_empty() ==> {
                &&& self.resized(new_size).spec_size() == self.spec_size()
                &&& self.resized(new_size).spec_aspect() == self.spec_aspect()
                &&& self.resized(new_size).spec_surface_config() == self.spec_surface_config()
                &&& self.reconfiguration(new_size) is None
            },
            new_size.is_empty() && self.spec_is_suppressed() ==> self.resized(new_size) == self,
            !new_size.is_empty() ==> {
                &&& self.resized(new_size).spec_size() == new_size
                &&& self.resized(new_size).spec_aspect() == new_size
                &&& self.resized(new_size).spec_surface_config() == (SurfaceConfiguration {
                    width: new_size.width,
                    height: new_size.height,
                    ..self.spec_surface_config()
                })
                &&& self.reconfiguration(new_size) == Some(
                    self.resized(new_size).spec_surface_config(),
                )
                &&& self.resized(new_size).consistent()
            },
            self.consistent() ==> self.resized(new_size).consistent(),
            self.consistent() && !self.spec_is_suppressed() ==> self.resized(self.spec_size())
                == self,
            !self.spec_size().is_empty() ==> !self.resized(new_size).spec_size().is_empty(),
            self.resized(new_size).spec_is_right_mouse_pressed()
                == self.spec_is_right_mouse_pressed(),
            self.resized(new_size).spec_drawables() == self.spec_drawables(),
            self.resized(new_size).spec_overlay() == self.spec_overlay(),
    {
    }

    /// An input event changes nothing of a state but what it remembers of
    /// the right mouse button.
    pub proof fn lemma_noted(self, event: WindowEvent)
        ensures
            self.noted(event).spec_is_right_mouse_pressed() == match event {
                WindowEvent::MouseInput { button: MouseButton::Right, state } => state
                    == ElementState::Pressed,
                _ => self.spec_is_right_mouse_pressed(),
            },
            self.noted(event).spec_surface_config() == self.spec_surface_config(),
            self.noted(event).spec_size() == self.spec_size(),
            self.noted(event).spec_aspect() == self.spec_aspect(),
            self.noted(event).spec_drawables() == self.spec_drawables(),
            self.noted(event).spec_overlay() == self.spec_overlay(),
            self.noted(event).spec_is_suppressed() == self.spec_is_suppressed(),
            self.consistent() ==> self.noted(event).consistent(),
            !(event matches WindowEvent::MouseInput { button: MouseButton::Right, .. })
                ==> self.noted(event) == self,
    {
    }

    /// The state of a surface whose device has just been acquired, for a
    /// window of `size`.
    ///
    /// The surface is to be configured with the format the adapter prefers,
    /// at the size of the window, and the camera takes its aspect ratio from
    /// the same size. Nothing is drawn while that size has no pixels. There
    /// is no state without adapter, device or format.
    pub fn new(
        size: PhysicalSize,
        acquisition: Acquisition<F>,
        present_mode: PresentMode,
        drawables: Vec<u64>,
        overlay: bool,
    ) -> (r: Result<Self, InitError>)
        ensures
            match acquisition {
                Acquisition::NoAdapter => r == Err::<Self, InitError>(InitError::NoAdapter),
                Acquisition::NoDevice => r == Err::<Self, InitError>(InitError::NoDevice),
                Acquisition::Acquired { formats } => if formats@.len() == 0 {
                    r == Err::<Self, InitError>(InitError::NoSurfaceFormat)
                } else {
                    &&& r matches Ok(state)
                    &&& state.spec_surface_config() == (SurfaceConfiguration {
                        format: formats@[0],
                        width: size.width,
                        height: size.height,
                        present_mode,
                    })
                    &&& state.spec_size() == size
                    &&& state.spec_aspect() == size
                    &&& !state.spec_is_right_mouse_pressed()
                    &&& state.spec_drawables() == drawables@
                    &&& state.spec_overlay() == overlay
                    &&& state.spec_is_suppressed() == size.is_empty()
                    &&& state.consistent()
                },
            },
    {
        match acquisition {
            Acquisition::NoAdapter => Err(InitError::NoAdapter),
            Acquisition::NoDevice => Err(InitError::NoDevice),
            Acquisition::Acquired { formats } => {
                if formats.len() == 0 {
                    return Err(InitError::NoSurfaceFormat);
                }
                let surface_config = SurfaceConfiguration {
                    format: formats[0],
                    width: size.width,
                    height: size.height,
                    present_mode,
                };
                Ok(
                    State {
                        surface_config,
                        size,
                        aspect: size,
                        is_right_mouse_pressed: false,
                        drawables,
                        overlay,
                        suppressed: size.is_empty(),
                    },
                )
            },
        }
    }

    /// The configuration of the surface.
    pub fn surface_config(&self) -> (r: SurfaceConfiguration<F>)
        ensures
            r == self.spec_surface_config(),
    {
        self.surface_config
    }

    /// The size of the window as last seen with pixels in it.
    pub fn size(&self) -> (r: PhysicalSize)
        ensures
            r == self.spec_size(),
    {
        self.size
    }

    /// The camera's aspect ratio, as the width and the height it is the
    /// quotient of.
    pub fn aspect(&self) -> (r: PhysicalSize)
        ensures
            r == self.spec_aspect(),
    {
        self.aspect
    }

    /// Whether the right mouse button is held down.
    pub fn is_right_mouse_pressed(&self) -> (r: bool)
        ensures
            r == self.spec_is_right_mouse_pressed(),
    {
        self.is_right_mouse_pressed
    }

    /// Whether nothing is to be drawn because the window was last seen
    /// without pixels.
    pub fn is_suppressed(&self) -> (r: bool)
        ensures
            r == self.spec_is_suppressed(),
    {
        self.suppressed
    }

    /// Whether frames end with an overlay pass.
    pub fn has_overlay(&self) -> (r: bool)
        ensures
            r == self.spec_overlay(),
    {
        self.overlay
    }

    /// Follows the window to `new_size`.
    ///
    /// Where the new size has pixels, surface configuration, window size and
    /// camera aspect ratio all take it in one step, the configuration to set
    /// the surface up with is returned, and drawing goes on. A size without
    /// pixels, that of a minimised window, leaves the three as they were and
    /// nothing to configure; from then on nothing is drawn, until the window
    /// takes a size with pixels.
    pub fn resize(&mut self, new_size: PhysicalSize) -> (reconfigure: Option<
        SurfaceConfiguration<F>,
    >)
        ensures
            *final(self) == old(self).resized(new_size),
            reconfigure == old(self).reconfiguration(new_size),
            final(self).spec_is_suppressed() == new_size.is_empty(),
            new_size.is_empty() ==> {
                &&& final(self).spec_size() == old(self).spec_size()
                &&& final(self).spec_aspect() == old(self).spec_aspect()
                &&& final(self).spec_surface_config() == old(self).spec_surface_config()
                &&& reconfigure is None
            },
            !new_size.is_empty() ==> {
                &&& final(self).spec_size() == new_size
                &&& final(self).spec_aspect() == new_size
                &&& final(self).spec_surface_config() == (SurfaceConfiguration {
                    width: new_size.width,
                    height: new_size.height,
                    ..old(self).spec_surface_config()
                })
                &&& reconfigure == Some(final(self).spec_surface_config())
                &&& final(self).consistent()
            },
            final(self).spec_is_right_mouse_pressed() == old(self).spec_is_right_mouse_pressed(),
            final(self).spec_drawables() == old(self).spec_drawables(),
            final(self).spec_overlay() == old(self).spec_overlay(),
            old(self).consistent() ==> final(self).consistent(),
    {
        if new_size.width > 0 && new_size.height > 0 {
            let surface_config = SurfaceConfiguration {
                format: self.surface_config.format,
                width: new_size.width,
                height: new_size.height,
                present_mode: self.surface_config.present_mode,
            };
            self.aspect = new_size;
            self.size = new_size;
            self.surface_config = surface_config;
            self.suppressed = false;
            Some(surface_config)
        } else {
            self.suppressed = true;
            None
        }
    }

    /// The state after an input event of the window: the right mouse button
    /// is remembered as held or not, and nothing else changes.
    pub closed spec fn noted(self, event: WindowEvent) -> Self {
        match event {
            WindowEvent::MouseInput { button: MouseButton::Right, state } => State {
                is_right_mouse_pressed: state == ElementState::Pressed,
                ..self
            },
            _ => self,
        }
    }

    /// Takes note of an input event of the window and says where it goes.
    ///
    /// A key that the window system could name and a scroll go to the camera
    /// controller. The right mouse button is remembered as held or not.
    /// Everything else is left to others.
    pub fn input(&mut self, event: &WindowEvent) -> (route: InputRoute)
        ensures
            route == route_of(*event),
            *final(self) == old(self).noted(*event),
            final(self).spec_is_right_mouse_pressed() == match *event {
                WindowEvent::MouseInput { button: MouseButton::Right, state } => state
                    == ElementState::Pressed,
                _ => old(self).spec_is_right_mouse_pressed(),
            },
            final(self).spec_surface_config() == old(self).spec_surface_config(),
            final(self).spec_size() == old(self).spec_size(),
            final(self).spec_aspect() == old(self).spec_aspect(),
            final(self).spec_drawables() == old(self).spec_drawables(),
            final(self).spec_overlay() == old(self).spec_overlay(),
            final(self).spec_is_suppressed() == old(self).spec_is_suppressed(),
            old(self).consistent() ==> final(self).consistent(),
    {
        match event {
            WindowEvent::KeyboardInput { key: Some(key), state } => InputRoute::CameraKey {
                key: *key,
                state: *state,
            },
            WindowEvent::MouseWheel => InputRoute::CameraScroll,
            WindowEvent::MouseInput { button: MouseButton::Right, state } => {
                self.is_right_mouse_pressed = matches!(state, ElementState::Pressed);
                InputRoute::RightButton
            },
            _ => InputRoute::Unhandled,
        }
    }

    /// The passes of the next frame, given what acquiring the surface's next
    /// texture came to.
    ///
    /// With a texture the frame is the clear pass, one pass for each drawable
    /// object in the order of registration, and the overlay last where there
    /// is one; the passes are to be submitted together and the texture
    /// presented once. Without a texture there is no frame, and the error is
    /// handed on.
    pub fn render(&self, texture: Result<(), SurfaceError>) -> (frame: Result<
        Vec<Pass>,
        SurfaceError,
    >)
        ensures
            match texture {
                Ok(_) => frame matches Ok(passes) && passes@ == frame_passes(
                    self.spec_drawables(),
                    self.spec_overlay(),
                ),
                Err(e) => frame == Err::<Vec<Pass>, SurfaceError>(e),
            },
    {
        if let Err(e) = texture {
            return Err(e);
        }
        let mut passes: Vec<Pass> = Vec::new();
        passes.push(Pass::Clear);
        let mut i: usize = 0;
        while i < self.drawables.len()
            invariant
                i <= self.drawables.len(),
                passes@.len() == i + 1,
                passes@[0] == Pass::Clear,
                forall|k: int|
                    1 <= k <= i ==> #[trigger] passes@[k] == (Pass::Draw {
                        drawable: self.drawables@[k - 1],
                    }),
            decreases self.drawables.len() - i,
        {
            passes.push(Pass::Draw { drawable: self.drawables[i] });
            i += 1;
        }
        if self.overlay {
            passes.push(Pass::Overlay);
        }
        assert(passes@ =~= frame_passes(self.spec_drawables(), self.spec_overlay()));
        Ok(passes)
    }
}

} // verus!
