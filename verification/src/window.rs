//! Window configuration: the settings a window is created from, the way it
//! occupies the screen, and the choice of a display mode for exclusive
//! fullscreen.

use vstd::prelude::*;

verus! {

/// One display mode that a monitor offers.
#[derive(Debug, Clone, Copy, PartialEq, Eq, Structural)]
pub struct VideoMode {
    /// Horizontal resolution in physical pixels.
    pub width: u32,
    /// Vertical resolution in physical pixels.
    pub height: u32,
    /// Bits per colour.
    pub bit_depth: u16,
    /// Refresh rate in thousandths of a hertz.
    pub refresh_rate_millihertz: u32,
}

/// The distance between two pixel counts.
pub open spec fn spec_abs_diff(a: u32, b: u32) -> int {
    if a > b {
        a - b
    } else {
        b - a
    }
}

/// The distance between two pixel counts.
pub fn abs_diff(a: u32, b: u32) -> (d: u32)
    ensures
        d == spec_abs_diff(a, b),
{
    if a > b {
        return a - b;
    }
    b - a
}

/// Whether mode `a` fits a request for `width` by `height` strictly better
/// than mode `b`: a closer width wins, then a closer height, then the higher
/// refresh rate.
pub open spec fn fits_better(a: VideoMode, b: VideoMode, width: u32, height: u32) -> bool {
    let aw = spec_abs_diff(a.width, width);
    let bw = spec_abs_diff(b.width, width);
    let ah = spec_abs_diff(a.height, height);
    let bh = spec_abs_diff(b.height, height);
    aw < bw || (aw == bw && (ah < bh || (ah == bh && a.refresh_rate_millihertz
        > b.refresh_rate_millihertz)))
}

/// Decides `fits_better`.
pub fn is_better_fit(a: &VideoMode, b: &VideoMode, width: u32, height: u32) -> (r: bool)
    ensures
        r == fits_better(*a, *b, width, height),
{
    let aw = abs_diff(a.width, width);
    let bw = abs_diff(b.width, width);
    if aw != bw {
        return aw < bw;
    }
    let ah = abs_diff(a.height, height);
    let bh = abs_diff(b.height, height);
    if ah != bh {
        return ah < bh;
    }
    a.refresh_rate_millihertz > b.refresh_rate_millihertz
}

/// Whether `index` is the mode of `modes` that a request for `width` by
/// `height` selects: no mode fits better, and every earlier mode fits worse.
pub open spec fn is_fitting_videomode(
    modes: Seq<VideoMode>,
    width: u32,
    height: u32,
    index: int,
) -> bool {
    &&& 0 <= index < modes.len()
    &&& forall|j: int|
        0 <= j < modes.len() ==> !fits_better(#[trigger] modes[j], modes[index], width, height)
    &&& forall|j: int|
        0 <= j < index ==> fits_better(modes[index], #[trigger] modes[j], width, height)
}

/// The position in `modes` of the mode that fits `width` by `height` best.
/// Among modes that fit equally well the first one is chosen.
pub fn get_fitting_videomode(modes: &Vec<VideoMode>, width: u32, height: u32) -> (index: usize)
    requires
        modes.len() > 0,
    ensures
        is_fitting_videomode(modes@, width, height, index as int),
{
    let mut best: usize = 0;
    let mut i: usize = 1;
    while i < modes.len()
        invariant
            1 <= i <= modes.len(),
            best < i,
            forall|j: int|
                0 <= j < i ==> !fits_better(#[trigger] modes[j], modes[best as int], width, height),
            forall|j: int|
                0 <= j < best ==> fits_better(modes[best as int], #[trigger] modes[j], width, height),
        decreases modes.len() - i,
    {
        if is_better_fit(&modes[i], &modes[best], width, height) {
            best = i;
        }
        i += 1;
    }
    best
}

/// How finished frames reach the screen.
#[derive(Debug, Clone, Copy, PartialEq, Eq, Structural)]
pub enum PresentMode {
    /// Wait for the vertical blank where the display supports it, otherwise
    /// the closest mode that does.
    AutoVsync,
    /// Present at once where the display supports it, otherwise the closest
    /// mode that does.
    AutoNoVsync,
    /// Queue frames and show one per vertical blank.
    Fifo,
    /// As `Fifo`, but a late frame is shown at once.
    FifoRelaxed,
    /// Show each frame at once; tearing may be visible.
    Immediate,
    /// Keep only the newest frame and show it at the vertical blank.
    Mailbox,
}

/// Defines the way a window is displayed.
#[derive(Debug, Clone, Copy, PartialEq, Eq, Structural)]
pub enum WindowMode {
    /// Creates a window that uses the given size.
    Windowed,
    /// Creates a borderless window that uses the full size of the screen.
    BorderlessFullscreen,
    /// Creates a fullscreen window that will render at desktop resolution,
    /// scaled from the closest supported size. No window can be created in
    /// this mode.
    SizedFullscreen,
    /// Creates a fullscreen window that uses the display mode closest to the
    /// given size.
    Fullscreen,
}

/// Defines which monitor to use.
#[derive(Debug, Clone, Copy, PartialEq, Eq, Structural)]
pub enum MonitorSelection {
    /// Uses current monitor of the window.
    Current,
    /// Uses primary monitor of the system.
    Primary,
    /// Uses monitor with the specified index.
    Number(usize),
}

/// Defines where window should be placed at on creation.
#[derive(Debug, Clone, Copy, PartialEq, Eq, Structural)]
pub enum WindowPosition {
    /// Position will be set by the window manager.
    Automatic,
    /// Window will be centered on the selected monitor.
    ///
    /// Note that this does not account for window decorations.
    Centered(MonitorSelection),
    /// The window's top-left corner will be placed at the specified position
    /// in pixels, where (0, 0) is the top-left corner of screen space.
    At {
        /// Pixels from the left edge of screen space.
        x: i32,
        /// Pixels from the top edge of screen space.
        y: i32,
    },
}

/// A ratio of physical to logical pixels, carried as the bit pattern of its
/// double-precision value. The library passes it on and never computes with
/// it.
#[derive(Debug, Clone, Copy, PartialEq, Eq, Structural)]
pub struct ScaleFactor {
    /// The bit pattern of the ratio.
    pub bits: u64,
}

/// The size limits on a window.
///
/// These values are measured in logical pixels, so the user's scale factor
/// does affect the size limits on the window. A maximum of `u32::MAX` stands
/// for no limit.
#[derive(Debug, Clone, Copy, PartialEq, Eq, Structural)]
pub struct WindowResizeConstraints {
    /// The smallest width the window may be given.
    pub min_width: u32,
    /// The smallest height the window may be given.
    pub min_height: u32,
    /// The largest width the window may be given.
    pub max_width: u32,
    /// The largest height the window may be given.
    pub max_height: u32,
}

/// The larger of two pixel counts.
pub open spec fn larger(a: u32, b: u32) -> u32 {
    if a >= b {
        a
    } else {
        b
    }
}

impl Default for WindowResizeConstraints {
    /// A window of at least 180 by 120, with no upper limit.
    fn default() -> (r: Self)
        ensures
            r == (WindowResizeConstraints {
                min_width: 180,
                min_height: 120,
                max_width: u32::MAX,
                max_height: u32::MAX,
            }),
    {
        Self { min_width: 180, min_height: 120, max_width: u32::MAX, max_height: u32::MAX }
    }
}

impl WindowResizeConstraints {
    /// Whether the limits can be met: each minimum is at least one pixel and
    /// no maximum lies below its minimum.
    pub open spec fn consistent(&self) -> bool {
        &&& 1 <= self.min_width <= self.max_width
        &&& 1 <= self.min_height <= self.max_height
    }

    /// What `check_constraints` makes of these limits.
    pub open spec fn checked(&self) -> WindowResizeConstraints {
        let min_width = larger(self.min_width, 1);
        let min_height = larger(self.min_height, 1);
        WindowResizeConstraints {
            min_width,
            min_height,
            max_width: larger(self.max_width, min_width),
            max_height: larger(self.max_height, min_height),
        }
    }

    /// The same limits made consistent. A minimum below one pixel is raised
    /// to one, and a maximum below its minimum is raised to that minimum.
    /// Limits are corrected, never refused.
    #[must_use]
    pub fn check_constraints(&self) -> (r: Self)
        ensures
            r == self.checked(),
            r.consistent(),
            self.consistent() ==> r == *self,
    {
        let mut min_width = self.min_width;
        let mut min_height = self.min_height;
        let mut max_width = self.max_width;
        let mut max_height = self.max_height;
        if min_width < 1 {
            min_width = 1;
        }
        if min_height < 1 {
            min_height = 1;
        }
        if max_width < min_width {
            max_width = min_width;
        }
        if max_height < min_height {
            max_height = min_height;
        }
        WindowResizeConstraints { min_width, min_height, max_width, max_height }
    }
}

/// Describes the information needed for creating a window.
#[derive(Debug, Clone)]
pub struct WindowSettings {
    /// Sets the title that displays on the window top bar, on the system task
    /// bar and other OS specific places.
    pub title: String,
    /// The requested width of the window's client area.
    pub width: u32,
    /// The requested height of the window's client area.
    pub height: u32,
    /// Sets whether the background of the window should be transparent.
    pub transparent: bool,
    /// Sets whether the window is resizable.
    pub resizable: bool,
    /// Sets whether the window should have borders and bars.
    pub decorations: bool,
    /// Sets whether the cursor is visible when the window has focus.
    pub cursor_visible: bool,
    /// Sets whether the window locks the cursor inside its borders when the
    /// window has focus.
    pub cursor_locked: bool,
    /// Whether or not to fit the canvas element's size to its parent
    /// element's size. This value has no effect outside a browser.
    pub fit_canvas_to_parent: bool,
    /// Controls when a frame is presented to the screen.
    pub present_mode: PresentMode,
    /// The position on the screen that the window will be placed at.
    pub position: WindowPosition,
    /// Sets minimum and maximum resize limits.
    pub resize_constraints: WindowResizeConstraints,
    /// Overrides the window's ratio of physical pixels to logical pixels.
    pub scale_factor_override: Option<ScaleFactor>,
    /// Sets the way the window is displayed.
    pub window_mode: WindowMode,
    /// The selector of an existing canvas element to draw to, rather than
    /// creating a new one. This value has no effect outside a browser.
    pub canvas: Option<String>,
}

impl WindowSettings {
    /// Whether these are the settings a window has when nothing was asked
    /// for: a resizable, decorated, opaque window of 1280 by 720 titled
    /// "app", presented without waiting for the display.
    pub open spec fn is_default(&self) -> bool {
        &&& self.title@ == "app"@
        &&& self.width == 1280
        &&& self.height == 720
        &&& self.resizable
        &&& self.decorations
        &&& !self.cursor_locked
        &&& self.cursor_visible
        &&& !self.transparent
        &&& !self.fit_canvas_to_parent
        &&& self.present_mode == PresentMode::Immediate
        &&& self.position == WindowPosition::Automatic
        &&& self.resize_constraints == (WindowResizeConstraints {
            min_width: 180,
            min_height: 120,
            max_width: u32::MAX,
            max_height: u32::MAX,
        })
        &&& self.scale_factor_override is None
        &&& self.window_mode == WindowMode::Windowed
        &&& self.canvas is None
    }
}

impl Default for WindowSettings {
    fn default() -> (r: Self)
        ensures
            r.is_default(),
    {
        WindowSettings {
            title: "app".to_string(),
            width: 1280,
            height: 720,
            resizable: true,
            decorations: true,
            cursor_locked: false,
            cursor_visible: true,
            transparent: false,
            fit_canvas_to_parent: false,
            present_mode: PresentMode::Immediate,
            position: WindowPosition::Automatic,
            resize_constraints: WindowResizeConstraints::default(),
            scale_factor_override: None,
            window_mode: WindowMode::Windowed,
            canvas: None,
        }
    }
}

/// The way a window covers a monitor.
#[derive(Debug, Clone, Copy, PartialEq, Eq, Structural)]
pub enum Fullscreen {
    /// A borderless window over the whole of a monitor.
    Borderless {
        /// The position of the monitor among those on offer.
        monitor: usize,
    },
    /// The monitor is switched to one of its display modes.
    Exclusive {
        /// The position of the monitor among those on offer.
        monitor: usize,
        /// The position of the display mode among those of the monitor.
        video_mode: usize,
    },
}

/// Why no window can be created.
#[derive(Debug, Clone, Copy, PartialEq, Eq, Structural)]
pub enum WindowError {
    /// A fullscreen window was asked for and there is no monitor.
    NoMonitor,
    /// Exclusive fullscreen was asked for and the monitor offers no display
    /// mode.
    NoVideoMode,
    /// The window mode is one in which no window can be created.
    UnsupportedMode,
}

/// Everything that is decided about a window before it is created.
#[derive(Debug, Clone)]
pub struct WindowPlan {
    /// The title of the window.
    pub title: String,
    /// The width of the client area in physical pixels.
    pub width: u32,
    /// The height of the client area in physical pixels.
    pub height: u32,
    /// Whether the background is transparent.
    pub transparent: bool,
    /// Whether the user may resize the window.
    pub resizable: bool,
    /// Whether the window has borders and bars.
    pub decorations: bool,
    /// How the window covers a monitor, if it does.
    pub fullscreen: Option<Fullscreen>,
}

/// How a window in `mode` covers the screen, given the display modes of each
/// monitor on offer and the size asked for. Fullscreen windows go to the
/// first monitor.
pub open spec fn fullscreen_choice(
    mode: WindowMode,
    monitors: Seq<Vec<VideoMode>>,
    width: u32,
    height: u32,
    choice: Result<Option<Fullscreen>, WindowError>,
) -> bool {
    match mode {
        WindowMode::Windowed => choice == Ok::<Option<Fullscreen>, WindowError>(None),
        WindowMode::SizedFullscreen => choice == Err::<Option<Fullscreen>, WindowError>(
            WindowError::UnsupportedMode,
        ),
        WindowMode::BorderlessFullscreen => if monitors.len() == 0 {
            choice == Err::<Option<Fullscreen>, WindowError>(WindowError::NoMonitor)
        } else {
            choice == Ok::<Option<Fullscreen>, WindowError>(
                Some(Fullscreen::Borderless { monitor: 0 }),
            )
        },
        WindowMode::Fullscreen => if monitors.len() == 0 {
            choice == Err::<Option<Fullscreen>, WindowError>(WindowError::NoMonitor)
        } else if monitors[0]@.len() == 0 {
            choice == Err::<Option<Fullscreen>, WindowError>(WindowError::NoVideoMode)
        } else {
            &&& choice matches Ok(Some(Fullscreen::Exclusive { monitor, video_mode }))
            &&& monitor == 0
            &&& is_fitting_videomode(monitors[0]@, width, height, video_mode as int)
        },
    }
}

/// Decides how a window in `mode` covers the screen.
pub fn choose_fullscreen(
    mode: WindowMode,
    monitors: &Vec<Vec<VideoMode>>,
    width: u32,
    height: u32,
) -> (choice: Result<Option<Fullscreen>, WindowError>)
    ensures
        fullscreen_choice(mode, monitors@, width, height, choice),
{
    match mode {
        WindowMode::Windowed => Ok(None),
        WindowMode::BorderlessFullscreen => {
            if monitors.len() == 0 {
                return Err(WindowError::NoMonitor);
            }
            Ok(Some(Fullscreen::Borderless { monitor: 0 }))
        },
        WindowMode::SizedFullscreen => Err(WindowError::UnsupportedMode),
        WindowMode::Fullscreen => {
            if monitors.len() == 0 {
                return Err(WindowError::NoMonitor);
            }
            if monitors[0].len() == 0 {
                return Err(WindowError::NoVideoMode);
            }
            let video_mode = get_fitting_videomode(&monitors[0], width, height);
            Ok(Some(Fullscreen::Exclusive { monitor: 0, video_mode }))
        },
    }
}

/// Plans the window that `win_settings` describe. `monitors` holds, for each
/// monitor on offer, the display modes it has.
///
/// The plan takes title, size, transparency, resizability and decorations
/// from the settings as they are. It fails where the settings ask for a
/// fullscreen window that cannot be had.
pub fn create_window(win_settings: &WindowSettings, monitors: &Vec<Vec<VideoMode>>) -> (plan:
    Result<WindowPlan, WindowError>)
    ensures
        match plan {
            Ok(p) => {
                &&& p.title == win_settings.title
                &&& p.width == win_settings.width
                &&& p.height == win_settings.height
                &&& p.transparent == win_settings.transparent
                &&& p.resizable == win_settings.resizable
                &&& p.decorations == win_settings.decorations
                &&& fullscreen_choice(
                    win_settings.window_mode,
                    monitors@,
                    win_settings.width,
                    win_settings.height,
                    Ok(p.fullscreen),
                )
            },
            Err(e) => fullscreen_choice(
                win_settings.window_mode,
                monitors@,
                win_settings.width,
                win_settings.height,
                Err(e),
            ),
        },
{
    let fullscreen = choose_fullscreen(
        win_settings.window_mode,
        monitors,
        win_settings.width,
        win_settings.height,
    )?;
    Ok(
        WindowPlan {
            title: win_settings.title.clone(),
            width: win_settings.width,
            height: win_settings.height,
            transparent: win_settings.transparent,
            resizable: win_settings.resizable,
            decorations: win_settings.decorations,
            fullscreen,
        },
    )
}

} // verus!
