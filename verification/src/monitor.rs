//! The display.

use crate::dpi::{rect_size, PhysicalPosition, PhysicalSize, Rect};
use crate::float::{Float32, Float64};
use vstd::prelude::*;

verus! {

/// What the application object of the system reports at one moment.
#[derive(Clone, Copy, Debug, PartialEq, Eq, Hash)]
pub struct AppSnapshot {
    /// The content area, relative to the window.
    pub content_rect: Rect,
    /// The window with its title bar. All zero until the system reports it.
    pub window_rect: Rect,
    pub scale: Float32,
    /// The size of the display in pixels. Zero where the system does not tell.
    pub display_width: u32,
    pub display_height: u32,
    /// In hertz.
    pub refresh_rate: u32,
}

/// The display. The platform has one.
#[derive(Clone, Copy, Debug, PartialEq, Eq, Hash)]
pub struct MonitorHandle {
    pub app: AppSnapshot,
}

/// How the display shows pictures.
#[derive(Clone, Copy, Debug, PartialEq, Eq, Hash)]
pub struct VideoMode {
    pub size: (u32, u32),
    pub bit_depth: u16,
    pub refresh_rate: u16,
    pub monitor: MonitorHandle,
}

/// The system tells the size of the display.
pub open spec fn display_known(app: AppSnapshot) -> bool {
    app.display_width > 0 && app.display_height > 0
}

/// The size of the display; that of the content where the system does not tell.
pub open spec fn display_size(app: AppSnapshot) -> PhysicalSize<u32> {
    if display_known(app) {
        PhysicalSize { width: app.display_width, height: app.display_height }
    } else {
        rect_size(app.content_rect)
    }
}

/// The point is on the display.
pub open spec fn on_display(app: AppSnapshot, x: Float64, y: Float64) -> bool {
    &&& display_known(app)
    &&& x.in_range(app.display_width)
    &&& y.in_range(app.display_height)
}

/// The displays: one.
pub open spec fn displays(app: AppSnapshot) -> Seq<MonitorHandle> {
    seq![MonitorHandle { app }]
}

/// The display, if the point is on it.
pub open spec fn monitor_at(app: AppSnapshot, x: Float64, y: Float64) -> Option<MonitorHandle> {
    if on_display(app, x, y) {
        Some(MonitorHandle { app })
    } else {
        None
    }
}

/// The one way in which the display shows pictures.
pub open spec fn only_video_mode(monitor: MonitorHandle) -> VideoMode {
    VideoMode {
        size: (display_size(monitor.app).width, display_size(monitor.app).height),
        bit_depth: 32,
        refresh_rate: (monitor.app.refresh_rate % 0x1_0000) as u16,
        monitor,
    }
}

/// The display, if the point is on it.
pub(crate) fn find_monitor(app: AppSnapshot, x: Float64, y: Float64) -> (r: Option<MonitorHandle>)
    ensures
        r == monitor_at(app, x, y),
{
    if app.display_width > 0 && app.display_height > 0 && x.is_in_range(app.display_width)
        && y.is_in_range(app.display_height) {
        Some(MonitorHandle { app })
    } else {
        None
    }
}

impl MonitorHandle {
    /// The display as the application object reports it.
    pub fn new(app: AppSnapshot) -> (r: MonitorHandle)
        ensures
            r.app == app,
    {
        MonitorHandle { app }
    }

    /// The name of the display.
    pub fn name(&self) -> (r: Option<String>)
        ensures
            r is Some,
            r->Some_0@ == "OpenHarmony Device"@,
    {
        Some("OpenHarmony Device".to_owned())
    }

    /// The size of the display; that of the content where the system does not
    /// tell.
    pub fn size(&self) -> (r: PhysicalSize<u32>)
        ensures
            r == display_size(self.app),
    {
        if self.app.display_width > 0 && self.app.display_height > 0 {
            PhysicalSize { width: self.app.display_width, height: self.app.display_height }
        } else {
            self.app.content_rect.size()
        }
    }

    /// Where the display is: at the origin.
    pub fn position(&self) -> (r: PhysicalPosition<i32>)
        ensures
            r == (PhysicalPosition { x: 0i32, y: 0i32 }),
    {
        PhysicalPosition { x: 0, y: 0 }
    }

    /// How many pixels make one unit of length.
    pub fn scale_factor(&self) -> (r: Float64)
        ensures
            r == self.app.scale.widened(),
    {
        self.app.scale.widen()
    }

    /// The ways in which the display shows pictures: one.
    pub fn video_modes(&self) -> (r: Vec<VideoMode>)
        ensures
            r@ == seq![only_video_mode(*self)],
    {
        let size = self.size();
        let rate: u32 = self.app.refresh_rate;
        assert((rate as u16) == rate % 0x1_0000) by (bit_vector);
        let mut modes: Vec<VideoMode> = Vec::new();
        modes.push(
            VideoMode {
                size: (size.width, size.height),
                bit_depth: 32,
                refresh_rate: rate as u16,
                monitor: *self,
            },
        );
        assert(modes@ =~= seq![only_video_mode(*self)]);
        modes
    }
}

impl VideoMode {
    pub fn size(&self) -> (r: PhysicalSize<u32>)
        ensures
            r == (PhysicalSize { width: self.size.0, height: self.size.1 }),
    {
        PhysicalSize { width: self.size.0, height: self.size.1 }
    }

    pub fn bit_depth(&self) -> (r: u16)
        ensures
            r == self.bit_depth,
    {
        self.bit_depth
    }

    pub fn refresh_rate(&self) -> (r: u16)
        ensures
            r == self.refresh_rate,
    {
        self.refresh_rate
    }

    pub fn monitor(&self) -> (r: MonitorHandle)
        ensures
            r == self.monitor,
    {
        self.monitor
    }
}

} // verus!
