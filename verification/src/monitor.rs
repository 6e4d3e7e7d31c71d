//! The device's display.
use crate::geometry::{PhysicalPosition, PhysicalSize, Rect};
use std::collections::VecDeque;
use vstd::prelude::*;

verus! {

/// The display that an application is shown on; `A` is the type of the application's handle.
#[derive(Debug, PartialEq, Eq, PartialOrd, Ord, Hash)]
pub struct MonitorHandle<A> {
    pub app: A,
}

impl<A: Clone> Clone for MonitorHandle<A> {
    fn clone(&self) -> (other: MonitorHandle<A>)
        ensures
            cloned(self.app, other.app),
    {
        MonitorHandle { app: self.app.clone() }
    }
}

impl<A: Clone> MonitorHandle<A> {
    /// The display of an application.
    pub fn new(app: A) -> (monitor: MonitorHandle<A>)
        ensures
            monitor.app == app,
    {
        MonitorHandle { app }
    }

    /// The name of the display.
    pub fn name(&self) -> (name: Option<String>)
        ensures
            name matches Some(text) && text@ == "OpenHarmony Device"@,
    {
        Some("OpenHarmony Device".to_owned())
    }

    /// The size of the display, which is that of the application's content area.
    pub fn size(&self, content: &Rect) -> (size: PhysicalSize)
        ensures
            size == content.size(),
    {
        content.physical_size()
    }

    /// The position of the display.
    pub fn position(&self) -> (position: PhysicalPosition<i32>)
        ensures
            position == (PhysicalPosition { x: 0i32, y: 0i32 }),
    {
        PhysicalPosition { x: 0, y: 0 }
    }

    /// The modes of the display: a single one, of the size of the content area.
    pub fn video_modes(&self, content: &Rect) -> (modes: Vec<VideoMode<A>>)
        ensures
            modes@.len() == 1,
            modes@[0].is_mode_of(*self, *content),
    {
        let size = self.size(content);
        let mut modes: Vec<VideoMode<A>> = Vec::new();
        modes.push(
            VideoMode {
                size: (size.width, size.height),
                bit_depth: 32,
                refresh_rate: 60,
                monitor: self.clone(),
            },
        );
        modes
    }
}

/// A mode of the display.
#[derive(Debug, PartialEq, Eq, Hash)]
pub struct VideoMode<A> {
    size: (u32, u32),
    bit_depth: u16,
    refresh_rate: u16,
    monitor: MonitorHandle<A>,
}

impl<A: Clone> Clone for VideoMode<A> {
    fn clone(&self) -> (other: VideoMode<A>)
        ensures
            other.extents() == self.extents(),
            other.depth() == self.depth(),
            other.rate() == self.rate(),
            cloned(self.display().app, other.display().app),
    {
        VideoMode {
            size: self.size,
            bit_depth: self.bit_depth,
            refresh_rate: self.refresh_rate,
            monitor: self.monitor.clone(),
        }
    }
}

impl<A: Clone> VideoMode<A> {
    /// Width and height.
    pub closed spec fn extents(self) -> (u32, u32) {
        self.size
    }

    /// Bits per pixel.
    pub closed spec fn depth(self) -> u16 {
        self.bit_depth
    }

    /// Frames per second.
    pub closed spec fn rate(self) -> u16 {
        self.refresh_rate
    }

    /// The display.
    pub closed spec fn display(self) -> MonitorHandle<A> {
        self.monitor
    }

    /// Whether this is the mode of a display with the given content area.
    pub open spec fn is_mode_of(self, monitor: MonitorHandle<A>, content: Rect) -> bool {
        &&& self.extents() == (content.size().width, content.size().height)
        &&& self.depth() == 32
        &&& self.rate() == 60
        &&& cloned(monitor.app, self.display().app)
    }

    /// The size of the display in this mode.
    pub fn size(&self) -> (size: PhysicalSize)
        ensures
            size.width == self.extents().0,
            size.height == self.extents().1,
    {
        PhysicalSize { width: self.size.0, height: self.size.1 }
    }

    /// Bits per pixel.
    pub fn bit_depth(&self) -> (bits: u16)
        ensures
            bits == self.depth(),
    {
        self.bit_depth
    }

    /// Frames per second.
    pub fn refresh_rate(&self) -> (rate: u16)
        ensures
            rate == self.rate(),
    {
        self.refresh_rate
    }

    /// The display that has this mode.
    pub fn monitor(&self) -> (monitor: MonitorHandle<A>)
        ensures
            cloned(self.display().app, monitor.app),
    {
        self.monitor.clone()
    }
}

/// The displays of an application: the only one.
pub(crate) fn monitors_of<A: Clone>(app: &A) -> (monitors: VecDeque<MonitorHandle<A>>)
    ensures
        monitors@.len() == 1,
        cloned(*app, monitors@[0].app),
{
    let mut monitors: VecDeque<MonitorHandle<A>> = VecDeque::with_capacity(1);
    monitors.push_back(MonitorHandle::new(app.clone()));
    monitors
}

/// The mode of a display is as wide and as high as the content area, has thirty-two bits per pixel
/// and sixty frames per second.
pub proof fn law_mode_of_display<A: Clone>(
    mode: VideoMode<A>,
    monitor: MonitorHandle<A>,
    content: Rect,
)
    requires
        mode.is_mode_of(monitor, content),
    ensures
        content.width >= 0 ==> mode.extents().0 == content.width,
        content.height >= 0 ==> mode.extents().1 == content.height,
        content.width < 0 ==> mode.extents().0 == content.width + 0x1_0000_0000,
        content.height < 0 ==> mode.extents().1 == content.height + 0x1_0000_0000,
        mode.depth() == 32,
        mode.rate() == 60,
        cloned(monitor.app, mode.display().app),
{
}

/// A display has one mode, which is as wide and as high as the content area.
pub proof fn law_display_has_one_mode<A: Clone>(
    monitor: MonitorHandle<A>,
    content: Rect,
    modes: Vec<VideoMode<A>>,
)
    requires
        call_ensures(MonitorHandle::<A>::video_modes, (&monitor, &content), modes),
    ensures
        modes@.len() == 1,
        content.width >= 0 ==> modes@[0].extents().0 == content.width,
        content.height >= 0 ==> modes@[0].extents().1 == content.height,
        modes@[0].depth() == 32,
        modes@[0].rate() == 60,
{
}

/// A display and its mode have one size.
pub proof fn law_display_and_mode_agree<A: Clone>(
    mode: VideoMode<A>,
    monitor: MonitorHandle<A>,
    content: Rect,
    of_display: PhysicalSize,
    of_mode: PhysicalSize,
)
    requires
        mode.is_mode_of(monitor, content),
        call_ensures(MonitorHandle::<A>::size, (&monitor, &content), of_display),
        call_ensures(VideoMode::<A>::size, (&mode,), of_mode),
    ensures
        of_display == of_mode,
        content.width >= 0 ==> of_display.width == content.width,
        content.height >= 0 ==> of_display.height == content.height,
{
}

} // verus!
