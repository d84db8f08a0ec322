//! Showing dreams in web views: which windows are opened for the
//! monitors of the machine.

use crate::text::{decimal_digits, decimal_text};
use vstd::prelude::*;

verus! {

/// The page that shows a dream.
pub const RUNNER_PAGE: &'static str = "index.html";

/// The label of the window on the primary monitor.
pub const PRIMARY_LABEL: &'static str = "primary";

/// One monitor, as the windowing layer reports it.
#[derive(Debug)]
pub struct Monitor {
    pub name: Option<String>,
    /// The physical position of the monitor.
    pub x: i32,
    pub y: i32,
    /// The physical size of the monitor.
    pub width: u32,
    pub height: u32,
    /// The scale factor of the monitor, as the bits of a 64-bit float.
    pub scale_bits: u64,
}

/// What a monitor holds.
pub struct MonitorView {
    pub name: Option<Seq<char>>,
    pub x: i32,
    pub y: i32,
    pub width: u32,
    pub height: u32,
    pub scale_bits: u64,
}

impl View for Monitor {
    type V = MonitorView;

    open spec fn view(&self) -> MonitorView {
        MonitorView {
            name: match self.name {
                Some(n) => Some(n@),
                None => None,
            },
            x: self.x,
            y: self.y,
            width: self.width,
            height: self.height,
            scale_bits: self.scale_bits,
        }
    }
}

/// The window to open on one of the other monitors. It covers its
/// monitor and stays hidden until its page has loaded.
#[derive(Debug)]
pub struct ExtraWindow {
    /// The label of the window.
    pub label: String,
    /// The physical position of the monitor. The window is put at the
    /// logical position: the physical one divided by the scale factor.
    pub x: i32,
    pub y: i32,
    /// The scale factor of the monitor, as the bits of a 64-bit float.
    pub scale_bits: u64,
}

/// What the plan of a window holds.
pub struct ExtraWindowView {
    pub label: Seq<char>,
    pub x: i32,
    pub y: i32,
    pub scale_bits: u64,
}

impl View for ExtraWindow {
    type V = ExtraWindowView;

    open spec fn view(&self) -> ExtraWindowView {
        ExtraWindowView { label: self.label@, x: self.x, y: self.y, scale_bits: self.scale_bits }
    }
}

/// Whether two monitors are taken to be the same one: they agree in name,
/// position and size.
pub open spec fn same_monitor(a: MonitorView, b: MonitorView) -> bool {
    a.name == b.name && a.x == b.x && a.y == b.y && a.width == b.width && a.height == b.height
}

/// The label of the window on the monitor at place `index`.
pub open spec fn extra_label(index: nat) -> Seq<char> {
    "extra"@ + decimal_digits(index)
}

/// The window for the monitor at place `index`.
pub open spec fn extra_window(monitor: MonitorView, index: nat) -> ExtraWindowView {
    ExtraWindowView {
        label: extra_label(index),
        x: monitor.x,
        y: monitor.y,
        scale_bits: monitor.scale_bits,
    }
}

/// The windows for the monitors other than the primary one, in the order
/// of the monitors.
pub open spec fn extra_windows(primary: MonitorView, monitors: Seq<MonitorView>) -> Seq<
    ExtraWindowView,
>
    decreases monitors.len(),
{
    if monitors.len() == 0 {
        Seq::empty()
    } else {
        let front = extra_windows(primary, monitors.drop_last());
        if same_monitor(primary, monitors.last()) {
            front
        } else {
            front.push(extra_window(monitors.last(), (monitors.len() - 1) as nat))
        }
    }
}

/// Whether two monitors are taken to be the same one.
pub fn compare_monitors(a: &Monitor, b: &Monitor) -> (same: bool)
    ensures
        same == same_monitor(a@, b@),
{
    let same_name = match &a.name {
        Some(x) => match &b.name {
            Some(y) => *x == *y,
            None => false,
        },
        None => b.name.is_none(),
    };
    same_name && a.x == b.x && a.y == b.y && a.width == b.width && a.height == b.height
}

/// Displays dreams: creates the windows and runs the dream in them.
#[derive(Debug)]
pub struct DreamRunner {}

impl DreamRunner {
    /// Creates the runner. This never fails.
    pub fn new() -> (runner: Result<DreamRunner, String>)
        ensures
            runner is Ok,
    {
        Ok(DreamRunner {  })
    }

    /// Plans the windows besides the primary one: none unless more
    /// monitors are to be covered, else one for every monitor that is not
    /// the one of the primary window.
    pub fn extra_windows(
        &self,
        need_multiscreen: bool,
        primary_monitor: &Monitor,
        monitors: &Vec<Monitor>,
    ) -> (windows: Vec<ExtraWindow>)
        ensures
            windows@.map_values(|w: ExtraWindow| w@) == if need_multiscreen {
                extra_windows(primary_monitor@, monitors@.map_values(|m: Monitor| m@))
            } else {
                Seq::empty()
            },
    {
        let mut windows: Vec<ExtraWindow> = Vec::new();
        let ghost all = monitors@.map_values(|m: Monitor| m@);
        if !need_multiscreen {
            return windows;
        }
        let mut i: usize = 0;
        while i < monitors.len()
            invariant
                i <= monitors.len(),
                all == monitors@.map_values(|m: Monitor| m@),
                windows@.map_values(|w: ExtraWindow| w@) == extra_windows(
                    primary_monitor@,
                    all.take(i as int),
                ),
            decreases monitors.len() - i,
        {
            let monitor = &monitors[i];
            proof {
                assert(all.take(i + 1).drop_last() =~= all.take(i as int));
            }
            if !compare_monitors(primary_monitor, monitor) {
                let mut label = String::from_str("extra");
                label.append(decimal_text(i).as_str());
                let window = ExtraWindow {
                    label,
                    x: monitor.x,
                    y: monitor.y,
                    scale_bits: monitor.scale_bits,
                };
                windows.push(window);
            }
            i += 1;
        }
        assert(all.take(i as int) =~= all);
        windows
    }
}

} // verus!
