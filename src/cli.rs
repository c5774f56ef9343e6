use vstd::prelude::*;

verus! {

/// The command line: what to capture and where to write it.
#[derive(Clone, Debug)]
pub struct Args {
    /// Capture a window whose title contains this text.
    pub window: Option<String>,
    /// Capture the monitor with this 1-based index.
    pub monitor: Option<usize>,
    /// Capture the primary monitor (also what happens when nothing else is
    /// asked for).
    pub primary: bool,
    /// The image file to write.
    pub output_file: String,
}

/// What the command line asks to capture.
#[derive(Clone, Debug)]
pub enum CaptureMode {
    Window(String),
    Monitor(usize),
    Primary,
}

pub open spec fn spec_capture_mode(args: Args) -> CaptureMode {
    match args.window {
        Some(query) => CaptureMode::Window(query),
        None => match args.monitor {
            Some(id) => CaptureMode::Monitor(id),
            None => CaptureMode::Primary,
        },
    }
}

impl Args {
    /// A window query wins over a monitor index, which wins over the primary
    /// monitor.
    pub fn capture_mode(&self) -> (r: CaptureMode)
        ensures
            r == spec_capture_mode(*self),
    {
        match &self.window {
            Some(window_query) => CaptureMode::Window(window_query.clone()),
            None => match self.monitor {
                Some(index) => CaptureMode::Monitor(index),
                None => CaptureMode::Primary,
            },
        }
    }
}

/// Why a monitor id names no monitor.
#[derive(Clone, Copy, Debug, PartialEq, Eq, Structural)]
pub enum MonitorIdError {
    /// Monitor ids start at 1.
    Zero,
    /// The id is higher than the number of displays.
    OutOfRange,
}

/// The position, among `display_count` enumerated displays, of the monitor
/// with 1-based id `id`.
pub fn monitor_index(id: usize, display_count: usize) -> (r: Result<usize, MonitorIdError>)
    ensures
        id == 0 ==> r == Err::<usize, MonitorIdError>(MonitorIdError::Zero),
        id > display_count && id != 0 ==> r == Err::<usize, MonitorIdError>(
            MonitorIdError::OutOfRange,
        ),
        0 < id <= display_count ==> r == Ok::<usize, MonitorIdError>((id - 1) as usize),
{
    if id == 0 {
        return Err(MonitorIdError::Zero);
    }
    let index = id - 1;
    if index >= display_count {
        return Err(MonitorIdError::OutOfRange);
    }
    Ok(index)
}

} // verus!
