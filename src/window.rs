use vstd::prelude::*;

use crate::text::{contains_seq, str_contains, str_equal};

verus! {

/// Identity of a top-level window; compared by identity only.
#[derive(Clone, Copy, Debug, PartialEq, Eq, Hash, Structural)]
pub struct WindowHandle(pub isize);

/// Identity of a display monitor; compared by identity only.
#[derive(Clone, Copy, Debug, PartialEq, Eq, Hash, Structural)]
pub struct MonitorHandle(pub isize);

/// What the compositor is asked to capture.
#[derive(Clone, Copy, Debug, PartialEq, Eq, Structural)]
pub enum CaptureTarget {
    Window(WindowHandle),
    Monitor(MonitorHandle),
}

/// A window together with its title and window class name.
#[derive(Clone, Debug)]
pub struct WindowInfo {
    pub handle: WindowHandle,
    pub title: String,
    pub class_name: String,
}

/// What `String::from_utf16_lossy` decodes from a sequence of UTF-16 code
/// units.
pub uninterp spec fn utf16_lossy(units: Seq<u16>) -> Seq<char>;

/// Relies on `String::from_utf16_lossy`: decodes UTF-16, putting the
/// replacement character in place of each invalid unit.
#[verifier::external_body]
fn decode_utf16_lossy(units: &[u16]) -> (r: String)
    ensures
        r@ == utf16_lossy(units@),
{
    String::from_utf16_lossy(units)
}

/// `cut` is `s` up to, and without, the first NUL character of `s`; all of
/// `s` when it has none.
pub open spec fn cut_at_null(s: Seq<char>, cut: Seq<char>) -> bool {
    &&& cut.len() <= s.len()
    &&& cut == s.take(cut.len() as int)
    &&& !cut.contains('\0')
    &&& cut.len() < s.len() ==> s[cut.len() as int] == '\0'
}

/// Cuts a string at its first NUL character, which a fixed-size text buffer
/// filled by the system leaves after the text.
pub fn truncate_to_first_null_char(input: &mut String)
    ensures
        cut_at_null(old(input)@, final(input)@),
{
    let n = input.as_str().unicode_len();
    let mut i: usize = 0;
    while i < n && input.as_str().get_char(i) != '\0'
        invariant
            n == input@.len(),
            i <= n,
            forall|k: int| 0 <= k < i ==> input@[k] != '\0',
        decreases n - i,
    {
        i = i + 1;
    }
    let ghost before = input@;
    let kept = input.as_str().substring_char(0, i);
    *input = String::from_str(kept);
    assert(input@ =~= before.take(i as int));
    assert(i < n ==> before[i as int] == '\0');
    assert forall|k: int| 0 <= k < input@.len() implies input@[k] != '\0' by {}
    assert(!input@.contains('\0'));
}

pub open spec fn is_blocked_title_and_class(title: Seq<char>, class_name: Seq<char>) -> bool {
    ||| title == "Task View"@ && class_name == "Windows.UI.Core.CoreWindow"@
    ||| title == "DesktopWindowXamlSource"@ && class_name == "Windows.UI.Core.CoreWindow"@
    ||| title == "PopupHost"@ && class_name == "Xaml_WindowedPopupClass"@
}

impl WindowInfo {
    /// A window's record from the UTF-16 buffers that the system filled with
    /// its title and its class name; each is cut at its first NUL.
    pub fn new(window_handle: WindowHandle, title_units: &[u16], class_units: &[u16]) -> (r: Self)
        ensures
            r.handle == window_handle,
            cut_at_null(utf16_lossy(title_units@), r.title@),
            cut_at_null(utf16_lossy(class_units@), r.class_name@),
    {
        let mut title = decode_utf16_lossy(title_units);
        truncate_to_first_null_char(&mut title);
        let mut class_name = decode_utf16_lossy(class_units);
        truncate_to_first_null_char(&mut class_name);
        WindowInfo { handle: window_handle, title, class_name }
    }

    pub fn matches_title_and_class_name(&self, title: &str, class_name: &str) -> (r: bool)
        ensures
            r == (self.title@ == title@ && self.class_name@ == class_name@),
    {
        str_equal(self.title.as_str(), title) && str_equal(self.class_name.as_str(), class_name)
    }
}

/// Windows of the shell that report themselves as capturable but show
/// nothing useful: Task View, XAML islands and XAML popups.
pub fn is_known_blocked_window(window_info: &WindowInfo) -> (r: bool)
    ensures
        r == is_blocked_title_and_class(window_info.title@, window_info.class_name@),
{
    window_info.matches_title_and_class_name("Task View", "Windows.UI.Core.CoreWindow")
        || window_info.matches_title_and_class_name(
        "DesktopWindowXamlSource",
        "Windows.UI.Core.CoreWindow",
    ) || window_info.matches_title_and_class_name("PopupHost", "Xaml_WindowedPopupClass")
}

/// `WS_DISABLED`.
pub const WS_DISABLED: u32 = 0x0800_0000;

/// `WS_EX_TOOLWINDOW`.
pub const WS_EX_TOOLWINDOW: u32 = 0x0000_0080;

/// `DWM_CLOAKED_SHELL`.
pub const DWM_CLOAKED_SHELL: u32 = 2;

/// A window together with what the system reported about it.
#[derive(Clone, Debug)]
pub struct ObservedWindow {
    pub info: WindowInfo,
    /// The shell's desktop window.
    pub shell_window: WindowHandle,
    pub visible: bool,
    /// The root of the window's chain of parents.
    pub root: WindowHandle,
    pub style: u32,
    pub ex_style: u32,
    /// The cloaking state that the window manager reported, if it could be
    /// read.
    pub cloaked: Option<u32>,
}

pub open spec fn is_uwp_class(class_name: Seq<char>) -> bool {
    class_name == "Windows.UI.Core.CoreWindow"@ || class_name == "ApplicationFrameWindow"@
}

/// A window can be offered for capture: it has a title, is a visible
/// top-level window other than the shell's, is neither disabled nor a tool
/// window, is not an app window that the shell keeps cloaked, and is not one
/// of the known blocked shell windows.
pub open spec fn spec_capturable(w: ObservedWindow) -> bool {
    &&& w.info.title@.len() > 0
    &&& w.info.handle != w.shell_window
    &&& w.visible
    &&& w.root == w.info.handle
    &&& w.style & WS_DISABLED == 0
    &&& w.ex_style & WS_EX_TOOLWINDOW == 0
    &&& !(is_uwp_class(w.info.class_name@) && w.cloaked == Some(DWM_CLOAKED_SHELL))
    &&& !is_blocked_title_and_class(w.info.title@, w.info.class_name@)
}

/// Something that may or may not be offered to the user for capture.
pub trait CaptureWindowCandidate {
    spec fn capturable(&self) -> bool;

    fn is_capturable_window(&self) -> (r: bool)
        ensures
            r == self.capturable(),
    ;
}

impl CaptureWindowCandidate for ObservedWindow {
    open spec fn capturable(&self) -> bool {
        spec_capturable(*self)
    }

    fn is_capturable_window(&self) -> (r: bool) {
        if self.info.title.as_str().unicode_len() == 0 || self.info.handle == self.shell_window
            || !self.visible || self.root != self.info.handle {
            return false;
        }
        if self.style & WS_DISABLED != 0 {
            return false;
        }
        if self.ex_style & WS_EX_TOOLWINDOW != 0 {
            return false;
        }
        let class_name = self.info.class_name.as_str();
        if str_equal(class_name, "Windows.UI.Core.CoreWindow") || str_equal(
            class_name,
            "ApplicationFrameWindow",
        ) {
            if let Some(state) = self.cloaked {
                if state == DWM_CLOAKED_SHELL {
                    return false;
                }
            }
        }
        !is_known_blocked_window(&self.info)
    }
}

fn copy_window_info(w: &WindowInfo) -> (r: WindowInfo)
    ensures
        r == *w,
{
    WindowInfo { handle: w.handle, title: w.title.clone(), class_name: w.class_name.clone() }
}

/// A window is listed for selection when it is capturable and is not the
/// console window this tool runs in.
pub open spec fn listed(w: ObservedWindow, console_window: Option<WindowHandle>) -> bool {
    spec_capturable(w) && console_window != Some(w.info.handle)
}

/// The records of the listed windows among `ws`, in order.
pub open spec fn listed_windows(ws: Seq<ObservedWindow>, console_window: Option<WindowHandle>) -> Seq<
    WindowInfo,
>
    decreases ws.len(),
{
    if ws.len() == 0 {
        Seq::empty()
    } else {
        let rest = listed_windows(ws.drop_last(), console_window);
        if listed(ws.last(), console_window) {
            rest.push(ws.last().info)
        } else {
            rest
        }
    }
}

/// The windows, in the order the system enumerated them, that can be offered
/// for capture.
pub fn select_capturable_windows(
    observed: &Vec<ObservedWindow>,
    console_window: Option<WindowHandle>,
) -> (r: Vec<WindowInfo>)
    ensures
        r@ == listed_windows(observed@, console_window),
{
    let mut out: Vec<WindowInfo> = Vec::new();
    let mut i: usize = 0;
    while i < observed.len()
        invariant
            i <= observed@.len(),
            out@ == listed_windows(observed@.take(i as int), console_window),
        decreases observed@.len() - i,
    {
        let w = &observed[i];
        assert(observed@.take(i + 1).drop_last() =~= observed@.take(i as int));
        let skip = match console_window {
            Some(c) => c == w.info.handle,
            None => false,
        };
        if !skip && w.is_capturable_window() {
            out.push(copy_window_info(&w.info));
        }
        i = i + 1;
    }
    assert(observed@.take(observed@.len() as int) =~= observed@);
    out
}

/// What `str::to_lowercase` returns for a string.
pub uninterp spec fn lower_of(s: Seq<char>) -> Seq<char>;

/// Relies on `str::to_lowercase`: the lowercase form, by Unicode's mapping.
#[verifier::external_body]
pub(crate) fn lowercase(s: &str) -> (r: String)
    ensures
        r@ == lower_of(s@),
{
    s.to_lowercase()
}

/// A title matches a query when the lowercase query occurs in the lowercase
/// title.
pub open spec fn title_matches(title: Seq<char>, query: Seq<char>) -> bool {
    contains_seq(lower_of(title), lower_of(query))
}

/// Whether an already lowercased query occurs in an already lowercased
/// title.
pub fn lowered_title_contains(title_lower: &str, query_lower: &str) -> (r: bool)
    ensures
        r == contains_seq(title_lower@, query_lower@),
{
    str_contains(title_lower, query_lower)
}

/// The windows whose title contains `window_name`, ignoring case, in order.
pub fn find_window(windows: &Vec<WindowInfo>, window_name: &str) -> (r: Vec<WindowInfo>)
    ensures
        r@ == windows@.filter(|w: WindowInfo| title_matches(w.title@, window_name@)),
{
    let query = lowercase(window_name);
    let mut out: Vec<WindowInfo> = Vec::new();
    let mut i: usize = 0;
    while i < windows.len()
        invariant
            i <= windows@.len(),
            query@ == lower_of(window_name@),
            out@ == windows@.take(i as int).filter(
                |w: WindowInfo| title_matches(w.title@, window_name@),
            ),
        decreases windows@.len() - i,
    {
        let w = &windows[i];
        proof {
            reveal(Seq::filter);
        }
        assert(windows@.take(i + 1).drop_last() =~= windows@.take(i as int));
        let title = lowercase(w.title.as_str());
        if lowered_title_contains(title.as_str(), query.as_str()) {
            out.push(copy_window_info(w));
        }
        i = i + 1;
    }
    assert(windows@.take(windows@.len() as int) =~= windows@);
    out
}

} // verus!
