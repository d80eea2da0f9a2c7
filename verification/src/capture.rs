use vstd::prelude::*;

use crate::bitmap::{bmp_stream, encode};
use crate::error::{Error, ErrorV};
use crate::geometry::{check_geom, geom_ok, rect_height, rect_size, rect_width, PixelRect};

verus! {

/// One operating-system call that the capture pipeline asks its driver to
/// perform next. Window, surface and buffer handles are carried as opaque
/// 64-bit identifiers chosen by the driver.
#[derive(Debug, PartialEq, Eq)]
pub enum OsAction {
    /// Find the top-level window whose title matches exactly.
    FindWindow { title: String },
    /// Ask for the window owning the current console and for its parent.
    QueryConsole,
    /// Open a drawing surface: for the whole display when `window` is
    /// absent, else for the window's full frame (`desktop`) or client area.
    OpenSurface { window: Option<u64>, desktop: bool },
    /// Measure the display (when `window` is absent) or the window's frame
    /// or client rectangle, by the same mode as `OpenSurface`.
    Measure { window: Option<u64>, desktop: bool },
    /// Create an offscreen pixel buffer compatible with the surface.
    CreateBuffer { surface: u64, width: u32, height: u32 },
    /// Block-copy the surface into the buffer starting at the origin.
    Blit { buffer: u64, source: u64, width: u32, height: u32 },
    /// Block-copy out of the surface starting at `(left, top)`.
    ClipBlit { buffer: u64, source: u64, left: i32, top: i32, width: u32, height: u32 },
    /// Read the buffer's raw 32-bit pixel rows back.
    ReadPixels { buffer: u64, width: u32, height: u32 },
}

/// Mathematical model of an `OsAction`.
pub enum ActionV {
    FindWindow { title: Seq<char> },
    QueryConsole,
    OpenSurface { window: Option<u64>, desktop: bool },
    Measure { window: Option<u64>, desktop: bool },
    CreateBuffer { surface: u64, width: u32, height: u32 },
    Blit { buffer: u64, source: u64, width: u32, height: u32 },
    ClipBlit { buffer: u64, source: u64, left: i32, top: i32, width: u32, height: u32 },
    ReadPixels { buffer: u64, width: u32, height: u32 },
}

impl View for OsAction {
    type V = ActionV;

    open spec fn view(&self) -> ActionV {
        match self {
            OsAction::FindWindow { title } => ActionV::FindWindow { title: title@ },
            OsAction::QueryConsole => ActionV::QueryConsole,
            OsAction::OpenSurface { window, desktop } => ActionV::OpenSurface {
                window: *window,
                desktop: *desktop,
            },
            OsAction::Measure { window, desktop } => ActionV::Measure {
                window: *window,
                desktop: *desktop,
            },
            OsAction::CreateBuffer { surface, width, height } => ActionV::CreateBuffer {
                surface: *surface,
                width: *width,
                height: *height,
            },
            OsAction::Blit { buffer, source, width, height } => ActionV::Blit {
                buffer: *buffer,
                source: *source,
                width: *width,
                height: *height,
            },
            OsAction::ClipBlit { buffer, source, left, top, width, height } => ActionV::ClipBlit {
                buffer: *buffer,
                source: *source,
                left: *left,
                top: *top,
                width: *width,
                height: *height,
            },
            OsAction::ReadPixels { buffer, width, height } => ActionV::ReadPixels {
                buffer: *buffer,
                width: *width,
                height: *height,
            },
        }
    }
}

/// What the operating system answered to the last action. An `Err` carries
/// the platform error code of the failed call.
#[derive(Debug, PartialEq, Eq)]
pub enum OsEvent {
    /// Answer to `FindWindow`.
    Window(Result<u64, i32>),
    /// Answer to `QueryConsole`: the console window and its parent, if any.
    Console { window: u64, parent: Option<u64> },
    /// Answer to `OpenSurface`.
    Surface(Result<u64, i32>),
    /// Answer to `Measure`.
    Rect(Result<PixelRect, i32>),
    /// Answer to `CreateBuffer`.
    Buffer(Result<u64, i32>),
    /// Answer to `Blit` or `ClipBlit`.
    Copied(Result<(), i32>),
    /// Answer to `ReadPixels`: the buffer's raw pixel bytes.
    Pixels(Result<Vec<u8>, i32>),
}

/// Mathematical model of an `OsEvent`.
pub enum EventV {
    Window(Result<u64, i32>),
    Console { window: u64, parent: Option<u64> },
    Surface(Result<u64, i32>),
    Rect(Result<PixelRect, i32>),
    Buffer(Result<u64, i32>),
    Copied(Result<(), i32>),
    Pixels(Result<Seq<u8>, i32>),
}

impl View for OsEvent {
    type V = EventV;

    open spec fn view(&self) -> EventV {
        match self {
            OsEvent::Window(r) => EventV::Window(*r),
            OsEvent::Console { window, parent } => EventV::Console {
                window: *window,
                parent: *parent,
            },
            OsEvent::Surface(r) => EventV::Surface(*r),
            OsEvent::Rect(r) => EventV::Rect(*r),
            OsEvent::Buffer(r) => EventV::Buffer(*r),
            OsEvent::Copied(r) => EventV::Copied(*r),
            OsEvent::Pixels(r) => EventV::Pixels(
                match r {
                    Ok(v) => Ok(v@),
                    Err(c) => Err(*c),
                },
            ),
        }
    }
}

/// Where the capture pipeline stands: which answer it is waiting for, and
/// what it has established so far.
#[derive(Debug, Clone, Copy, PartialEq, Eq)]
pub enum CaptureState {
    /// A title lookup is under way.
    AwaitWindow { desktop: bool, clip: bool },
    /// The console window and its parent are being resolved.
    AwaitConsole { desktop: bool, clip: bool },
    /// A surface for the target is being opened (direct path).
    AwaitSurface { window: Option<u64>, desktop: bool },
    /// The target is being measured (direct path).
    AwaitRect { surface: u64 },
    /// The offscreen buffer is being created (direct path).
    AwaitBuffer { surface: u64, width: u32, height: u32 },
    /// A surface for the hosting frame is being opened (hosted console).
    AwaitHostSurface { child: u64 },
    /// The hosted console window is being measured.
    AwaitHostRect { surface: u64 },
    /// The buffer sized to the hosted console is being created.
    AwaitHostBuffer { width: u32, height: u32, left: i32, top: i32 },
    /// The full-screen surface to clip from is being opened (hosted console).
    AwaitHostFull { buffer: u64, width: u32, height: u32, left: i32, top: i32 },
    /// The full-screen surface is being opened (requested clipping).
    AwaitClipSurface { window: u64, desktop: bool },
    /// The target window is being measured (requested clipping).
    AwaitClipRect { surface: u64 },
    /// The buffer sized to the target window is being created (clipping).
    AwaitClipBuffer { surface: u64, width: u32, height: u32, left: i32, top: i32 },
    /// Pixels are being copied into the buffer.
    AwaitCopy { buffer: u64, width: u32, height: u32 },
    /// The buffer's pixel bytes are being read back.
    AwaitPixels { width: u32, height: u32 },
}

/// One step of the pipeline: either a next state together with the action
/// the driver must perform, or the finished result.
#[derive(Debug, PartialEq, Eq)]
pub enum Step {
    Continue { state: CaptureState, action: OsAction },
    Done { result: Result<Vec<u8>, Error> },
}

/// Mathematical model of a `Step`.
pub enum StepV {
    Continue { state: CaptureState, action: ActionV },
    Done { result: Result<Seq<u8>, ErrorV> },
}

impl View for Step {
    type V = StepV;

    open spec fn view(&self) -> StepV {
        match self {
            Step::Continue { state, action } => StepV::Continue {
                state: *state,
                action: action@,
            },
            Step::Done { result } => StepV::Done { result: result_view(result) },
        }
    }
}

/// Model of a finished capture: the byte stream, or how it failed.
pub open spec fn result_view(r: &Result<Vec<u8>, Error>) -> Result<Seq<u8>, ErrorV> {
    match r {
        Ok(v) => Ok(v@),
        Err(e) => Err(e@),
    }
}

/// The message of the usage error for a hosted console frame captured
/// without desktop or full-screen mode.
pub open spec fn usage_message() -> Seq<char> {
    "Need to specify `--desktop` or `--fullscreen` option."@
}

/// The message of the error for a measured rectangle that cannot back a
/// bitmap file.
pub open spec fn geometry_message() -> Seq<char> {
    "The measured rectangle does not fit a bitmap file."@
}

/// The message of the error for a pixel read-back whose length does not
/// match the measured size.
pub open spec fn pixel_message() -> Seq<char> {
    "The pixel bytes do not match the measured size."@
}

/// The message of the error for an answer of the wrong kind.
pub open spec fn protocol_message() -> Seq<char> {
    "Unexpected answer from the drawing subsystem."@
}

/// The message of the error for an answer stream that ended early.
pub open spec fn exhausted_message() -> Seq<char> {
    "The drawing subsystem stopped answering."@
}

/// The pixel byte count matches the measured size and, with the 54 header
/// bytes, fits the 32-bit file-size field.
pub open spec fn pixels_ok(width: u32, height: u32, len: int) -> bool {
    len == 4 * (width * height) && 54 + len <= u32::MAX
}

/// The first state and the first action of a capture request: the display
/// surface for a full-screen request, a title lookup for a named window,
/// and the console query otherwise.
pub open spec fn start_spec(
    fullscreen: bool,
    window: Option<Seq<char>>,
    is_desktop: bool,
    is_clipping: bool,
) -> StepV {
    if fullscreen {
        StepV::Continue {
            state: CaptureState::AwaitSurface { window: None, desktop: false },
            action: ActionV::OpenSurface { window: None, desktop: false },
        }
    } else {
        match window {
            Some(title) => StepV::Continue {
                state: CaptureState::AwaitWindow { desktop: is_desktop, clip: is_clipping },
                action: ActionV::FindWindow { title },
            },
            None => StepV::Continue {
                state: CaptureState::AwaitConsole { desktop: is_desktop, clip: is_clipping },
                action: ActionV::QueryConsole,
            },
        }
    }
}

/// A resolved target continues on the direct path, or on the clipped path
/// when clipping was requested.
pub open spec fn resolved_spec(target: u64, desktop: bool, clip: bool) -> StepV {
    if clip {
        StepV::Continue {
            state: CaptureState::AwaitClipSurface { window: target, desktop },
            action: ActionV::OpenSurface { window: None, desktop: false },
        }
    } else {
        StepV::Continue {
            state: CaptureState::AwaitSurface { window: Some(target), desktop },
            action: ActionV::OpenSurface { window: Some(target), desktop },
        }
    }
}

/// What one answer does to the pipeline. A failed call ends the capture
/// with its platform error code; an answer of the wrong kind ends it with
/// a protocol error; otherwise the pipeline advances one call.
pub open spec fn next_spec(state: CaptureState, event: EventV) -> StepV {
    match (state, event) {
        (CaptureState::AwaitWindow { desktop, clip }, EventV::Window(res)) => match res {
            Ok(h) => resolved_spec(h, desktop, clip),
            Err(c) => StepV::Done { result: Err(ErrorV::Win32(c)) },
        },
        (CaptureState::AwaitConsole { desktop, clip }, EventV::Console { window, parent }) => match parent {
            Some(p) => if !desktop {
                StepV::Done { result: Err(ErrorV::Message(usage_message())) }
            } else {
                StepV::Continue {
                    state: CaptureState::AwaitHostSurface { child: window },
                    action: ActionV::OpenSurface { window: Some(p), desktop: true },
                }
            },
            None => resolved_spec(window, desktop, clip),
        },
        (CaptureState::AwaitSurface { window, desktop }, EventV::Surface(res)) => match res {
            Ok(s) => StepV::Continue {
                state: CaptureState::AwaitRect { surface: s },
                action: ActionV::Measure { window, desktop },
            },
            Err(c) => StepV::Done { result: Err(ErrorV::Win32(c)) },
        },
        (CaptureState::AwaitRect { surface }, EventV::Rect(res)) => match res {
            Ok(r) => if geom_ok(r) {
                let w = rect_width(r) as u32;
                let h = rect_height(r) as u32;
                StepV::Continue {
                    state: CaptureState::AwaitBuffer { surface, width: w, height: h },
                    action: ActionV::CreateBuffer { surface, width: w, height: h },
                }
            } else {
                StepV::Done { result: Err(ErrorV::Message(geometry_message())) }
            },
            Err(c) => StepV::Done { result: Err(ErrorV::Win32(c)) },
        },
        (CaptureState::AwaitBuffer { surface, width, height }, EventV::Buffer(res)) => match res {
            Ok(b) => StepV::Continue {
                state: CaptureState::AwaitCopy { buffer: b, width, height },
                action: ActionV::Blit { buffer: b, source: surface, width, height },
            },
            Err(c) => StepV::Done { result: Err(ErrorV::Win32(c)) },
        },
        (CaptureState::AwaitHostSurface { child }, EventV::Surface(res)) => match res {
            Ok(s) => StepV::Continue {
                state: CaptureState::AwaitHostRect { surface: s },
                action: ActionV::Measure { window: Some(child), desktop: true },
            },
            Err(c) => StepV::Done { result: Err(ErrorV::Win32(c)) },
        },
        (CaptureState::AwaitHostRect { surface }, EventV::Rect(res)) => match res {
            Ok(r) => if geom_ok(r) {
                let w = rect_width(r) as u32;
                let h = rect_height(r) as u32;
                StepV::Continue {
                    state: CaptureState::AwaitHostBuffer {
                        width: w,
                        height: h,
                        left: r.left,
                        top: r.top,
                    },
                    action: ActionV::CreateBuffer { surface, width: w, height: h },
                }
            } else {
                StepV::Done { result: Err(ErrorV::Message(geometry_message())) }
            },
            Err(c) => StepV::Done { result: Err(ErrorV::Win32(c)) },
        },
        (CaptureState::AwaitHostBuffer { width, height, left, top }, EventV::Buffer(res)) => match res {
            Ok(b) => StepV::Continue {
                state: CaptureState::AwaitHostFull { buffer: b, width, height, left, top },
                action: ActionV::OpenSurface { window: None, desktop: false },
            },
            Err(c) => StepV::Done { result: Err(ErrorV::Win32(c)) },
        },
        (CaptureState::AwaitHostFull { buffer, width, height, left, top }, EventV::Surface(res)) => match res {
            Ok(f) => StepV::Continue {
                state: CaptureState::AwaitCopy { buffer, width, height },
                action: ActionV::ClipBlit { buffer, source: f, left, top, width, height },
            },
            Err(c) => StepV::Done { result: Err(ErrorV::Win32(c)) },
        },
        (CaptureState::AwaitClipSurface { window, desktop }, EventV::Surface(res)) => match res {
            Ok(f) => StepV::Continue {
                state: CaptureState::AwaitClipRect { surface: f },
                action: ActionV::Measure { window: Some(window), desktop },
            },
            Err(c) => StepV::Done { result: Err(ErrorV::Win32(c)) },
        },
        (CaptureState::AwaitClipRect { surface }, EventV::Rect(res)) => match res {
            Ok(r) => if geom_ok(r) {
                let w = rect_width(r) as u32;
                let h = rect_height(r) as u32;
                StepV::Continue {
                    state: CaptureState::AwaitClipBuffer {
                        surface,
                        width: w,
                        height: h,
                        left: r.left,
                        top: r.top,
                    },
                    action: ActionV::CreateBuffer { surface, width: w, height: h },
                }
            } else {
                StepV::Done { result: Err(ErrorV::Message(geometry_message())) }
            },
            Err(c) => StepV::Done { result: Err(ErrorV::Win32(c)) },
        },
        (CaptureState::AwaitClipBuffer { surface, width, height, left, top }, EventV::Buffer(res)) => match res {
            Ok(b) => StepV::Continue {
                state: CaptureState::AwaitCopy { buffer: b, width, height },
                action: ActionV::ClipBlit { buffer: b, source: surface, left, top, width, height },
            },
            Err(c) => StepV::Done { result: Err(ErrorV::Win32(c)) },
        },
        (CaptureState::AwaitCopy { buffer, width, height }, EventV::Copied(res)) => match res {
            Ok(u) => StepV::Continue {
                state: CaptureState::AwaitPixels { width, height },
                action: ActionV::ReadPixels { buffer, width, height },
            },
            Err(c) => StepV::Done { result: Err(ErrorV::Win32(c)) },
        },
        (CaptureState::AwaitPixels { width, height }, EventV::Pixels(res)) => match res {
            Ok(px) => if pixels_ok(width, height, px.len() as int) {
                StepV::Done { result: Ok(bmp_stream(width, height, px)) }
            } else {
                StepV::Done { result: Err(ErrorV::Message(pixel_message())) }
            },
            Err(c) => StepV::Done { result: Err(ErrorV::Win32(c)) },
        },
        _ => StepV::Done { result: Err(ErrorV::Message(protocol_message())) },
    }
}

/// What a capture request returns once the answers in `events` have been
/// consumed in order: the encoded bitmap stream of the measured target, or
/// the first failure. An answer stream that ends while the pipeline still
/// waits counts as the drawing subsystem failing to answer.
pub open spec fn run_spec(state: CaptureState, events: Seq<EventV>) -> Result<Seq<u8>, ErrorV>
    decreases events.len(),
{
    if events.len() == 0 {
        Err(ErrorV::Message(exhausted_message()))
    } else {
        match next_spec(state, events[0]) {
            StepV::Done { result } => result,
            StepV::Continue { state: s2, action } => run_spec(s2, events.drop_first()),
        }
    }
}

/// The result of a whole capture request, from the request flags and the
/// operating system's answers.
pub open spec fn capture_spec(
    fullscreen: bool,
    window: Option<Seq<char>>,
    is_desktop: bool,
    is_clipping: bool,
    events: Seq<EventV>,
) -> Result<Seq<u8>, ErrorV> {
    match start_spec(fullscreen, window, is_desktop, is_clipping) {
        StepV::Continue { state, action } => run_spec(state, events),
        StepV::Done { result } => result,
    }
}

/// The actions the pipeline issues from `state` while consuming `events`.
pub open spec fn run_actions(state: CaptureState, events: Seq<EventV>) -> Seq<ActionV>
    decreases events.len(),
{
    if events.len() == 0 {
        Seq::empty()
    } else {
        match next_spec(state, events[0]) {
            StepV::Done { result } => Seq::empty(),
            StepV::Continue { state: s2, action } => Seq::empty().push(action) + run_actions(
                s2,
                events.drop_first(),
            ),
        }
    }
}

/// All actions a capture request issues, the starting one included.
pub open spec fn capture_actions(
    fullscreen: bool,
    window: Option<Seq<char>>,
    is_desktop: bool,
    is_clipping: bool,
    events: Seq<EventV>,
) -> Seq<ActionV> {
    match start_spec(fullscreen, window, is_desktop, is_clipping) {
        StepV::Continue { state, action } => Seq::empty().push(action) + run_actions(
            state,
            events,
        ),
        StepV::Done { result } => Seq::empty(),
    }
}

/// The model of an optional window title.
pub open spec fn opt_title_view(window: Option<&str>) -> Option<Seq<char>> {
    match window {
        Some(t) => Some(t@),
        None => None,
    }
}

/// The models of a list of answers.
pub open spec fn events_view(events: Seq<OsEvent>) -> Seq<EventV> {
    events.map_values(|e: OsEvent| e@)
}

/// Begin a capture: choose the first state and the first action from the
/// request flags, before any surface is opened.
pub fn start(fullscreen: bool, window: Option<&str>, is_desktop: bool, is_clipping: bool) -> (r:
    Step)
    ensures
        r@ == start_spec(fullscreen, opt_title_view(window), is_desktop, is_clipping),
{
    if fullscreen {
        Step::Continue {
            state: CaptureState::AwaitSurface { window: None, desktop: false },
            action: OsAction::OpenSurface { window: None, desktop: false },
        }
    } else {
        match window {
            Some(t) => Step::Continue {
                state: CaptureState::AwaitWindow { desktop: is_desktop, clip: is_clipping },
                action: OsAction::FindWindow { title: t.to_owned() },
            },
            None => Step::Continue {
                state: CaptureState::AwaitConsole { desktop: is_desktop, clip: is_clipping },
                action: OsAction::QueryConsole,
            },
        }
    }
}

/// A resolved target window continues on the direct or the clipped path.
fn resolved(target: u64, desktop: bool, clip: bool) -> (r: Step)
    ensures
        r@ == resolved_spec(target, desktop, clip),
{
    if clip {
        Step::Continue {
            state: CaptureState::AwaitClipSurface { window: target, desktop },
            action: OsAction::OpenSurface { window: None, desktop: false },
        }
    } else {
        Step::Continue {
            state: CaptureState::AwaitSurface { window: Some(target), desktop },
            action: OsAction::OpenSurface { window: Some(target), desktop },
        }
    }
}

/// Advance the pipeline by one answer from the operating system.
pub fn next(state: CaptureState, event: OsEvent) -> (r: Step)
    ensures
        r@ == next_spec(state, event@),
{
    match (state, event) {
        (CaptureState::AwaitWindow { desktop, clip }, OsEvent::Window(res)) => match res {
            Ok(h) => resolved(h, desktop, clip),
            Err(c) => Step::Done { result: Err(Error::Win32(c)) },
        },
        (CaptureState::AwaitConsole { desktop, clip }, OsEvent::Console { window, parent }) => match parent {
            Some(p) => if !desktop {
                Step::Done {
                    result: Err(
                        Error::message("Need to specify `--desktop` or `--fullscreen` option."),
                    ),
                }
            } else {
                Step::Continue {
                    state: CaptureState::AwaitHostSurface { child: window },
                    action: OsAction::OpenSurface { window: Some(p), desktop: true },
                }
            },
            None => resolved(window, desktop, clip),
        },
        (CaptureState::AwaitSurface { window, desktop }, OsEvent::Surface(res)) => match res {
            Ok(s) => Step::Continue {
                state: CaptureState::AwaitRect { surface: s },
                action: OsAction::Measure { window, desktop },
            },
            Err(c) => Step::Done { result: Err(Error::Win32(c)) },
        },
        (CaptureState::AwaitRect { surface }, OsEvent::Rect(res)) => match res {
            Ok(r) => if check_geom(&r) {
                let wh: (u32, u32) = rect_size(&r);
                Step::Continue {
                    state: CaptureState::AwaitBuffer { surface, width: wh.0, height: wh.1 },
                    action: OsAction::CreateBuffer { surface, width: wh.0, height: wh.1 },
                }
            } else {
                Step::Done {
                    result: Err(
                        Error::message("The measured rectangle does not fit a bitmap file."),
                    ),
                }
            },
            Err(c) => Step::Done { result: Err(Error::Win32(c)) },
        },
        (CaptureState::AwaitBuffer { surface, width, height }, OsEvent::Buffer(res)) => match res {
            Ok(b) => Step::Continue {
                state: CaptureState::AwaitCopy { buffer: b, width, height },
                action: OsAction::Blit { buffer: b, source: surface, width, height },
            },
            Err(c) => Step::Done { result: Err(Error::Win32(c)) },
        },
        (CaptureState::AwaitHostSurface { child }, OsEvent::Surface(res)) => match res {
            Ok(s) => Step::Continue {
                state: CaptureState::AwaitHostRect { surface: s },
                action: OsAction::Measure { window: Some(child), desktop: true },
            },
            Err(c) => Step::Done { result: Err(Error::Win32(c)) },
        },
        (CaptureState::AwaitHostRect { surface }, OsEvent::Rect(res)) => match res {
            Ok(r) => if check_geom(&r) {
                let wh: (u32, u32) = rect_size(&r);
                Step::Continue {
                    state: CaptureState::AwaitHostBuffer {
                        width: wh.0,
                        height: wh.1,
                        left: r.left,
                        top: r.top,
                    },
                    action: OsAction::CreateBuffer { surface, width: wh.0, height: wh.1 },
                }
            } else {
                Step::Done {
                    result: Err(
                        Error::message("The measured rectangle does not fit a bitmap file."),
                    ),
                }
            },
            Err(c) => Step::Done { result: Err(Error::Win32(c)) },
        },
        (CaptureState::AwaitHostBuffer { width, height, left, top }, OsEvent::Buffer(res)) => match res {
            Ok(b) => Step::Continue {
                state: CaptureState::AwaitHostFull { buffer: b, width, height, left, top },
                action: OsAction::OpenSurface { window: None, desktop: false },
            },
            Err(c) => Step::Done { result: Err(Error::Win32(c)) },
        },
        (CaptureState::AwaitHostFull { buffer, width, height, left, top }, OsEvent::Surface(res)) => match res {
            Ok(f) => Step::Continue {
                state: CaptureState::AwaitCopy { buffer, width, height },
                action: OsAction::ClipBlit { buffer, source: f, left, top, width, height },
            },
            Err(c) => Step::Done { result: Err(Error::Win32(c)) },
        },
        (CaptureState::AwaitClipSurface { window, desktop }, OsEvent::Surface(res)) => match res {
            Ok(f) => Step::Continue {
                state: CaptureState::AwaitClipRect { surface: f },
                action: OsAction::Measure { window: Some(window), desktop },
            },
            Err(c) => Step::Done { result: Err(Error::Win32(c)) },
        },
        (CaptureState::AwaitClipRect { surface }, OsEvent::Rect(res)) => match res {
            Ok(r) => if check_geom(&r) {
                let wh: (u32, u32) = rect_size(&r);
                Step::Continue {
                    state: CaptureState::AwaitClipBuffer {
                        surface,
                        width: wh.0,
                        height: wh.1,
                        left: r.left,
                        top: r.top,
                    },
                    action: OsAction::CreateBuffer { surface, width: wh.0, height: wh.1 },
                }
            } else {
                Step::Done {
                    result: Err(
                        Error::message("The measured rectangle does not fit a bitmap file."),
                    ),
                }
            },
            Err(c) => Step::Done { result: Err(Error::Win32(c)) },
        },
        (CaptureState::AwaitClipBuffer { surface, width, height, left, top }, OsEvent::Buffer(
            res,
        )) => match res {
            Ok(b) => Step::Continue {
                state: CaptureState::AwaitCopy { buffer: b, width, height },
                action: OsAction::ClipBlit { buffer: b, source: surface, left, top, width, height },
            },
            Err(c) => Step::Done { result: Err(Error::Win32(c)) },
        },
        (CaptureState::AwaitCopy { buffer, width, height }, OsEvent::Copied(res)) => match res {
            Ok(u) => Step::Continue {
                state: CaptureState::AwaitPixels { width, height },
                action: OsAction::ReadPixels { buffer, width, height },
            },
            Err(c) => Step::Done { result: Err(Error::Win32(c)) },
        },
        (CaptureState::AwaitPixels { width, height }, OsEvent::Pixels(res)) => match res {
            Ok(px) => {
                let wu: u64 = width as u64;
                let hu: u64 = height as u64;
                proof {
                    assert(wu * hu <= 0xFFFF_FFFFu64 * 0xFFFF_FFFFu64) by (nonlinear_arith)
                        requires
                            wu <= 0xFFFF_FFFFu64,
                            hu <= 0xFFFF_FFFFu64,
                    ;
                }
                let area: u64 = wu * hu;
                let ok: bool = area <= 1073741810 && (px.len() as u64) == 4 * area;
                proof {
                    assert(ok == pixels_ok(width, height, px@.len() as int));
                }
                if ok {
                    Step::Done { result: Ok(encode(width, height, &px)) }
                } else {
                    Step::Done {
                        result: Err(
                            Error::message("The pixel bytes do not match the measured size."),
                        ),
                    }
                }
            },
            Err(c) => Step::Done { result: Err(Error::Win32(c)) },
        },
        (_, _) => Step::Done {
            result: Err(Error::message("Unexpected answer from the drawing subsystem.")),
        },
    }
}

/// Run a whole capture request against the answers the operating system
/// gave, in order, and return the encoded bitmap stream or the first
/// failure.
pub fn capture_as_image(
    fullscreen: bool,
    window: Option<&str>,
    is_desktop: bool,
    is_clipping: bool,
    responses: Vec<OsEvent>,
) -> (r: Result<Vec<u8>, Error>)
    ensures
        result_view(&r) == capture_spec(
            fullscreen,
            opt_title_view(window),
            is_desktop,
            is_clipping,
            events_view(responses@),
        ),
{
    let ghost all_events = events_view(responses@);
    let mut rest = responses;
    let mut step = start(fullscreen, window, is_desktop, is_clipping);
    loop
        invariant
            (match step@ {
                StepV::Done { result } => result == capture_spec(
                    fullscreen,
                    opt_title_view(window),
                    is_desktop,
                    is_clipping,
                    all_events,
                ),
                StepV::Continue { state, action } => run_spec(state, events_view(rest@))
                    == capture_spec(
                    fullscreen,
                    opt_title_view(window),
                    is_desktop,
                    is_clipping,
                    all_events,
                ),
            }),
            all_events == events_view(responses@),
        decreases rest@.len(),
    {
        match step {
            Step::Done { result } => {
                return result;
            },
            Step::Continue { state, action } => {
                if rest.len() == 0 {
                    proof {
                        assert(events_view(rest@) =~= Seq::<EventV>::empty());
                    }
                    return Err(Error::message("The drawing subsystem stopped answering."));
                }
                let ghost prev = rest@;
                let e = rest.remove(0);
                proof {
                    assert(events_view(prev)[0] == e@);
                    assert(events_view(rest@) =~= events_view(prev).drop_first());
                }
                step = next(state, e);
            },
        }
    }
}

/// When the console window is hosted inside a parent frame and neither
/// desktop nor full-screen mode was requested, the capture fails with the
/// usage error at the resolution step, and the console query is the only
/// action ever issued: no surface is opened.
pub proof fn lemma_hosted_frame_policy(
    window: u64,
    parent: u64,
    is_clipping: bool,
    events: Seq<EventV>,
)
    requires
        events.len() >= 1,
        events[0] == (EventV::Console { window, parent: Some(parent) }),
    ensures
        capture_spec(false, None, false, is_clipping, events) == Err::<Seq<u8>, ErrorV>(
            ErrorV::Message(usage_message()),
        ),
        capture_actions(false, None, false, is_clipping, events) == Seq::empty().push(
            ActionV::QueryConsole,
        ),
{
    assert(Seq::empty().push(ActionV::QueryConsole) + Seq::<ActionV>::empty() =~= Seq::empty()
        .push(ActionV::QueryConsole));
}

/// A title lookup that matches no window ends the capture with the
/// platform's lookup error, whatever answers would have followed.
pub proof fn lemma_resolve_not_found(
    title: Seq<char>,
    is_desktop: bool,
    is_clipping: bool,
    code: i32,
    events: Seq<EventV>,
)
    requires
        events.len() >= 1,
        events[0] == EventV::Window(Err::<u64, i32>(code)),
    ensures
        capture_spec(false, Some(title), is_desktop, is_clipping, events) == Err::<
            Seq<u8>,
            ErrorV,
        >(ErrorV::Win32(code)),
{
}

/// A full-screen capture whose five calls all succeed returns exactly the
/// encoding of the measured display: the stream's dimensions are the
/// display rectangle's, and its body is the pixel read-back, unchanged.
pub proof fn lemma_fullscreen_capture(
    surface: u64,
    buffer: u64,
    r: PixelRect,
    px: Seq<u8>,
    is_desktop: bool,
    is_clipping: bool,
    events: Seq<EventV>,
)
    requires
        geom_ok(r),
        px.len() == 4 * ((rect_width(r) as u32) * (rect_height(r) as u32)),
        events == Seq::empty().push(EventV::Surface(Ok::<u64, i32>(surface))).push(
            EventV::Rect(Ok::<PixelRect, i32>(r)),
        ).push(EventV::Buffer(Ok::<u64, i32>(buffer))).push(EventV::Copied(Ok::<(), i32>(()))).push(
            EventV::Pixels(Ok::<Seq<u8>, i32>(px)),
        ),
    ensures
        capture_spec(true, None, is_desktop, is_clipping, events) == Ok::<Seq<u8>, ErrorV>(
            bmp_stream(rect_width(r) as u32, rect_height(r) as u32, px),
        ),
{
    reveal_with_fuel(run_spec, 6);
    let w = rect_width(r) as u32;
    let h = rect_height(r) as u32;
    assert(4 * rect_width(r) * rect_height(r) == 4 * (rect_width(r) * rect_height(r)))
        by (nonlinear_arith);
    assert(pixels_ok(w, h, px.len() as int));
    let e2 = EventV::Rect(Ok::<PixelRect, i32>(r));
    let e3 = EventV::Buffer(Ok::<u64, i32>(buffer));
    let e4 = EventV::Copied(Ok::<(), i32>(()));
    let e5 = EventV::Pixels(Ok::<Seq<u8>, i32>(px));
    assert(events.drop_first() =~= Seq::empty().push(e2).push(e3).push(e4).push(e5));
    assert(events.drop_first().drop_first() =~= Seq::empty().push(e3).push(e4).push(e5));
    assert(events.drop_first().drop_first().drop_first() =~= Seq::empty().push(e4).push(e5));
    assert(events.drop_first().drop_first().drop_first().drop_first() =~= Seq::empty().push(e5));
}

/// A capture of a window found by title, on the direct path, whose six
/// calls all succeed returns exactly the encoding of the window's measured
/// rectangle in the requested mode.
pub proof fn lemma_window_capture(
    handle: u64,
    surface: u64,
    buffer: u64,
    r: PixelRect,
    px: Seq<u8>,
    title: Seq<char>,
    is_desktop: bool,
    events: Seq<EventV>,
)
    requires
        geom_ok(r),
        px.len() == 4 * ((rect_width(r) as u32) * (rect_height(r) as u32)),
        events == Seq::empty().push(EventV::Window(Ok::<u64, i32>(handle))).push(
            EventV::Surface(Ok::<u64, i32>(surface)),
        ).push(EventV::Rect(Ok::<PixelRect, i32>(r))).push(EventV::Buffer(Ok::<u64, i32>(buffer)))
            .push(EventV::Copied(Ok::<(), i32>(()))).push(EventV::Pixels(Ok::<Seq<u8>, i32>(px))),
    ensures
        capture_spec(false, Some(title), is_desktop, false, events) == Ok::<Seq<u8>, ErrorV>(
            bmp_stream(rect_width(r) as u32, rect_height(r) as u32, px),
        ),
{
    reveal_with_fuel(run_spec, 7);
    let w = rect_width(r) as u32;
    let h = rect_height(r) as u32;
    assert(4 * rect_width(r) * rect_height(r) == 4 * (rect_width(r) * rect_height(r)))
        by (nonlinear_arith);
    assert(pixels_ok(w, h, px.len() as int));
    let e2 = EventV::Surface(Ok::<u64, i32>(surface));
    let e3 = EventV::Rect(Ok::<PixelRect, i32>(r));
    let e4 = EventV::Buffer(Ok::<u64, i32>(buffer));
    let e5 = EventV::Copied(Ok::<(), i32>(()));
    let e6 = EventV::Pixels(Ok::<Seq<u8>, i32>(px));
    assert(events.drop_first() =~= Seq::empty().push(e2).push(e3).push(e4).push(e5).push(e6));
    assert(events.drop_first().drop_first() =~= Seq::empty().push(e3).push(e4).push(e5).push(e6));
    assert(events.drop_first().drop_first().drop_first() =~= Seq::empty().push(e4).push(e5).push(
        e6,
    ));
    assert(events.drop_first().drop_first().drop_first().drop_first() =~= Seq::empty().push(
        e5,
    ).push(e6));
    assert(events.drop_first().drop_first().drop_first().drop_first().drop_first()
        =~= Seq::empty().push(e6));
}

/// A title lookup that matches a window continues directly with that
/// window as the target: a window found by title never takes the hosted
/// path, and its surface is opened in the requested mode.
pub proof fn lemma_resolve_found(handle: u64, is_desktop: bool)
    ensures
        next_spec(
            CaptureState::AwaitWindow { desktop: is_desktop, clip: false },
            EventV::Window(Ok::<u64, i32>(handle)),
        ) == (StepV::Continue {
            state: CaptureState::AwaitSurface { window: Some(handle), desktop: is_desktop },
            action: ActionV::OpenSurface { window: Some(handle), desktop: is_desktop },
        }),
{
}

} // verus!
