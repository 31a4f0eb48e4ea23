//! The decisions of the overlay's event loop: which windows exist, what is
//! done to a window when it is created, and what each event of the window
//! system leads to. The loop itself, and every call into the window system,
//! belong to the caller, which carries out the commands it is handed.

use crate::config::{clamp_opacity, clamp_spec};
use vstd::prelude::*;

verus! {

/// One thing the caller does to one overlay window.
#[derive(Clone, Copy, Debug, PartialEq, Eq, Structural)]
pub enum WindowCommand {
    /// Add the overlay's extended style bits to the window's style.
    ApplyOverlayStyle { window: u64 },
    /// Set the window's layered alpha attribute.
    SetAlpha { window: u64, alpha: u8 },
    /// Ask the window system to keep the window above all others, in place.
    KeepOnTop { window: u64 },
    /// Start the task that repeats `KeepOnTop` with the given period.
    StartKeeper { window: u64, period_ms: u64 },
    /// Attach a pixel surface of the window's current physical size.
    AttachSurface { window: u64 },
    /// Resize the window's pixel surface.
    ResizeSurface { window: u64, width: u32, height: u32 },
    /// Fill the window's frame with the tint at `alpha`.
    Paint { window: u64, alpha: u8 },
    /// Submit the window's frame for display.
    Present { window: u64 },
    /// Request the window's next redraw.
    RequestRedraw { window: u64 },
}

/// An event of the window system, as far as the overlay tells events apart.
#[derive(Clone, Copy, Debug, PartialEq, Eq, Structural)]
pub enum OverlayEvent {
    /// The user or the system asked to close a window.
    CloseRequested { window: u64 },
    /// A window changed its size.
    Resized { window: u64, width: u32, height: u32 },
    /// All pending events have been handed out: time to draw.
    EventsDrained,
    /// A window asked to be redrawn.
    RedrawRequested { window: u64 },
    /// Anything else.
    Other,
}

/// How the loop goes on after an event.
#[derive(Clone, Copy, Debug, PartialEq, Eq, Structural)]
pub enum Flow {
    /// Take the next event at once, without waiting for one.
    Poll,
    /// Leave the loop: the overlay process ends.
    Exit,
}

/// What an event leads to.
#[derive(Debug, PartialEq, Eq)]
pub struct Reaction {
    pub flow: Flow,
    /// What the caller does, in this order.
    pub commands: Vec<WindowCommand>,
}

/// Number of commands by which a window is set up once it has been built.
pub const SETUP_COMMANDS: usize = 5;

/// Number of commands by which a window is drawn at each frame.
pub const FRAME_COMMANDS: usize = 5;

/// The commands that set up a freshly built window while `opacity` is in
/// force: style, alpha, a first restacking, the task that repeats it, and the
/// pixel surface.
pub open spec fn setup_of(window: u64, opacity: u8) -> Seq<WindowCommand> {
    seq![
        WindowCommand::ApplyOverlayStyle { window },
        WindowCommand::SetAlpha { window, alpha: clamp_spec(opacity as int) as u8 },
        WindowCommand::KeepOnTop { window },
        WindowCommand::StartKeeper { window, period_ms: crate::window::KEEP_ON_TOP_PERIOD_MS },
        WindowCommand::AttachSurface { window },
    ]
}

/// The commands that draw one frame of one window at `alpha`: paint, present,
/// set the layered alpha, restack, ask for the next redraw.
pub open spec fn frame_of(window: u64, alpha: u8) -> Seq<WindowCommand> {
    seq![
        WindowCommand::Paint { window, alpha },
        WindowCommand::Present { window },
        WindowCommand::SetAlpha { window, alpha },
        WindowCommand::KeepOnTop { window },
        WindowCommand::RequestRedraw { window },
    ]
}

/// The commands that draw one frame of every window in `windows`, window by
/// window, all at the same `alpha`.
pub open spec fn frames_of(windows: Seq<u64>, alpha: u8) -> Seq<WindowCommand>
    decreases windows.len(),
{
    if windows.len() == 0 {
        Seq::empty()
    } else {
        frames_of(windows.drop_last(), alpha) + frame_of(windows.last(), alpha)
    }
}

/// The commands an event leads to, with `windows` alive and `opacity` in
/// force.
pub open spec fn commands_for(windows: Seq<u64>, event: OverlayEvent, opacity: u8) -> Seq<
    WindowCommand,
> {
    match event {
        OverlayEvent::Resized { window, width, height } => if windows.contains(window) {
            seq![WindowCommand::ResizeSurface { window, width, height }]
        } else {
            Seq::empty()
        },
        OverlayEvent::EventsDrained => frames_of(windows, clamp_spec(opacity as int) as u8),
        _ => Seq::empty(),
    }
}

/// How the loop goes on after an event: a request to close any window ends
/// it, nothing else does.
pub open spec fn flow_for(event: OverlayEvent) -> Flow {
    match event {
        OverlayEvent::CloseRequested { .. } => Flow::Exit,
        _ => Flow::Poll,
    }
}

/// The windows alive once `window` has been registered with `windows`: it is
/// added at the end unless it is there already.
pub open spec fn registered(windows: Seq<u64>, window: u64) -> Seq<u64> {
    if windows.contains(window) {
        windows
    } else {
        windows.push(window)
    }
}

/// The overlay windows that are alive, by the number the window system gave
/// each, in the order in which they were registered. No window is listed
/// twice.
pub struct OverlayWindows {
    ids: Vec<u64>,
}

impl View for OverlayWindows {
    type V = Seq<u64>;

    closed spec fn view(&self) -> Seq<u64> {
        self.ids@
    }
}

impl OverlayWindows {
    #[verifier::type_invariant]
    closed spec fn distinct(&self) -> bool {
        self.ids@.no_duplicates()
    }

    /// No windows yet.
    pub fn new() -> (windows: Self)
        ensures
            windows@ == Seq::<u64>::empty(),
    {
        OverlayWindows { ids: Vec::new() }
    }

    /// Number of windows alive. Each of them is counted once: no window is
    /// listed twice.
    pub fn len(&self) -> (count: usize)
        ensures
            count == self@.len(),
            self@.no_duplicates(),
    {
        proof {
            use_type_invariant(self);
        }
        self.ids.len()
    }

    /// Whether `window` is alive.
    pub fn contains(&self, window: u64) -> (found: bool)
        ensures
            found == self@.contains(window),
    {
        let mut i: usize = 0;
        while i < self.ids.len()
            invariant
                i <= self.ids@.len(),
                forall|k: int| 0 <= k < i ==> self.ids@[k] != window,
            decreases self.ids@.len() - i,
        {
            if self.ids[i] == window {
                return true;
            }
            i = i + 1;
        }
        false
    }

    /// Takes note of a window that has been built, and says what is to be
    /// done to set it up while `opacity` is in force. A window that is
    /// already known is not listed again, and nothing is done to it: the
    /// windows alive stay distinct.
    pub fn register(&mut self, window: u64, opacity: u8) -> (commands: Vec<WindowCommand>)
        ensures
            final(self)@ == registered(old(self)@, window),
            final(self)@.no_duplicates(),
            final(self)@.contains(window),
            commands@ == if old(self)@.contains(window) {
                Seq::<WindowCommand>::empty()
            } else {
                setup_of(window, opacity)
            },
    {
        proof {
            use_type_invariant(&*self);
            registering_keeps_windows_distinct(self@, window);
        }
        let mut commands: Vec<WindowCommand> = Vec::new();
        if !self.contains(window) {
            let mut ids = self.ids.clone();
            assert(ids@ =~= self.ids@);
            ids.push(window);
            self.ids = ids;
            let alpha = clamp_opacity(opacity);
            commands.push(WindowCommand::ApplyOverlayStyle { window });
            commands.push(WindowCommand::SetAlpha { window, alpha });
            commands.push(WindowCommand::KeepOnTop { window });
            commands.push(
                WindowCommand::StartKeeper {
                    window,
                    period_ms: crate::window::KEEP_ON_TOP_PERIOD_MS,
                },
            );
            commands.push(WindowCommand::AttachSurface { window });
            assert(commands@ =~= setup_of(window, opacity));
        }
        commands
    }

    /// Decides what an event leads to while `opacity` is in force.
    pub fn react(&self, event: &OverlayEvent, opacity: u8) -> (reaction: Reaction)
        ensures
            reaction.flow == flow_for(*event),
            reaction.commands@ == commands_for(self@, *event, opacity),
    {
        let mut commands: Vec<WindowCommand> = Vec::new();
        match *event {
            OverlayEvent::CloseRequested { window: _ } => Reaction { flow: Flow::Exit, commands },
            OverlayEvent::Resized { window, width, height } => {
                if self.contains(window) {
                    commands.push(WindowCommand::ResizeSurface { window, width, height });
                    assert(commands@ =~= commands_for(self@, *event, opacity));
                }
                Reaction { flow: Flow::Poll, commands }
            },
            OverlayEvent::EventsDrained => {
                let alpha = clamp_opacity(opacity);
                let mut i: usize = 0;
                assert(self.ids@.subrange(0, 0) =~= Seq::<u64>::empty());
                while i < self.ids.len()
                    invariant
                        i <= self.ids@.len(),
                        commands@ == frames_of(self.ids@.subrange(0, i as int), alpha),
                    decreases self.ids@.len() - i,
                {
                    let window = self.ids[i];
                    commands.push(WindowCommand::Paint { window, alpha });
                    commands.push(WindowCommand::Present { window });
                    commands.push(WindowCommand::SetAlpha { window, alpha });
                    commands.push(WindowCommand::KeepOnTop { window });
                    commands.push(WindowCommand::RequestRedraw { window });
                    proof {
                        let before = self.ids@.subrange(0, i as int);
                        let after = self.ids@.subrange(0, i + 1);
                        assert(after.drop_last() =~= before);
                        assert(after.last() == window);
                        assert(commands@ =~= frames_of(before, alpha) + frame_of(window, alpha));
                    }
                    i = i + 1;
                }
                assert(self.ids@.subrange(0, i as int) =~= self.ids@);
                Reaction { flow: Flow::Poll, commands }
            },
            OverlayEvent::RedrawRequested { window: _ } => Reaction { flow: Flow::Poll, commands },
            OverlayEvent::Other => Reaction { flow: Flow::Poll, commands },
        }
    }
}

/// Registering never lists a window twice: windows that were distinct stay
/// distinct, the registered window is alive afterwards, and every window that
/// was alive still is.
pub proof fn registering_keeps_windows_distinct(windows: Seq<u64>, window: u64)
    requires
        windows.no_duplicates(),
    ensures
        registered(windows, window).no_duplicates(),
        registered(windows, window).contains(window),
        forall|other: u64| windows.contains(other) ==> registered(windows, window).contains(other),
        registered(registered(windows, window), window) == registered(windows, window),
{
    let after = registered(windows, window);
    if !windows.contains(window) {
        assert(after[windows.len() as int] == window);
        assert forall|other: u64| windows.contains(other) implies after.contains(other) by {
            let i = choose|i: int| 0 <= i < windows.len() && windows[i] == other;
            assert(after[i] == other);
        }
    }
}

/// Registering as many distinct windows as there are monitors leaves exactly
/// that many windows alive.
pub proof fn one_window_per_registration(windows: Seq<u64>, window: u64)
    requires
        !windows.contains(window),
    ensures
        registered(windows, window).len() == windows.len() + 1,
        registered(windows, window).last() == window,
{
}

/// A request to close any window, known or not, ends the loop, and it is the
/// only event that does; nothing is done to any window on the way out.
pub proof fn close_request_ends_the_loop(windows: Seq<u64>, event: OverlayEvent, opacity: u8)
    ensures
        flow_for(event) == Flow::Exit <==> event is CloseRequested,
        event is CloseRequested ==> commands_for(windows, event, opacity).len() == 0,
{
}

/// A frame gives every window its five commands, in the order of the windows,
/// and all of them carry the one alpha.
pub proof fn frame_reaches_every_window(windows: Seq<u64>, alpha: u8, i: int)
    requires
        0 <= i < windows.len(),
    ensures
        frames_of(windows, alpha).len() == 5 * windows.len(),
        frames_of(windows, alpha).subrange(5 * i, 5 * i + 5) == frame_of(windows[i], alpha),
    decreases windows.len(),
{
    frames_have_five_each(windows, alpha);
    let all = frames_of(windows, alpha);
    let front = windows.drop_last();
    frames_have_five_each(front, alpha);
    if i == windows.len() - 1 {
        assert(all.subrange(5 * i, 5 * i + 5) =~= frame_of(windows[i], alpha));
    } else {
        frame_reaches_every_window(front, alpha, i);
        assert(all.subrange(5 * i, 5 * i + 5) =~= frames_of(front, alpha).subrange(
            5 * i,
            5 * i + 5,
        ));
    }
}

/// A frame holds five commands per window.
pub proof fn frames_have_five_each(windows: Seq<u64>, alpha: u8)
    ensures
        frames_of(windows, alpha).len() == 5 * windows.len(),
    decreases windows.len(),
{
    if windows.len() > 0 {
        frames_have_five_each(windows.drop_last(), alpha);
    }
}

/// When all events have been handed out, every window alive is painted and
/// has its alpha attribute set, both with the clamped opacity in force: a
/// change of the opacity shows on all windows at the next frame.
pub proof fn every_window_reflects_the_opacity(windows: Seq<u64>, opacity: u8, i: int)
    requires
        0 <= i < windows.len(),
    ensures
        commands_for(windows, OverlayEvent::EventsDrained, opacity).len() == 5 * windows.len(),
        commands_for(windows, OverlayEvent::EventsDrained, opacity)[5 * i] == (
        WindowCommand::Paint { window: windows[i], alpha: clamp_spec(opacity as int) as u8 }),
        commands_for(windows, OverlayEvent::EventsDrained, opacity)[5 * i + 2] == (
        WindowCommand::SetAlpha { window: windows[i], alpha: clamp_spec(opacity as int) as u8 }),
{
    let alpha = clamp_spec(opacity as int) as u8;
    frame_reaches_every_window(windows, alpha, i);
    let all = frames_of(windows, alpha);
    assert(all.subrange(5 * i, 5 * i + 5)[0] == all[5 * i]);
    assert(all.subrange(5 * i, 5 * i + 5)[2] == all[5 * i + 2]);
}

} // verus!
