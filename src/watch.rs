use vstd::prelude::*;

verus! {

#[derive(Clone, Copy, Debug, PartialEq, Eq, Structural)]
pub enum WatchPhase {
    /// Not yet subscribed to change notifications.
    Idle,
    /// Subscribed; whether scans run also depends on the shared pause flag.
    Watching,
    /// The subscription failed or ended, or exit was asked for.
    Stopped,
}

/// The state of the receive, debounce and scan loop.
#[derive(Clone, Copy, Debug, PartialEq, Eq, Structural)]
pub struct WatchLoop {
    pub phase: WatchPhase,
    /// A burst of changes is being debounced: its window has not yet elapsed.
    pub pending: bool,
}

#[derive(Clone, Copy, Debug, PartialEq, Eq, Structural)]
pub enum WatchEvent {
    Subscribed,
    SubscribeFailed,
    /// A change notification arrived.
    Change,
    /// The subscription reported an error.
    ChangeError,
    /// The quiescence window that a burst opened has elapsed; `paused` is
    /// the shared pause flag as read at that moment.
    WindowElapsed { paused: bool },
    /// The notification channel closed.
    ChannelClosed,
    Quit,
}

#[derive(Clone, Copy, Debug, PartialEq, Eq, Structural)]
pub enum WatchAction {
    Nothing,
    /// Wait out the quiescence window, then report `WindowElapsed`.
    StartWindow,
    /// Scan the directory once.
    Scan,
    /// Log the subscription's error and go on listening.
    LogError,
    /// End the loop.
    Stop,
}

impl WatchLoop {
    pub open spec fn next(self, e: WatchEvent) -> (WatchLoop, WatchAction) {
        match self.phase {
            WatchPhase::Stopped => (self, WatchAction::Nothing),
            WatchPhase::Idle => match e {
                WatchEvent::Subscribed => (
                    WatchLoop { phase: WatchPhase::Watching, pending: false },
                    WatchAction::Nothing,
                ),
                WatchEvent::SubscribeFailed | WatchEvent::Quit | WatchEvent::ChannelClosed => (
                    WatchLoop { phase: WatchPhase::Stopped, pending: false },
                    WatchAction::Stop,
                ),
                _ => (self, WatchAction::Nothing),
            },
            WatchPhase::Watching => match e {
                WatchEvent::Change => if self.pending {
                    (self, WatchAction::Nothing)
                } else {
                    (WatchLoop { phase: WatchPhase::Watching, pending: true }, WatchAction::StartWindow)
                },
                WatchEvent::ChangeError => (self, WatchAction::LogError),
                WatchEvent::WindowElapsed { paused } => if !self.pending {
                    (self, WatchAction::Nothing)
                } else if paused {
                    (WatchLoop { phase: WatchPhase::Watching, pending: false }, WatchAction::Nothing)
                } else {
                    (WatchLoop { phase: WatchPhase::Watching, pending: false }, WatchAction::Scan)
                },
                WatchEvent::ChannelClosed | WatchEvent::Quit => (
                    WatchLoop { phase: WatchPhase::Stopped, pending: false },
                    WatchAction::Stop,
                ),
                WatchEvent::Subscribed | WatchEvent::SubscribeFailed => (self, WatchAction::Nothing),
            },
        }
    }

    /// A loop that has not subscribed yet.
    pub fn new() -> (r: WatchLoop)
        ensures
            r == (WatchLoop { phase: WatchPhase::Idle, pending: false }),
    {
        WatchLoop { phase: WatchPhase::Idle, pending: false }
    }

    /// Takes one event and says what to do next.
    pub fn handle(&mut self, e: WatchEvent) -> (a: WatchAction)
        ensures
            (*final(self), a) == old(self).next(e),
    {
        match self.phase {
            WatchPhase::Stopped => WatchAction::Nothing,
            WatchPhase::Idle => match e {
                WatchEvent::Subscribed => {
                    self.phase = WatchPhase::Watching;
                    self.pending = false;
                    WatchAction::Nothing
                },
                WatchEvent::SubscribeFailed | WatchEvent::Quit | WatchEvent::ChannelClosed => {
                    self.phase = WatchPhase::Stopped;
                    self.pending = false;
                    WatchAction::Stop
                },
                _ => WatchAction::Nothing,
            },
            WatchPhase::Watching => match e {
                WatchEvent::Change => if self.pending {
                    WatchAction::Nothing
                } else {
                    self.pending = true;
                    WatchAction::StartWindow
                },
                WatchEvent::ChangeError => WatchAction::LogError,
                WatchEvent::WindowElapsed { paused } => if !self.pending {
                    WatchAction::Nothing
                } else {
                    self.pending = false;
                    if paused {
                        WatchAction::Nothing
                    } else {
                        WatchAction::Scan
                    }
                },
                WatchEvent::ChannelClosed | WatchEvent::Quit => {
                    self.phase = WatchPhase::Stopped;
                    self.pending = false;
                    WatchAction::Stop
                },
                WatchEvent::Subscribed | WatchEvent::SubscribeFailed => WatchAction::Nothing,
            },
        }
    }

    pub fn is_stopped(&self) -> (r: bool)
        ensures
            r == (self.phase == WatchPhase::Stopped),
    {
        self.phase == WatchPhase::Stopped
    }
}

/// The state and the actions after `events`, taken in order from `s`.
pub open spec fn run_events(s: WatchLoop, events: Seq<WatchEvent>) -> (WatchLoop, Seq<WatchAction>)
    decreases events.len(),
{
    if events.len() == 0 {
        (s, Seq::empty())
    } else {
        let (mid, acts) = run_events(s, events.drop_last());
        let (last, a) = mid.next(events.last());
        (last, acts.push(a))
    }
}

/// `n` change notifications in a row.
pub open spec fn burst(n: nat) -> Seq<WatchEvent> {
    Seq::new(n, |i: int| WatchEvent::Change)
}

proof fn burst_opens_one_window(s: WatchLoop, n: nat)
    requires
        s.phase == WatchPhase::Watching,
        !s.pending,
        n >= 1,
    ensures
        run_events(s, burst(n)).0 == (WatchLoop { phase: WatchPhase::Watching, pending: true }),
        run_events(s, burst(n)).1.len() == n,
        run_events(s, burst(n)).1[0] == WatchAction::StartWindow,
        forall|i: int| 1 <= i < n ==> run_events(s, burst(n)).1[i] == WatchAction::Nothing,
    decreases n,
{
    let prev = (n - 1) as nat;
    assert(burst(n).drop_last() =~= burst(prev));
    assert(burst(n).last() == WatchEvent::Change);
    if n > 1 {
        burst_opens_one_window(s, prev);
    } else {
        assert(burst(prev) =~= Seq::<WatchEvent>::empty());
        assert(run_events(s, burst(prev)) == (s, Seq::<WatchAction>::empty()));
    }
    let (mid, acts) = run_events(s, burst(prev));
    assert(run_events(s, burst(n)) == (mid.next(WatchEvent::Change).0, acts.push(
        mid.next(WatchEvent::Change).1,
    )));
}

/// Debouncing: `n >= 1` change notifications that arrive before the window
/// that the first one opened has elapsed give exactly one scan, when that
/// window elapses unpaused.
pub proof fn burst_scans_once(s: WatchLoop, n: nat)
    requires
        s.phase == WatchPhase::Watching,
        !s.pending,
        n >= 1,
    ensures
        ({
            let (end, acts) = run_events(s, burst(n).push(WatchEvent::WindowElapsed { paused: false }));
            &&& acts.len() == n + 1
            &&& acts[n as int] == WatchAction::Scan
            &&& forall|i: int| 0 <= i < n ==> acts[i] != WatchAction::Scan
            &&& end == (WatchLoop { phase: WatchPhase::Watching, pending: false })
        }),
{
    burst_opens_one_window(s, n);
    let events = burst(n).push(WatchEvent::WindowElapsed { paused: false });
    assert(events.drop_last() =~= burst(n));
}

/// The commands of the control surface.
#[derive(Clone, Copy, Debug, PartialEq, Eq, Structural)]
pub enum MenuCommand {
    TogglePause,
    OpenLog,
    Exit,
}

#[derive(Clone, Copy, Debug, PartialEq, Eq, Structural)]
pub enum ControlEffect {
    /// The pause flag now holds this value.
    SetPaused(bool),
    OpenLog,
    Exit,
}

/// What a command does, given the pause flag's value before it; a toggle
/// flips the flag, so only the latest value matters.
pub fn control_effect(cmd: MenuCommand, was_paused: bool) -> (r: ControlEffect)
    ensures
        r == match cmd {
            MenuCommand::TogglePause => ControlEffect::SetPaused(!was_paused),
            MenuCommand::OpenLog => ControlEffect::OpenLog,
            MenuCommand::Exit => ControlEffect::Exit,
        },
{
    match cmd {
        MenuCommand::TogglePause => ControlEffect::SetPaused(!was_paused),
        MenuCommand::OpenLog => ControlEffect::OpenLog,
        MenuCommand::Exit => ControlEffect::Exit,
    }
}

/// The label the pause command shows: the action it would take next.
pub fn pause_label(paused: bool) -> (r: &'static str)
    ensures
        paused ==> r@ == seq!['R', 'e', 's', 'u', 'm', 'e'],
        !paused ==> r@ == seq!['P', 'a', 'u', 's', 'e'],
{
    proof {
        reveal_strlit("Resume");
        reveal_strlit("Pause");
    }
    if paused {
        "Resume"
    } else {
        "Pause"
    }
}

/// Pausing: while the flag is set, an elapsed window closes the burst
/// without a scan; toggling the flag back makes the next elapsed window scan.
pub proof fn pause_suppresses_scan_until_resumed(s: WatchLoop, was_paused: bool)
    requires
        s.phase == WatchPhase::Watching,
        s.pending,
        was_paused,
    ensures
        s.next(WatchEvent::WindowElapsed { paused: was_paused }) == (
            WatchLoop { phase: WatchPhase::Watching, pending: false },
            WatchAction::Nothing,
        ),
        ({
            let resumed = match (ControlEffect::SetPaused(!was_paused)) {
                ControlEffect::SetPaused(p) => p,
                _ => true,
            };
            s.next(WatchEvent::WindowElapsed { paused: resumed }).1 == WatchAction::Scan
        }),
{
}

} // verus!
