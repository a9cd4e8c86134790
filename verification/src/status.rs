//! The connection status shown by the tray and sent to the chat window.

use vstd::prelude::*;

verus! {

/// Connection status reported to the frontend and the tray.
#[derive(Debug, Clone, Copy, PartialEq, Eq, Structural)]
pub enum ConnectionStatus {
    Disconnected,
    Idle,
    Busy,
}

impl ConnectionStatus {
    /// The name under which the status travels to the frontend.
    pub open spec fn name(self) -> Seq<char> {
        match self {
            ConnectionStatus::Disconnected => "disconnected"@,
            ConnectionStatus::Idle => "idle"@,
            ConnectionStatus::Busy => "busy"@,
        }
    }

    /// The name under which the status travels to the frontend
    /// (`"disconnected"`, `"idle"` or `"busy"`).
    pub fn as_str(&self) -> (r: &'static str)
        ensures
            r@ == self.name(),
    {
        match self {
            ConnectionStatus::Disconnected => "disconnected",
            ConnectionStatus::Idle => "idle",
            ConnectionStatus::Busy => "busy",
        }
    }
}

impl ConnectionStatus {
    /// The tray tooltip for the status.
    pub open spec fn tooltip_text(self) -> Seq<char> {
        match self {
            ConnectionStatus::Disconnected => "HermesTray — disconnected"@,
            ConnectionStatus::Idle => "HermesTray — idle"@,
            ConnectionStatus::Busy => "HermesTray — busy"@,
        }
    }

    /// The tray tooltip for the status.
    pub fn tooltip(&self) -> (r: &'static str)
        ensures
            r@ == self.tooltip_text(),
    {
        match self {
            ConnectionStatus::Disconnected => "HermesTray — disconnected",
            ConnectionStatus::Idle => "HermesTray — idle",
            ConnectionStatus::Busy => "HermesTray — busy",
        }
    }

    /// The color of the tray icon's circle: gray, green or orange.
    pub open spec fn rgb(self) -> (u8, u8, u8) {
        match self {
            ConnectionStatus::Disconnected => (160, 160, 160),
            ConnectionStatus::Idle => (80, 220, 100),
            ConnectionStatus::Busy => (255, 170, 50),
        }
    }

    /// The color of the tray icon's circle.
    pub fn color(&self) -> (r: (u8, u8, u8))
        ensures
            r == self.rgb(),
    {
        match self {
            ConnectionStatus::Disconnected => (160, 160, 160),
            ConnectionStatus::Idle => (80, 220, 100),
            ConnectionStatus::Busy => (255, 170, 50),
        }
    }
}

/// Each status has its own name, tooltip and icon color, so the frontend and
/// the tray tell all three apart.
pub proof fn lemma_statuses_distinct(a: ConnectionStatus, b: ConnectionStatus)
    ensures
        a.name() == b.name() ==> a == b,
        a.tooltip_text() == b.tooltip_text() ==> a == b,
        a.rgb() == b.rgb() ==> a == b,
{
    reveal_strlit("disconnected");
    reveal_strlit("idle");
    reveal_strlit("busy");
    reveal_strlit("HermesTray — disconnected");
    reveal_strlit("HermesTray — idle");
    reveal_strlit("HermesTray — busy");
    if a != b && a.name() == b.name() {
        assert(a.name().len() != b.name().len() || a.name()[0] != b.name()[0]);
    }
    if a != b && a.tooltip_text() == b.tooltip_text() {
        assert(a.tooltip_text().len() != b.tooltip_text().len() || a.tooltip_text()[13]
            != b.tooltip_text()[13]);
    }
}

/// The status whose icon has the color `(r, g, b)`, if any.
pub open spec fn status_of_color(r: u8, g: u8, b: u8) -> Option<ConnectionStatus> {
    if (r, g, b) == ConnectionStatus::Disconnected.rgb() {
        Some(ConnectionStatus::Disconnected)
    } else if (r, g, b) == ConnectionStatus::Idle.rgb() {
        Some(ConnectionStatus::Idle)
    } else if (r, g, b) == ConnectionStatus::Busy.rgb() {
        Some(ConnectionStatus::Busy)
    } else {
        None
    }
}

/// Asking for the icon of a status's color gives that status's cached icon,
/// and any color that is no status's is drawn afresh.
pub proof fn lemma_icon_cache_round_trip(s: ConnectionStatus, r: u8, g: u8, b: u8)
    ensures
        status_of_color(s.rgb().0, s.rgb().1, s.rgb().2) == Some(s),
        status_of_color(r, g, b) is None <==> forall|t: ConnectionStatus| #[trigger] t.rgb() != (r, g, b),
{
    assert forall|t: ConnectionStatus| status_of_color(r, g, b) is None implies #[trigger] t.rgb() != (r, g, b) by {
        match t {
            ConnectionStatus::Disconnected => {},
            ConnectionStatus::Idle => {},
            ConnectionStatus::Busy => {},
        }
    }
    match status_of_color(r, g, b) {
        Some(t) => assert(t.rgb() == (r, g, b)),
        None => {},
    }
}

/// The status whose cached tray icon has the color `(r, g, b)`, if any;
/// any other color is drawn afresh.
pub fn cached_icon_for(r: u8, g: u8, b: u8) -> (s: Option<ConnectionStatus>)
    ensures
        s == status_of_color(r, g, b),
{
    if r == 160 && g == 160 && b == 160 {
        Some(ConnectionStatus::Disconnected)
    } else if r == 80 && g == 220 && b == 100 {
        Some(ConnectionStatus::Idle)
    } else if r == 255 && g == 170 && b == 50 {
        Some(ConnectionStatus::Busy)
    } else {
        None
    }
}

/// The tooltip that the tray shows before the first poll.
pub fn startup_tooltip() -> (r: &'static str)
    ensures
        r@ == "HermesTray — connecting..."@,
{
    "HermesTray — connecting..."
}

/// The answer to a connection test: an error when the agent cannot be
/// reached, else the status found.
pub fn connection_test(status: ConnectionStatus) -> (r: Result<ConnectionStatus, String>)
    ensures
        match r {
            Ok(s) => status != ConnectionStatus::Disconnected && s == status,
            Err(e) => status == ConnectionStatus::Disconnected && e@ == "Cannot reach Hermes API"@,
        },
{
    match status {
        ConnectionStatus::Disconnected => Err("Cannot reach Hermes API".to_owned()),
        other => Ok(other),
    }
}

/// The last status the poller saw.
pub struct StatusTracker {
    last: Option<ConnectionStatus>,
}

impl StatusTracker {
    /// The last status seen, if any.
    pub closed spec fn last_seen(&self) -> Option<ConnectionStatus> {
        self.last
    }

    /// A tracker that has seen nothing yet.
    pub fn new() -> (t: StatusTracker)
        ensures
            t.last_seen() is None,
    {
        StatusTracker { last: None }
    }

    /// The last status seen, if any.
    pub fn last(&self) -> (r: Option<ConnectionStatus>)
        ensures
            r == self.last_seen(),
    {
        self.last
    }

    /// Records a polled status; says whether it differs from the last one
    /// seen (the first status always does).
    pub fn observe(&mut self, status: ConnectionStatus) -> (changed: bool)
        ensures
            final(self).last_seen() == Some(status),
            changed == (old(self).last_seen() != Some(status)),
    {
        let changed = match self.last {
            Some(prev) => prev != status,
            None => true,
        };
        if changed {
            self.last = Some(status);
        }
        changed
    }
}

} // verus!
