use vstd::prelude::*;

use crate::telemetry::{
    records_of, BatteryInfo, BatteryRecord, HardwareQueryError, PowerSupplyMonitor, Reading,
};

verus! {

/// Shortest refresh interval, in seconds.
pub const MIN_INTERVAL_SECS: u64 = 1;

/// Longest refresh interval, in seconds.
pub const MAX_INTERVAL_SECS: u64 = 10;

/// Refresh interval at startup, in seconds.
pub const START_INTERVAL_SECS: u64 = 2;

/// A key press, as far as the dashboard tells keys apart.
#[derive(Clone, Copy, Debug, PartialEq, Eq, Structural)]
pub enum Key {
    Char(char),
    Esc,
    Enter,
    Other,
}

/// What the caller has to do after a key was handled.
#[derive(Clone, Copy, Debug, PartialEq, Eq, Structural)]
pub enum KeyEffect {
    /// Nothing beyond the state change already made.
    Nothing,
    /// Read the batteries now and hand the result to `App::refresh_data`.
    Refresh,
}

pub open spec fn is_quit_key(k: Key) -> bool {
    k == Key::Char('q') || k == Key::Esc
}

pub open spec fn is_refresh_key(k: Key) -> bool {
    k == Key::Char('r') || k == Key::Enter
}

/// The interval after one press of the increase key.
pub open spec fn increased(secs: int) -> int {
    if secs + 1 > MAX_INTERVAL_SECS {
        MAX_INTERVAL_SECS as int
    } else {
        secs + 1
    }
}

/// The interval after one press of the decrease key.
pub open spec fn decreased(secs: int) -> int {
    if secs - 1 < MIN_INTERVAL_SECS {
        MIN_INTERVAL_SECS as int
    } else {
        secs - 1
    }
}

/// The interval after `n` presses of the increase key.
pub open spec fn increased_n(secs: int, n: nat) -> int
    decreases n,
{
    if n == 0 {
        secs
    } else {
        increased(increased_n(secs, (n - 1) as nat))
    }
}

/// The interval after `n` presses of the decrease key.
pub open spec fn decreased_n(secs: int, n: nat) -> int
    decreases n,
{
    if n == 0 {
        secs
    } else {
        decreased(decreased_n(secs, (n - 1) as nat))
    }
}

/// The snapshot after a refresh from `listing`: replaced wholesale when the
/// listing could be made, kept as it was otherwise.
pub open spec fn records_after(
    before: Seq<BatteryRecord>,
    listing: Result<Vec<Option<Reading>>, HardwareQueryError>,
) -> Seq<BatteryRecord> {
    match listing {
        Ok(reads) => records_of(reads@),
        Err(_) => before,
    }
}

/// Pressing the increase key `n` times from a valid interval gives
/// `min(start + n, 10)`, pressing the decrease key `n` times gives
/// `max(start - n, 1)`: the interval never leaves [1, 10] and each press moves
/// it by exactly one second while it can.
pub proof fn lemma_interval_presses(start: int, n: nat)
    requires
        MIN_INTERVAL_SECS <= start <= MAX_INTERVAL_SECS,
    ensures
        increased_n(start, n) == if start + n > MAX_INTERVAL_SECS {
            MAX_INTERVAL_SECS as int
        } else {
            start + n
        },
        decreased_n(start, n) == if start - n < MIN_INTERVAL_SECS {
            MIN_INTERVAL_SECS as int
        } else {
            start - n
        },
        MIN_INTERVAL_SECS <= increased_n(start, n) <= MAX_INTERVAL_SECS,
        MIN_INTERVAL_SECS <= decreased_n(start, n) <= MAX_INTERVAL_SECS,
    decreases n,
{
    if n > 0 {
        lemma_interval_presses(start, (n - 1) as nat);
    }
}

/// Refreshing twice from the same telemetry leaves the same snapshot as
/// refreshing once.
pub proof fn lemma_refresh_idempotent(
    before: Seq<BatteryRecord>,
    listing: Result<Vec<Option<Reading>>, HardwareQueryError>,
)
    ensures
        records_after(records_after(before, listing), listing) == records_after(before, listing),
{
}

/// A refresh whose listing failed leaves the snapshot as it was.
pub proof fn lemma_failed_refresh_keeps_records(
    before: Seq<BatteryRecord>,
    e: HardwareQueryError,
)
    ensures
        records_after(before, Err(e)) == before,
{
}

/// The dashboard's state: the current snapshot, the exit flag and the refresh
/// timer. Times are milliseconds on a monotonic clock that the caller reads.
pub struct App {
    pub batteries: Vec<BatteryInfo>,
    pub should_exit: bool,
    last_refresh_ms: u64,
    refresh_interval_secs: u64,
}

impl App {
    /// The snapshot, as records.
    pub closed spec fn records(&self) -> Seq<BatteryRecord> {
        self.batteries@.map_values(|b: BatteryInfo| b@)
    }

    /// Whether the user asked to leave.
    pub closed spec fn exit_requested(&self) -> bool {
        self.should_exit
    }

    /// When the snapshot was last replaced, in milliseconds.
    pub closed spec fn last_refresh(&self) -> int {
        self.last_refresh_ms as int
    }

    /// The refresh interval, in seconds.
    pub closed spec fn interval(&self) -> int {
        self.refresh_interval_secs as int
    }

    pub open spec fn wf(&self) -> bool {
        MIN_INTERVAL_SECS <= self.interval() <= MAX_INTERVAL_SECS
    }

    /// The state at startup, with the first refresh already made from
    /// `listing` at time `now_ms`.
    pub fn new(listing: Result<Vec<Option<Reading>>, HardwareQueryError>, now_ms: u64) -> (r: App)
        ensures
            r.wf(),
            r.records() == records_after(Seq::empty(), listing),
            !r.exit_requested(),
            r.interval() == START_INTERVAL_SECS,
            r.last_refresh() == now_ms,
    {
        let mut app = App {
            batteries: Vec::new(),
            should_exit: false,
            last_refresh_ms: now_ms,
            refresh_interval_secs: START_INTERVAL_SECS,
        };
        proof {
            assert(app.records() =~= Seq::empty());
        }
        app.refresh_data(listing, now_ms);
        app
    }

    /// The refresh interval, in seconds.
    pub fn refresh_interval_secs(&self) -> (r: u64)
        ensures
            r == self.interval(),
    {
        self.refresh_interval_secs
    }

    /// Takes in a fresh listing read at `now_ms`. When the listing could be
    /// made, the snapshot is replaced and the refresh time moves to `now_ms`;
    /// when it could not, nothing changes.
    pub fn refresh_data(
        &mut self,
        listing: Result<Vec<Option<Reading>>, HardwareQueryError>,
        now_ms: u64,
    )
        ensures
            final(self).records() == records_after(old(self).records(), listing),
            listing is Err ==> final(self).records() == old(self).records(),
            final(self).last_refresh() == if listing is Ok {
                now_ms as int
            } else {
                old(self).last_refresh()
            },
            final(self).interval() == old(self).interval(),
            final(self).exit_requested() == old(self).exit_requested(),
    {
        let monitor = PowerSupplyMonitor::new();
        match monitor.get_batteries(listing) {
            Ok(batteries) => {
                self.batteries = batteries;
                self.last_refresh_ms = now_ms;
            },
            Err(_) => {},
        }
    }

    /// Whether a refresh is due at `now_ms`: at least the refresh interval has
    /// passed since the last one.
    pub fn should_refresh(&self, now_ms: u64) -> (r: bool)
        requires
            self.wf(),
        ensures
            r == (now_ms - self.last_refresh() >= self.interval() * 1000),
    {
        now_ms >= self.last_refresh_ms && now_ms - self.last_refresh_ms
            >= self.refresh_interval_secs * 1000
    }

    /// Handles one key press: quit sets the exit flag, refresh asks the caller
    /// for a refresh, '+' and '-' move the interval by a second within
    /// [1, 10]; any other key does nothing.
    pub fn handle_key_event(&mut self, key: Key) -> (r: KeyEffect)
        requires
            old(self).wf(),
        ensures
            final(self).wf(),
            final(self).records() == old(self).records(),
            final(self).last_refresh() == old(self).last_refresh(),
            final(self).exit_requested() == (old(self).exit_requested() || is_quit_key(key)),
            r == if is_refresh_key(key) {
                KeyEffect::Refresh
            } else {
                KeyEffect::Nothing
            },
            final(self).interval() == if key == Key::Char('+') {
                increased(old(self).interval())
            } else if key == Key::Char('-') {
                decreased(old(self).interval())
            } else {
                old(self).interval()
            },
    {
        match key {
            Key::Char('q') | Key::Esc => {
                self.should_exit = true;
                KeyEffect::Nothing
            },
            Key::Char('r') | Key::Enter => KeyEffect::Refresh,
            Key::Char('+') => {
                if self.refresh_interval_secs < MAX_INTERVAL_SECS {
                    self.refresh_interval_secs = self.refresh_interval_secs + 1;
                }
                KeyEffect::Nothing
            },
            Key::Char('-') => {
                if self.refresh_interval_secs > MIN_INTERVAL_SECS {
                    self.refresh_interval_secs = self.refresh_interval_secs - 1;
                }
                KeyEffect::Nothing
            },
            _ => KeyEffect::Nothing,
        }
    }
}

} // verus!
