use vstd::prelude::*;
use crate::launcher::{CalendarDate, ClockTime, HomeSnapshot, HomeStatus};

verus! {

/// Wait between connection attempts, and before retrying a failed weather
/// request.
pub const CONNECT_RETRY_US: i64 = 10_000_000;
/// Wait between weather requests that succeeded.
pub const WEATHER_REFRESH_US: i64 = 600_000_000;
/// Wait between clock reads.
pub const CLOCK_REFRESH_US: i64 = 60_000_000;
/// A time from which every step of the schedule can plan without
/// overflowing.
pub const LATEST_US: i64 = 9_223_372_036_254_775_807;

/// The abstract state of the network schedule.
pub struct NetworkPlan {
    pub wifi_initialized: bool,
    pub sntp_started: bool,
    pub next_connect_us: i64,
    pub next_weather_us: i64,
    pub next_clock_us: i64,
    pub last_temperature: Option<i16>,
    pub snapshot: HomeSnapshot,
}

/// The status line for what is known: Wi-Fi first, then the time, then the
/// weather.
pub open spec fn status_for(connected: bool, snapshot: HomeSnapshot) -> HomeStatus {
    if !connected {
        HomeStatus::Wifi
    } else if snapshot.time is None {
        HomeStatus::Time
    } else if snapshot.temperature_tenths_c is None {
        HomeStatus::Weather
    } else {
        HomeStatus::Ready
    }
}

/// Decides when the home screen's network work is due: connecting to
/// Wi-Fi, starting time sync, reading the clock and asking for the
/// weather. The host does the work and reports what came back.
#[derive(Debug, Clone, Copy)]
pub struct NetworkSchedule {
    wifi_initialized: bool,
    sntp_started: bool,
    next_connect_us: i64,
    next_weather_us: i64,
    next_clock_us: i64,
    last_temperature: Option<i16>,
    snapshot: HomeSnapshot,
}

impl View for NetworkSchedule {
    type V = NetworkPlan;

    closed spec fn view(&self) -> NetworkPlan {
        NetworkPlan {
            wifi_initialized: self.wifi_initialized,
            sntp_started: self.sntp_started,
            next_connect_us: self.next_connect_us,
            next_weather_us: self.next_weather_us,
            next_clock_us: self.next_clock_us,
            last_temperature: self.last_temperature,
            snapshot: self.snapshot,
        }
    }
}

impl NetworkSchedule {
    /// Nothing done yet, nothing known.
    pub fn new() -> (r: Self)
        ensures
            r@ == (NetworkPlan {
                wifi_initialized: false,
                sntp_started: false,
                next_connect_us: 0,
                next_weather_us: 0,
                next_clock_us: 0,
                last_temperature: None,
                snapshot: HomeSnapshot { time: None, date: None, temperature_tenths_c: None, status: HomeStatus::Wifi },
            }),
    {
        NetworkSchedule {
            wifi_initialized: false,
            sntp_started: false,
            next_connect_us: 0,
            next_weather_us: 0,
            next_clock_us: 0,
            last_temperature: None,
            snapshot: HomeSnapshot::placeholders(),
        }
    }

    /// Wi-Fi came up: connect at once, and wait for the time.
    pub fn wifi_started(&mut self, now_us: i64)
        ensures
            final(self)@ == (NetworkPlan {
                wifi_initialized: true,
                next_connect_us: now_us,
                snapshot: HomeSnapshot { status: HomeStatus::Time, ..old(self)@.snapshot },
                ..old(self)@
            }),
    {
        self.wifi_initialized = true;
        self.next_connect_us = now_us;
        self.snapshot.status = HomeStatus::Time;
    }

    /// Without Wi-Fi the status says so; the clock is read every round.
    pub fn offline(&mut self)
        ensures
            final(self)@ == (NetworkPlan {
                snapshot: HomeSnapshot { status: HomeStatus::Wifi, ..old(self)@.snapshot },
                ..old(self)@
            }),
    {
        self.snapshot.status = HomeStatus::Wifi;
    }

    /// Whether to try to connect now; a try is followed by a pause before
    /// the next.
    pub fn connect_due(&mut self, now_us: i64, connected: bool) -> (r: bool)
        requires
            now_us <= i64::MAX - CONNECT_RETRY_US,
        ensures
            r == (!connected && now_us >= old(self)@.next_connect_us),
            final(self)@ == if r {
                NetworkPlan { next_connect_us: (now_us + CONNECT_RETRY_US) as i64, ..old(self)@ }
            } else {
                old(self)@
            },
    {
        if !connected && now_us >= self.next_connect_us {
            self.next_connect_us = now_us + CONNECT_RETRY_US;
            return true;
        }
        false
    }

    /// Whether to start time sync now: once, after the first connection.
    pub fn sntp_due(&mut self, connected: bool) -> (r: bool)
        ensures
            r == (connected && !old(self)@.sntp_started),
            final(self)@ == (NetworkPlan { sntp_started: old(self)@.sntp_started || r, ..old(self)@ }),
    {
        if connected && !self.sntp_started {
            self.sntp_started = true;
            return true;
        }
        false
    }

    /// Whether the clock is due for a read.
    pub fn clock_due(&self, now_us: i64) -> (r: bool)
        ensures
            r == (now_us >= self@.next_clock_us),
    {
        now_us >= self.next_clock_us
    }

    /// The clock was read: the next read is a minute later. A reading
    /// replaces the time and date; the temperature shown is the last one
    /// received.
    pub fn clock_read(&mut self, now_us: i64, reading: Option<(ClockTime, CalendarDate)>)
        requires
            now_us <= i64::MAX - CLOCK_REFRESH_US,
        ensures
            final(self)@ == (NetworkPlan {
                next_clock_us: (now_us + CLOCK_REFRESH_US) as i64,
                snapshot: HomeSnapshot {
                    time: match reading { Some(r) => Some(r.0), None => old(self)@.snapshot.time },
                    date: match reading { Some(r) => Some(r.1), None => old(self)@.snapshot.date },
                    temperature_tenths_c: old(self)@.last_temperature,
                    ..old(self)@.snapshot
                },
                ..old(self)@
            }),
    {
        self.next_clock_us = now_us + CLOCK_REFRESH_US;
        if let Some((time, date)) = reading {
            self.snapshot.time = Some(time);
            self.snapshot.date = Some(date);
        }
        self.snapshot.temperature_tenths_c = self.last_temperature;
    }

    /// Whether to ask for the weather now.
    pub fn weather_due(&self, now_us: i64, connected: bool) -> (r: bool)
        ensures
            r == (connected && now_us >= self@.next_weather_us),
    {
        connected && now_us >= self.next_weather_us
    }

    /// The weather request came back: a temperature is kept and shown and
    /// the next request is ten minutes later; a failure retries sooner.
    pub fn weather_read(&mut self, now_us: i64, temperature_tenths_c: Option<i16>)
        requires
            now_us <= i64::MAX - if temperature_tenths_c is Some { WEATHER_REFRESH_US } else { CONNECT_RETRY_US },
        ensures
            final(self)@ == match temperature_tenths_c {
                Some(t) => NetworkPlan {
                    last_temperature: Some(t),
                    snapshot: HomeSnapshot { temperature_tenths_c: Some(t), ..old(self)@.snapshot },
                    next_weather_us: (now_us + WEATHER_REFRESH_US) as i64,
                    ..old(self)@
                },
                None => NetworkPlan { next_weather_us: (now_us + CONNECT_RETRY_US) as i64, ..old(self)@ },
            },
    {
        match temperature_tenths_c {
            Some(t) => {
                self.last_temperature = Some(t);
                self.snapshot.temperature_tenths_c = Some(t);
                self.next_weather_us = now_us + WEATHER_REFRESH_US;
            },
            None => {
                self.next_weather_us = now_us + CONNECT_RETRY_US;
            },
        }
    }

    /// Sets the status line from the connection and what is known.
    pub fn settle_status(&mut self, connected: bool)
        ensures
            final(self)@ == (NetworkPlan {
                snapshot: HomeSnapshot { status: status_for(connected, old(self)@.snapshot), ..old(self)@.snapshot },
                ..old(self)@
            }),
    {
        self.snapshot.status = if !connected {
            HomeStatus::Wifi
        } else if self.snapshot.time.is_none() {
            HomeStatus::Time
        } else if self.snapshot.temperature_tenths_c.is_none() {
            HomeStatus::Weather
        } else {
            HomeStatus::Ready
        };
    }

    pub fn wifi_initialized(&self) -> (r: bool)
        ensures
            r == self@.wifi_initialized,
    {
        self.wifi_initialized
    }

    /// What the home screen shows.
    pub fn snapshot(&self) -> (r: HomeSnapshot)
        ensures
            r == self@.snapshot,
    {
        self.snapshot
    }
}

impl Default for NetworkSchedule {
    fn default() -> (r: Self)
        ensures
            !r@.wifi_initialized,
            r@.snapshot.status == HomeStatus::Wifi,
    {
        Self::new()
    }
}

/// A temperature once received stays on the home screen: later clock reads
/// and failed weather requests keep it.
pub proof fn law_temperature_kept(s: NetworkPlan, t: i16, now_us: i64, reading: Option<(ClockTime, CalendarDate)>)
    requires
        s.last_temperature == Some(t),
    ensures
        (NetworkPlan {
            next_clock_us: (now_us + CLOCK_REFRESH_US) as i64,
            snapshot: HomeSnapshot {
                time: match reading { Some(r) => Some(r.0), None => s.snapshot.time },
                date: match reading { Some(r) => Some(r.1), None => s.snapshot.date },
                temperature_tenths_c: s.last_temperature,
                ..s.snapshot
            },
            ..s
        }).snapshot.temperature_tenths_c == Some(t),
{
}

/// The status is ready exactly when connected with the time and a
/// temperature known.
pub proof fn law_ready_status(connected: bool, snapshot: HomeSnapshot)
    ensures
        (status_for(connected, snapshot) == HomeStatus::Ready) == (connected && snapshot.time is Some
            && snapshot.temperature_tenths_c is Some),
{
}

} // verus!
