//! The relay's data model: client roles, days, zones and schedules.
use vstd::prelude::*;

verus! {

/// The two kinds of peer the relay tells apart.
#[derive(Debug, Clone, Copy, PartialEq, Eq, Structural, Hash)]
pub enum ClientType {
    User,
    Controller,
}

impl ClientType {
    /// The other role: messages of one role are meant for the other.
    pub open spec fn other(self) -> ClientType {
        match self {
            ClientType::User => ClientType::Controller,
            ClientType::Controller => ClientType::User,
        }
    }

    /// The role a peer names in its first message: exactly `user` or
    /// `controller`; anything else names none.
    pub fn from_identification(text: &str) -> (r: Option<ClientType>)
        ensures
            r == (if text@ == "user"@ {
                Some(ClientType::User)
            } else if text@ == "controller"@ {
                Some(ClientType::Controller)
            } else {
                None
            }),
    {
        let given = String::from_str(text);
        if given == String::from_str("user") {
            Some(ClientType::User)
        } else if given == String::from_str("controller") {
            Some(ClientType::Controller)
        } else {
            None
        }
    }

    /// The role's display name.
    pub fn as_str(&self) -> (r: &'static str)
        ensures
            r@ == (match self {
                ClientType::User => "User"@,
                ClientType::Controller => "Controller"@,
            }),
    {
        match self {
            ClientType::User => "User",
            ClientType::Controller => "Controller",
        }
    }
}

#[derive(Debug, Clone, Copy, PartialEq, Eq, Structural, Hash)]
pub enum Day {
    Monday,
    Tuesday,
    Wednesday,
    Thursday,
    Friday,
    Saturday,
    Sunday,
}

/// The day `n` days after Monday, for `n < 7`.
pub open spec fn day_after_monday(n: nat) -> Day {
    if n == 0 {
        Day::Monday
    } else if n == 1 {
        Day::Tuesday
    } else if n == 2 {
        Day::Wednesday
    } else if n == 3 {
        Day::Thursday
    } else if n == 4 {
        Day::Friday
    } else if n == 5 {
        Day::Saturday
    } else {
        Day::Sunday
    }
}

impl Day {
    /// The day of the week that lies `n` days after Monday (Monday is 0,
    /// Sunday 6), or `None` for `n` of 7 or more.
    pub fn from_days_from_monday(n: u32) -> (r: Option<Day>)
        ensures
            n < 7 ==> r == Some(day_after_monday(n as nat)),
            n >= 7 ==> r is None,
    {
        match n {
            0 => Some(Day::Monday),
            1 => Some(Day::Tuesday),
            2 => Some(Day::Wednesday),
            3 => Some(Day::Thursday),
            4 => Some(Day::Friday),
            5 => Some(Day::Saturday),
            6 => Some(Day::Sunday),
            _ => None,
        }
    }
}

/// One of the six irrigation zones.
#[derive(Debug, Clone, Copy, PartialEq, Eq, Structural, Hash, PartialOrd, Ord)]
pub enum Zone {
    Zone1,
    Zone2,
    Zone3,
    Zone4,
    Zone5,
    Zone6,
}

/// The zone's number as the controller counts them, from 1 to 6.
pub open spec fn zone_number(z: Zone) -> u8 {
    match z {
        Zone::Zone1 => 1,
        Zone::Zone2 => 2,
        Zone::Zone3 => 3,
        Zone::Zone4 => 4,
        Zone::Zone5 => 5,
        Zone::Zone6 => 6,
    }
}

impl From<Zone> for u8 {
    fn from(zone: Zone) -> (r: u8) {
        match zone {
            Zone::Zone1 => 1,
            Zone::Zone2 => 2,
            Zone::Zone3 => 3,
            Zone::Zone4 => 4,
            Zone::Zone5 => 5,
            Zone::Zone6 => 6,
        }
    }
}

impl vstd::std_specs::convert::FromSpecImpl<Zone> for u8 {
    open spec fn obeys_from_spec() -> bool {
        true
    }

    open spec fn from_spec(zone: Zone) -> u8 {
        zone_number(zone)
    }
}

/// A zone and how long it waters, in minutes. Two periods are the same
/// period when they name the same zone.
#[derive(Debug, Clone, Copy)]
pub struct ActivePeriod {
    pub zone: Zone,
    pub duration_minutes: u32,
}

impl PartialEq for ActivePeriod {
    fn eq(&self, other: &ActivePeriod) -> (r: bool) {
        self.zone == other.zone
    }
}

impl Eq for ActivePeriod {}

impl vstd::std_specs::cmp::PartialEqSpecImpl for ActivePeriod {
    open spec fn obeys_eq_spec() -> bool {
        true
    }

    open spec fn eq_spec(&self, other: &ActivePeriod) -> bool {
        self.zone == other.zone
    }
}

/// A watering schedule: on each of `days`, at `start_time_minutes` after
/// midnight, the zones of `active_periods` water one after another.
#[derive(Debug)]
pub struct Schedule {
    pub name: String,
    pub days: Vec<Day>,
    pub active_periods: Vec<ActivePeriod>,
    pub start_time_minutes: u32,
    pub is_active: bool,
}

pub ghost struct ScheduleView {
    pub name: Seq<char>,
    pub days: Seq<Day>,
    pub active_periods: Seq<ActivePeriod>,
    pub start_time_minutes: u32,
    pub is_active: bool,
}

impl View for Schedule {
    type V = ScheduleView;

    open spec fn view(&self) -> ScheduleView {
        ScheduleView {
            name: self.name@,
            days: self.days@,
            active_periods: self.active_periods@,
            start_time_minutes: self.start_time_minutes,
            is_active: self.is_active,
        }
    }
}

/// No day is listed twice.
pub open spec fn days_distinct(days: Seq<Day>) -> bool {
    forall|i: int, j: int| 0 <= i < j < days.len() ==> days[i] != days[j]
}

/// No zone has two periods.
pub open spec fn zones_distinct(periods: Seq<ActivePeriod>) -> bool {
    forall|i: int, j: int| 0 <= i < j < periods.len() ==> periods[i].zone != periods[j].zone
}

impl ScheduleView {
    /// Days and periods are sets: each day, and each zone, at most once.
    pub open spec fn wf(self) -> bool {
        days_distinct(self.days) && zones_distinct(self.active_periods)
    }
}

} // verus!
