use vstd::prelude::*;
use crate::text::{decimal, push_decimal, push_str, string_of};

verus! {

/// The four seasons, in calendar order.
#[derive(Debug, Clone, Copy, PartialEq, Eq, Hash, Structural)]
pub enum Season {
    Spring,
    Summer,
    Fall,
    Winter,
}

/// Position of a season within the year (Spring = 0 … Winter = 3).
pub open spec fn season_index(s: Season) -> nat {
    match s {
        Season::Spring => 0,
        Season::Summer => 1,
        Season::Fall => 2,
        Season::Winter => 3,
    }
}

/// The season with the given position within the year.
pub open spec fn season_of_index(i: nat) -> Season {
    if i % 4 == 0 {
        Season::Spring
    } else if i % 4 == 1 {
        Season::Summer
    } else if i % 4 == 2 {
        Season::Fall
    } else {
        Season::Winter
    }
}

/// The seasons cycle: four steps from any season lead back to it, and
/// each step moves one position on.
pub proof fn law_season_cycle(s: Season)
    ensures
        season_of_index(season_index(season_of_index(season_index(season_of_index(season_index(season_of_index(season_index(s) + 1)) + 1)) + 1)) + 1) == s,
        season_index(season_of_index(season_index(s) + 1)) == (season_index(s) + 1) % 4,
{
}

impl Season {
    /// The season that follows this one; Winter wraps to Spring.
    pub fn next(self) -> (r: Self)
        ensures
            season_index(r) == (season_index(self) + 1) % 4,
            r == season_of_index(season_index(self) + 1),
    {
        match self {
            Season::Spring => Season::Summer,
            Season::Summer => Season::Fall,
            Season::Fall => Season::Winter,
            Season::Winter => Season::Spring,
        }
    }

    pub fn index(self) -> (r: usize)
        ensures
            r as nat == season_index(self),
    {
        match self {
            Season::Spring => 0,
            Season::Summer => 1,
            Season::Fall => 2,
            Season::Winter => 3,
        }
    }
}

/// The name of a season.
pub open spec fn season_label(s: Season) -> &'static str {
    match s {
        Season::Spring => "Spring",
        Season::Summer => "Summer",
        Season::Fall => "Fall",
        Season::Winter => "Winter",
    }
}

pub fn season_name(s: Season) -> (r: &'static str)
    ensures
        r == season_label(s),
{
    match s {
        Season::Spring => "Spring",
        Season::Summer => "Summer",
        Season::Fall => "Fall",
        Season::Winter => "Winter",
    }
}

/// Days of the week; every season starts on a Monday.
#[derive(Debug, Clone, Copy, PartialEq, Eq, Hash, Structural)]
pub enum DayOfWeek {
    Monday,
    Tuesday,
    Wednesday,
    Thursday,
    Friday,
    Saturday,
    Sunday,
}

#[derive(Debug, Clone, Copy, PartialEq, Eq, Hash, Structural)]
pub enum Weather {
    Sunny,
    Rainy,
    Stormy,
    Snowy,
}

/// The weekday at position `i` (0 = Monday) of a repeating week.
pub open spec fn weekday_at(i: nat) -> DayOfWeek {
    let r = i % 7;
    if r == 0 { DayOfWeek::Monday }
    else if r == 1 { DayOfWeek::Tuesday }
    else if r == 2 { DayOfWeek::Wednesday }
    else if r == 3 { DayOfWeek::Thursday }
    else if r == 4 { DayOfWeek::Friday }
    else if r == 5 { DayOfWeek::Saturday }
    else { DayOfWeek::Sunday }
}

pub const DAYS_PER_SEASON: u8 = 28;
pub const SEASONS_PER_YEAR: u8 = 4;

/// The in-game date and clock. Day runs 1-28, hour 6-25 (25 = 1 AM of the
/// next day), minute 0-59.
#[derive(Debug, Clone)]
pub struct Calendar {
    pub year: u32,
    pub season: Season,
    pub day: u8,
    pub hour: u8,
    pub minute: u8,
    pub weather: Weather,
    pub time_paused: bool,
}

/// Number of whole days since Spring 1 of year 1.
pub open spec fn days_elapsed(year: nat, season: Season, day: nat) -> int {
    (year - 1) * 112 + season_index(season) * 28 + (day - 1)
}

/// The day of the season on which the season's festival is held.
pub open spec fn festival_day_of(season: Season) -> nat {
    match season {
        Season::Spring => 13,
        Season::Summer => 11,
        Season::Fall => 16,
        Season::Winter => 25,
    }
}

impl Default for Calendar {
    fn default() -> (c: Self)
        ensures
            c.year == 1,
            c.season == Season::Spring,
            c.day == 1,
            c.hour == 6,
            c.minute == 0,
            c.weather == Weather::Sunny,
            !c.time_paused,
    {
        Calendar {
            year: 1,
            season: Season::Spring,
            day: 1,
            hour: 6,
            minute: 0,
            weather: Weather::Sunny,
            time_paused: false,
        }
    }
}

impl Calendar {
    pub fn day_of_week(&self) -> (r: DayOfWeek)
        requires
            self.day >= 1,
        ensures
            r == weekday_at((season_index(self.season) * 28 + self.day - 1) as nat),
            r == weekday_at((self.day - 1) as nat),
    {
        let total_days: u32 = (self.season.index() as u32 * 28) + (self.day as u32 - 1);
        let r = match total_days % 7 {
            0 => DayOfWeek::Monday,
            1 => DayOfWeek::Tuesday,
            2 => DayOfWeek::Wednesday,
            3 => DayOfWeek::Thursday,
            4 => DayOfWeek::Friday,
            5 => DayOfWeek::Saturday,
            _ => DayOfWeek::Sunday,
        };
        proof {
            let i = season_index(self.season);
            let d = (self.day - 1) as nat;
            assert((i * 28 + d) % 7 == d % 7) by (nonlinear_arith)
                requires i <= 3;
        }
        r
    }

    pub fn total_days_elapsed(&self) -> (r: u32)
        requires
            self.year >= 1,
            self.day >= 1,
            days_elapsed(self.year as nat, self.season, self.day as nat) <= u32::MAX,
        ensures
            r == days_elapsed(self.year as nat, self.season, self.day as nat),
    {
        ((self.year - 1) * 112) + (self.season.index() as u32 * 28) + (self.day as u32 - 1)
    }

    pub fn is_festival_day(&self) -> (r: bool)
        ensures
            r == (self.day == festival_day_of(self.season)),
    {
        match (self.season, self.day) {
            (Season::Spring, 13) | (Season::Summer, 11) | (Season::Fall, 16) | (Season::Winter, 25) => true,
            _ => false,
        }
    }
}

// ── Calendar planner helpers ──────────────────────────────────────────

/// The name of the season's festival.
pub open spec fn festival_label(season: Season) -> &'static str {
    match season {
        Season::Spring => "Egg Fest",
        Season::Summer => "Luau",
        Season::Fall => "Harvest",
        Season::Winter => "W.Star",
    }
}

pub fn festival_for_season(season: Season) -> (r: (u8, &'static str))
    ensures
        r.0 == festival_day_of(season),
        r.1 == festival_label(season),
{
    match season {
        Season::Spring => (13, "Egg Fest"),
        Season::Summer => (11, "Luau"),
        Season::Fall => (16, "Harvest"),
        Season::Winter => (25, "W.Star"),
    }
}

pub fn festival_name(season: Season, day: u8) -> (r: Option<&'static str>)
    ensures
        r == (if day == festival_day_of(season) { Some(festival_label(season)) } else { None::<&'static str> }),
{
    let (festival_day, name) = festival_for_season(season);
    if festival_day == day { Some(name) } else { None }
}

pub fn is_festival_day(season: Season, day: u8) -> (r: bool)
    ensures
        r == (day == festival_day_of(season)),
{
    festival_name(season, day).is_some()
}

/// The season's festival, if it is today or still ahead.
pub fn upcoming_festival_in_season(season: Season, current_day: u8) -> (r: Option<(u8, &'static str)>)
    ensures
        r == (if festival_day_of(season) >= current_day {
            Some((festival_day_of(season) as u8, festival_label(season)))
        } else {
            None::<(u8, &'static str)>
        }),
{
    let (festival_day, name) = festival_for_season(season);
    if festival_day >= current_day { Some((festival_day, name)) } else { None }
}

/// The following day of the same season, if there is one.
pub fn next_day_in_season(day: u8) -> (r: Option<u8>)
    ensures
        r == (if day < 28 { Some((day + 1) as u8) } else { None::<u8> }),
{
    if day < 28 { Some(day + 1) } else { None }
}

/// Short weekday name of a day of the season (day 1 is a Monday).
pub open spec fn weekday_label(day: nat) -> &'static str {
    let r = (day - 1) % 7;
    if r == 0 { "Mon" }
    else if r == 1 { "Tue" }
    else if r == 2 { "Wed" }
    else if r == 3 { "Thu" }
    else if r == 4 { "Fri" }
    else if r == 5 { "Sat" }
    else { "Sun" }
}

pub fn weekday_name(day: u8) -> (r: &'static str)
    requires
        day >= 1,
    ensures
        r == weekday_label(day as nat),
{
    match (day - 1) % 7 {
        0 => "Mon",
        1 => "Tue",
        2 => "Wed",
        3 => "Thu",
        4 => "Fri",
        5 => "Sat",
        _ => "Sun",
    }
}

/// The tag a planner cell carries, by precedence: today, yesterday,
/// tomorrow, a birthday, the coming festival.
pub open spec fn day_tag_of(day: nat, current_day: nat, has_birthday: bool, upcoming: Option<u8>) -> Option<&'static str> {
    if day == current_day {
        Some("Today")
    } else if day + 1 == current_day {
        Some("Yesterday")
    } else if day == current_day + 1 {
        Some("Tomorrow")
    } else if has_birthday {
        Some("Birthday")
    } else if upcoming == Some(day as u8) {
        Some("Festival Soon")
    } else {
        None
    }
}

pub fn day_tag(day: u8, current_day: u8, has_birthday: bool, upcoming_festival_day: Option<u8>) -> (r: Option<&'static str>)
    requires
        day != current_day ==> day < 255 && (day + 1 != current_day ==> current_day < 255),
    ensures
        r == day_tag_of(day as nat, current_day as nat, has_birthday, upcoming_festival_day),
{
    if day == current_day {
        Some("Today")
    } else if day + 1 == current_day {
        Some("Yesterday")
    } else if day == current_day + 1 {
        Some("Tomorrow")
    } else if has_birthday {
        Some("Birthday")
    } else if upcoming_festival_day == Some(day) {
        Some("Festival Soon")
    } else {
        None
    }
}

/// Whether some birthday in the list falls on `day`.
pub open spec fn has_birthday_on(birthdays: Seq<(u8, String)>, day: u8) -> bool {
    exists|i: int| 0 <= i < birthdays.len() && #[trigger] birthdays[i].0 == day
}

fn any_birthday_on(birthdays: &[(u8, String)], day: u8) -> (r: bool)
    ensures
        r == has_birthday_on(birthdays@, day),
{
    let mut i: usize = 0;
    while i < birthdays.len()
        invariant
            0 <= i <= birthdays@.len(),
            forall|j: int| 0 <= j < i ==> #[trigger] birthdays@[j].0 != day,
        decreases birthdays@.len() - i,
    {
        if birthdays[i].0 == day {
            return true;
        }
        i += 1;
    }
    false
}

/// Planner summary of one day: "Wed 3", "Sat 13 • Egg Fest",
/// "Mon 8 • Birthday", or "Season edge" when there is no such day.
pub open spec fn relative_day_summary(season: Season, day: Option<u8>, birthdays: Seq<(u8, String)>) -> Seq<char> {
    match day {
        None => "Season edge"@,
        Some(d) => {
            let base = weekday_label(d as nat)@ + seq![' '] + decimal(d as nat);
            if d == festival_day_of(season) {
                base + " • "@ + festival_label(season)@
            } else if has_birthday_on(birthdays, d) {
                base + " • Birthday"@
            } else {
                base
            }
        }
    }
}

pub fn summarize_relative_day(season: Season, day: Option<u8>, birthdays: &[(u8, String)]) -> (r: String)
    requires
        day.is_some() ==> day.unwrap() >= 1,
    ensures
        r@ == relative_day_summary(season, day, birthdays@),
{
    match day {
        None => string_of("Season edge"),
        Some(d) => {
            let mut s = string_of(weekday_name(d));
            push_str(&mut s, " ");
            push_decimal(&mut s, d as u64);
            proof { reveal_strlit(" "); }
            let ghost base = s@;
            match festival_name(season, d) {
                Some(festival) => {
                    push_str(&mut s, " • ");
                    push_str(&mut s, festival);
                }
                None => {
                    if any_birthday_on(birthdays, d) {
                        push_str(&mut s, " • Birthday");
                    }
                }
            }
            s
        }
    }
}

/// Planner summary of the coming festival.
pub open spec fn next_festival_summary(current_day: nat, festival: Option<(u8, &'static str)>) -> Seq<char> {
    match festival {
        Some((fd, name)) => {
            if fd == current_day {
                "Today • "@ + name@
            } else if fd == current_day + 1 {
                "Tomorrow • "@ + name@
            } else {
                "Day "@ + decimal(fd as nat) + " • "@ + name@
            }
        }
        None => "Passed this season"@,
    }
}

pub fn summarize_next_festival(current_day: u8, festival: Option<(u8, &'static str)>) -> (r: String)
    ensures
        r@ == next_festival_summary(current_day as nat, festival),
{
    match festival {
        Some((festival_day, name)) => {
            if festival_day == current_day {
                let mut s = string_of("Today • ");
                push_str(&mut s, name);
                s
            } else if festival_day as u16 == current_day as u16 + 1 {
                let mut s = string_of("Tomorrow • ");
                push_str(&mut s, name);
                s
            } else {
                let mut s = string_of("Day ");
                push_decimal(&mut s, festival_day as u64);
                push_str(&mut s, " • ");
                push_str(&mut s, name);
                s
            }
        }
        None => string_of("Passed this season"),
    }
}

/// The birthdays that fall in a season, as (day, name), in the order the
/// NPCs are listed. NPCs are given as (birthday season, birthday day, name).
pub open spec fn birthdays_in(npcs: Seq<(Season, u8, String)>, season: Season) -> Seq<(u8, Seq<char>)>
    decreases npcs.len(),
{
    if npcs.len() == 0 {
        Seq::empty()
    } else {
        let prev = birthdays_in(npcs.drop_last(), season);
        let n = npcs.last();
        if n.0 == season { prev.push((n.1, n.2@)) } else { prev }
    }
}

pub fn season_birthdays(npcs: &Vec<(Season, u8, String)>, season: Season) -> (r: Vec<(u8, String)>)
    ensures
        r@.len() == birthdays_in(npcs@, season).len(),
        forall|i: int| 0 <= i < r.len() ==> (#[trigger] r[i]).0 == birthdays_in(npcs@, season)[i].0
            && r[i].1@ == birthdays_in(npcs@, season)[i].1,
{
    let mut r: Vec<(u8, String)> = Vec::new();
    let mut i: usize = 0;
    while i < npcs.len()
        invariant
            i <= npcs.len(),
            r@.len() == birthdays_in(npcs@.take(i as int), season).len(),
            forall|k: int| 0 <= k < r.len() ==> (#[trigger] r[k]).0 == birthdays_in(npcs@.take(i as int), season)[k].0
                && r[k].1@ == birthdays_in(npcs@.take(i as int), season)[k].1,
        decreases npcs.len() - i,
    {
        proof {
            let t = npcs@.take(i as int + 1);
            assert(t.drop_last() =~= npcs@.take(i as int));
            assert(t.last() == npcs@[i as int]);
        }
        if npcs[i].0 == season {
            let name = npcs[i].2.clone();
            r.push((npcs[i].1, name));
        }
        i = i + 1;
    }
    proof {
        assert(npcs@.take(npcs.len() as int) =~= npcs@);
    }
    r
}

/// The planner's heading: "<Season> — Year <year>".
pub fn planner_header(season: Season, year: u32) -> (s: String)
    ensures
        s@ == season_label(season)@ + " — Year "@ + decimal(year as nat),
{
    let mut s = string_of(season_name(season));
    push_str(&mut s, " — Year ");
    push_decimal(&mut s, year as u64);
    s
}

/// The planner's four summaries: yesterday, today, tomorrow and the next
/// festival. On the first day of a season yesterday lies in the season
/// before, and reads "Season edge", as tomorrow does on the last day.
pub fn planner_summaries(calendar: &Calendar, birthdays: &Vec<(u8, String)>) -> (r: Vec<(&'static str, String)>)
    requires
        1 <= calendar.day,
    ensures
        r.len() == 4,
        r[0].0 == "Yesterday" && r[0].1@ == relative_day_summary(calendar.season,
            if calendar.day >= 2 { Some((calendar.day - 1) as u8) } else { None::<u8> }, birthdays@),
        r[1].0 == "Today" && r[1].1@ == relative_day_summary(calendar.season, Some(calendar.day), birthdays@),
        r[2].0 == "Tomorrow" && r[2].1@ == relative_day_summary(calendar.season,
            if calendar.day < 28 { Some((calendar.day + 1) as u8) } else { None::<u8> }, birthdays@),
        r[3].0 == "Next festival" && r[3].1@ == next_festival_summary(calendar.day as nat,
            if festival_day_of(calendar.season) >= calendar.day {
                Some((festival_day_of(calendar.season) as u8, festival_label(calendar.season)))
            } else {
                None::<(u8, &'static str)>
            }),
{
    let mut r: Vec<(&'static str, String)> = Vec::new();
    let yesterday: Option<u8> = if calendar.day >= 2 { Some(calendar.day - 1) } else { None };
    r.push(("Yesterday", summarize_relative_day(calendar.season, yesterday, birthdays.as_slice())));
    r.push(("Today", summarize_relative_day(calendar.season, Some(calendar.day), birthdays.as_slice())));
    r.push(("Tomorrow", summarize_relative_day(calendar.season, next_day_in_season(calendar.day), birthdays.as_slice())));
    let upcoming = upcoming_festival_in_season(calendar.season, calendar.day);
    r.push(("Next festival", summarize_next_festival(calendar.day, upcoming)));
    r
}

/// The 28 cells of the planner grid, four weeks of seven days: each day's
/// number and its tag.
pub fn planner_cells(season: Season, current_day: u8, birthdays: &Vec<(u8, String)>) -> (r: Vec<(u8, Option<&'static str>)>)
    requires
        current_day < 255,
    ensures
        r.len() == 28,
        forall|i: int| 0 <= i < 28 ==> (#[trigger] r[i]).0 == i + 1
            && r[i].1 == day_tag_of((i + 1) as nat, current_day as nat, has_birthday_on(birthdays@, (i + 1) as u8),
                if festival_day_of(season) >= current_day { Some(festival_day_of(season) as u8) } else { None::<u8> }),
{
    let upcoming = upcoming_festival_in_season(season, current_day);
    let upcoming_day: Option<u8> = match upcoming {
        Some((d, _)) => Some(d),
        None => None,
    };
    let mut r: Vec<(u8, Option<&'static str>)> = Vec::new();
    let mut day: u8 = 1;
    while day <= 28
        invariant
            1 <= day <= 29,
            current_day < 255,
            r.len() == day - 1,
            upcoming_day == if festival_day_of(season) >= current_day { Some(festival_day_of(season) as u8) } else { None::<u8> },
            forall|i: int| 0 <= i < r.len() ==> (#[trigger] r[i]).0 == i + 1
                && r[i].1 == day_tag_of((i + 1) as nat, current_day as nat, has_birthday_on(birthdays@, (i + 1) as u8), upcoming_day),
        decreases 29 - day,
    {
        let b = any_birthday_on(birthdays.as_slice(), day);
        r.push((day, day_tag(day, current_day, b, upcoming_day)));
        day = day + 1;
    }
    r
}

/// Counting days from spring 1 of year 1: that day is day 0; the next day of
/// a season is one day later; the same day of the next season is 28 days
/// later, winter running into spring of the next year.
pub proof fn law_days_elapsed_counts_days(year: nat, s: Season, day: nat)
    requires
        year >= 1,
        1 <= day <= 28,
    ensures
        days_elapsed(1, Season::Spring, 1) == 0,
        day < 28 ==> days_elapsed(year, s, day + 1) == days_elapsed(year, s, day) + 1,
        days_elapsed(year, Season::Summer, day) == days_elapsed(year, Season::Spring, day) + 28,
        days_elapsed(year, Season::Fall, day) == days_elapsed(year, Season::Summer, day) + 28,
        days_elapsed(year, Season::Winter, day) == days_elapsed(year, Season::Fall, day) + 28,
        days_elapsed(year + 1, Season::Spring, day) == days_elapsed(year, Season::Winter, day) + 28,
{
}

/// Different dates give different day counts.
pub proof fn law_days_elapsed_distinct(y1: nat, s1: Season, d1: nat, y2: nat, s2: Season, d2: nat)
    requires
        y1 >= 1,
        y2 >= 1,
        1 <= d1 <= 28,
        1 <= d2 <= 28,
        days_elapsed(y1, s1, d1) == days_elapsed(y2, s2, d2),
    ensures
        y1 == y2,
        s1 == s2,
        d1 == d2,
{
    let i1 = season_index(s1) as int;
    let i2 = season_index(s2) as int;
    assert(0 <= i1 < 4 && 0 <= i2 < 4);
    let a: int = (y1 - 1) * 112;
    let b: int = (y2 - 1) * 112;
    assert(y1 == y2) by (nonlinear_arith)
        requires
            a == (y1 - 1) * 112,
            b == (y2 - 1) * 112,
            a + i1 * 28 + (d1 - 1) == b + i2 * 28 + (d2 - 1),
            0 <= i1 < 4,
            0 <= i2 < 4,
            1 <= d1 <= 28,
            1 <= d2 <= 28,
            y1 >= 1,
            y2 >= 1,
    ;
    assert(i1 == i2);
    assert(d1 == d2);
}

} // verus!
