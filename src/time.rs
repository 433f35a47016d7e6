//! In-game calendar: weekdays, the time of day, and the clock model that
//! advances both from elapsed wall-clock time.
use vstd::prelude::*;

use crate::elapsed::{Elapsed, NANOS_PER_SEC};

verus! {

/// Wall-clock seconds that make one in-game minute.
pub const SECS_PER_MIN: u64 = 2;

/// Wall-clock nanoseconds that make one in-game minute.
pub const NANOS_PER_GAME_MIN: u64 = SECS_PER_MIN * NANOS_PER_SEC;

pub const MINS_PER_HOUR: u64 = 60;

pub const HOURS_PER_DAY: u64 = 24;

pub const MINS_PER_DAY: u64 = HOURS_PER_DAY * MINS_PER_HOUR;

pub const DAYS_PER_WEEK: u64 = 7;

pub const MINS_PER_WEEK: u64 = DAYS_PER_WEEK * MINS_PER_DAY;

/// Wall-clock seconds that make one in-game day.
pub const SECS_PER_DAY: u64 = MINS_PER_DAY * SECS_PER_MIN;

/// Day of the in-game week.
#[derive(Clone, Copy, Debug, PartialEq, Eq, Structural)]
pub enum Weekday {
    Mon,
    Tue,
    Wed,
    Thu,
    Fri,
    Sat,
    Sun,
}

impl Weekday {
    /// Position in the week, Monday being 0.
    pub open spec fn ordinal(self) -> nat {
        match self {
            Weekday::Mon => 0,
            Weekday::Tue => 1,
            Weekday::Wed => 2,
            Weekday::Thu => 3,
            Weekday::Fri => 4,
            Weekday::Sat => 5,
            Weekday::Sun => 6,
        }
    }

    /// The weekday at position `n` of a week that repeats.
    pub open spec fn from_ordinal(n: nat) -> Weekday {
        let k = n % 7;
        if k == 0 {
            Weekday::Mon
        } else if k == 1 {
            Weekday::Tue
        } else if k == 2 {
            Weekday::Wed
        } else if k == 3 {
            Weekday::Thu
        } else if k == 4 {
            Weekday::Fri
        } else if k == 5 {
            Weekday::Sat
        } else {
            Weekday::Sun
        }
    }

    /// The short English name of the day.
    pub open spec fn name(self) -> Seq<char> {
        match self {
            Weekday::Mon => "Mon"@,
            Weekday::Tue => "Tue"@,
            Weekday::Wed => "Wed"@,
            Weekday::Thu => "Thu"@,
            Weekday::Fri => "Fri"@,
            Weekday::Sat => "Sat"@,
            Weekday::Sun => "Sun"@,
        }
    }

    /// Position in the week, Monday being 0.
    pub fn index(&self) -> (r: u64)
        ensures
            r == self.ordinal(),
    {
        match self {
            Weekday::Mon => 0,
            Weekday::Tue => 1,
            Weekday::Wed => 2,
            Weekday::Thu => 3,
            Weekday::Fri => 4,
            Weekday::Sat => 5,
            Weekday::Sun => 6,
        }
    }

    /// The weekday reached after `days` whole days from a Monday.
    pub fn from_elapsed_days(days: u64) -> (r: Weekday)
        ensures
            r == Weekday::from_ordinal(days as nat),
            r.ordinal() == days % 7,
    {
        match days % 7 {
            0 => Weekday::Mon,
            1 => Weekday::Tue,
            2 => Weekday::Wed,
            3 => Weekday::Thu,
            4 => Weekday::Fri,
            5 => Weekday::Sat,
            _ => Weekday::Sun,
        }
    }

    /// Moves the day forward by `days`, wrapping around the week.
    pub fn advance(&mut self, days: u64)
        ensures
            final(self).ordinal() == (old(self).ordinal() + days) % 7,
    {
        let shift = days % 7;
        *self = Weekday::from_elapsed_days(self.index() + shift);
        proof {
            vstd::arithmetic::div_mod::lemma_add_mod_noop_right(
                old(self).ordinal() as int,
                days as int,
                7,
            );
        }
    }

    /// The short English name of the day.
    pub fn as_str(&self) -> (r: &'static str)
        ensures
            r@ == self.name(),
    {
        match self {
            Weekday::Mon => "Mon",
            Weekday::Tue => "Tue",
            Weekday::Wed => "Wed",
            Weekday::Thu => "Thu",
            Weekday::Fri => "Fri",
            Weekday::Sat => "Sat",
            Weekday::Sun => "Sun",
        }
    }
}

impl Default for Weekday {
    fn default() -> (r: Weekday)
        ensures
            r == Weekday::Mon,
    {
        Weekday::Mon
    }
}

/// The decimal digits, in order.
pub open spec fn digits() -> Seq<char> {
    "0123456789"@
}

/// `n` written with exactly two decimal digits (`n` below 100).
pub open spec fn two_digits(n: nat) -> Seq<char> {
    seq![digits()[(n / 10) as int], digits()[(n % 10) as int]]
}

/// The text of one decimal digit.
fn digit_str(d: u8) -> (r: &'static str)
    requires
        d < 10,
    ensures
        r@ == seq![digits()[d as int]],
{
    let all = "0123456789";
    proof {
        reveal_strlit("0123456789");
    }
    let r = all.substring_ascii(d as usize, d as usize + 1);
    assert(r@ =~= seq![digits()[d as int]]);
    r
}

/// Time of day on the in-game clock, to the minute.
#[derive(Clone, Copy, Debug, PartialEq, Eq, Structural)]
pub struct Clock {
    hour: u8,
    minute: u8,
}

impl View for Clock {
    /// Minutes since midnight.
    type V = nat;

    closed spec fn view(&self) -> nat {
        self.hour as nat * MINS_PER_HOUR as nat + self.minute as nat
    }
}

impl Clock {
    #[verifier::type_invariant]
    spec fn inv(self) -> bool {
        self.hour < HOURS_PER_DAY && self.minute < MINS_PER_HOUR
    }

    /// The clock at `hour`:`minute`, if both are in range.
    pub fn new(hour: u8, minute: u8) -> (r: Option<Clock>)
        ensures
            r.is_some() <==> hour < HOURS_PER_DAY && minute < MINS_PER_HOUR,
            r matches Some(c) ==> c@ == hour * MINS_PER_HOUR + minute,
    {
        if hour < HOURS_PER_DAY as u8 && minute < MINS_PER_HOUR as u8 {
            Some(Clock { hour, minute })
        } else {
            None
        }
    }

    /// The clock at `m` minutes past midnight.
    pub fn from_minute_of_day(m: u64) -> (r: Clock)
        requires
            m < MINS_PER_DAY,
        ensures
            r@ == m,
    {
        Clock { hour: (m / MINS_PER_HOUR) as u8, minute: (m % MINS_PER_HOUR) as u8 }
    }

    /// Hour of the day, 0 to 23.
    pub fn hour(&self) -> (r: u8)
        ensures
            r == self@ / MINS_PER_HOUR as nat,
            r < HOURS_PER_DAY,
            self@ < MINS_PER_DAY,
    {
        proof {
            use_type_invariant(self);
        }
        self.hour
    }

    /// Minute of the hour, 0 to 59.
    pub fn minute(&self) -> (r: u8)
        ensures
            r == self@ % MINS_PER_HOUR as nat,
            r < MINS_PER_HOUR,
            self@ < MINS_PER_DAY,
    {
        proof {
            use_type_invariant(self);
        }
        self.minute
    }

    /// Minutes since midnight.
    pub fn minute_of_day(&self) -> (r: u64)
        ensures
            r == self@,
            r < MINS_PER_DAY,
    {
        proof {
            use_type_invariant(self);
        }
        self.hour as u64 * MINS_PER_HOUR + self.minute as u64
    }

    /// Wall-clock seconds that the time since midnight stands for.
    pub fn secs_since_midnight(&self) -> (r: u64)
        ensures
            r == self@ * SECS_PER_MIN,
    {
        let mins = self.minute_of_day();
        mins * SECS_PER_MIN
    }

    /// The clock as `HH:MM`.
    pub fn to_label(&self) -> (r: String)
        ensures
            r@ == two_digits(self@ / MINS_PER_HOUR as nat) + ":"@ + two_digits(
                self@ % MINS_PER_HOUR as nat,
            ),
    {
        proof {
            use_type_invariant(self);
        }
        let mut r = String::new();
        r.append(digit_str(self.hour / 10));
        r.append(digit_str(self.hour % 10));
        r.append(":");
        r.append(digit_str(self.minute / 10));
        r.append(digit_str(self.minute % 10));
        assert(r@ =~= two_digits(self@ / MINS_PER_HOUR as nat) + ":"@ + two_digits(
            self@ % MINS_PER_HOUR as nat,
        ));
        r
    }
}

impl Default for Clock {
    /// Early afternoon, 13:00.
    fn default() -> (r: Clock)
        ensures
            r@ == 13 * MINS_PER_HOUR,
    {
        Clock { hour: 13, minute: 0 }
    }
}

/// Abstract state of the clock model: the weekday's position, minutes since
/// midnight, and the wall-clock nanoseconds not yet turned into a minute.
pub struct ClockView {
    pub day: nat,
    pub minute: nat,
    pub carry: nat,
}

impl ClockView {
    /// Every field within its range.
    pub open spec fn valid(self) -> bool {
        self.day < DAYS_PER_WEEK && self.minute < MINS_PER_DAY && self.carry < NANOS_PER_GAME_MIN
    }

    /// Minutes since Monday 00:00.
    pub open spec fn week_minute(self) -> nat {
        self.day * MINS_PER_DAY as nat + self.minute
    }

    /// Whole in-game minutes that `elapsed` nanoseconds complete, together
    /// with the carry.
    pub open spec fn minutes_completed(self, elapsed: nat) -> nat {
        (self.carry + elapsed) / NANOS_PER_GAME_MIN as nat
    }

    /// The state after `elapsed` wall-clock nanoseconds: the completed minutes
    /// move the time of week forward, wrapping after Sunday, and the
    /// remainder stays in the carry.
    pub open spec fn step(self, elapsed: nat) -> ClockView {
        let week_minute = (self.week_minute() + self.minutes_completed(elapsed))
            % MINS_PER_WEEK as nat;
        ClockView {
            day: week_minute / MINS_PER_DAY as nat,
            minute: week_minute % MINS_PER_DAY as nat,
            carry: (self.carry + elapsed) % NANOS_PER_GAME_MIN as nat,
        }
    }
}

/// What a tick replaced: each field holds the new value where it changed.
#[derive(Clone, Copy, Debug, PartialEq, Eq, Structural)]
pub struct ClockChanges {
    pub weekday: Option<Weekday>,
    pub clock: Option<Clock>,
}

/// The authority's calendar: weekday, time of day, and the wall-clock time
/// not yet turned into an in-game minute.
#[derive(Clone, Copy, Debug, PartialEq, Eq, Structural)]
pub struct ClockModel {
    weekday: Weekday,
    clock: Clock,
    carry: u64,
}

impl View for ClockModel {
    type V = ClockView;

    closed spec fn view(&self) -> ClockView {
        ClockView { day: self.weekday.ordinal(), minute: self.clock@, carry: self.carry as nat }
    }
}

/// Splitting `minute_of_week + k` into day, hour and minute by carrying the
/// minutes into hours and the hours into days.
proof fn lemma_roll_over(d: int, h: int, m: int, k: int)
    requires
        0 <= d < 7,
        0 <= h < 24,
        0 <= m < 60,
        0 <= k,
    ensures
        ({
            let total = m + k;
            let hour = h + total / 60;
            let x = d * 1440 + h * 60 + m + k;
            &&& ((d + hour / 24) % 7) * 1440 + (hour % 24) * 60 + total % 60 == x % 10080
            &&& (hour % 24) * 60 + total % 60 < 1440
        }),
{
    let total = m + k;
    let hour = h + total / 60;
    let x = d * 1440 + h * 60 + m + k;
    let days = d + hour / 24;
    vstd::arithmetic::div_mod::lemma_fundamental_div_mod(total, 60);
    vstd::arithmetic::div_mod::lemma_fundamental_div_mod(hour, 24);
    vstd::arithmetic::div_mod::lemma_fundamental_div_mod(days, 7);
    assert(total / 60 >= 0) by {
        vstd::arithmetic::div_mod::lemma_div_pos_is_pos(total, 60);
    }
    assert(hour / 24 >= 0) by {
        vstd::arithmetic::div_mod::lemma_div_pos_is_pos(hour, 24);
    }
    let rest = (days % 7) * 1440 + (hour % 24) * 60 + total % 60;
    assert(x == (days / 7) * 10080 + rest) by (nonlinear_arith)
        requires
            total == 60 * (total / 60) + total % 60,
            hour == 24 * (hour / 24) + hour % 24,
            days == 7 * (days / 7) + days % 7,
            total == m + k,
            hour == h + total / 60,
            days == d + hour / 24,
            x == d * 1440 + h * 60 + m + k,
            rest == (days % 7) * 1440 + (hour % 24) * 60 + total % 60,
    ;
    assert(0 <= rest < 10080) by (nonlinear_arith)
        requires
            0 <= days % 7 < 7,
            0 <= hour % 24 < 24,
            0 <= total % 60 < 60,
            rest == (days % 7) * 1440 + (hour % 24) * 60 + total % 60,
    ;
    vstd::arithmetic::div_mod::lemma_fundamental_div_mod_converse(x, 10080, days / 7, rest);
}

/// A week minute splits back into its day and its minute of the day.
proof fn lemma_split_week_minute(d: int, m: int)
    requires
        0 <= d < 7,
        0 <= m < 1440,
    ensures
        (d * 1440 + m) % 10080 == d * 1440 + m,
        (d * 1440 + m) / 1440 == d,
        (d * 1440 + m) % 1440 == m,
{
    vstd::arithmetic::div_mod::lemma_fundamental_div_mod_converse(d * 1440 + m, 1440, d, m);
    vstd::arithmetic::div_mod::lemma_small_mod((d * 1440 + m) as nat, 10080);
}

impl ClockModel {
    #[verifier::type_invariant]
    spec fn inv(self) -> bool {
        self.carry < NANOS_PER_GAME_MIN
    }

    /// A fresh session's calendar: Monday 13:00 with nothing carried.
    pub fn new() -> (r: ClockModel)
        ensures
            r@ == (ClockView { day: 0, minute: 13 * MINS_PER_HOUR as nat, carry: 0 }),
    {
        ClockModel { weekday: Weekday::Mon, clock: Clock::default(), carry: 0 }
    }

    /// The current weekday.
    pub fn weekday(&self) -> (r: Weekday)
        ensures
            r == Weekday::from_ordinal(self@.day),
            r.ordinal() == self@.day,
            self@.valid(),
    {
        proof {
            use_type_invariant(self);
            use_type_invariant(&self.clock);
        }
        self.weekday
    }

    /// The current time of day.
    pub fn clock(&self) -> (r: Clock)
        ensures
            r@ == self@.minute,
            self@.valid(),
    {
        proof {
            use_type_invariant(self);
            use_type_invariant(&self.clock);
        }
        self.clock
    }

    /// Wall-clock time accumulated towards the next in-game minute.
    pub fn carry(&self) -> (r: Elapsed)
        ensures
            r@ == self@.carry,
            r@ < NANOS_PER_GAME_MIN,
    {
        proof {
            use_type_invariant(self);
        }
        Elapsed::from_parts(self.carry / NANOS_PER_SEC, (self.carry % NANOS_PER_SEC) as u32)
    }

    /// Wall-clock nanoseconds since midnight that the current time and the
    /// carry stand for; a day lasts `SECS_PER_DAY` seconds of it.
    pub fn nanos_since_midnight(&self) -> (r: u64)
        ensures
            r == self@.minute * NANOS_PER_GAME_MIN + self@.carry,
    {
        proof {
            use_type_invariant(self);
        }
        let mins = self.clock.minute_of_day();
        mins * NANOS_PER_GAME_MIN + self.carry
    }

    /// Advances the calendar by `elapsed` wall-clock time. Whole in-game
    /// minutes are taken out of the carry; the weekday and the clock are each
    /// replaced, and reported, only where they change.
    pub fn tick(&mut self, elapsed: Elapsed) -> (r: ClockChanges)
        ensures
            final(self)@ == old(self)@.step(elapsed@),
            final(self)@.valid(),
            final(self)@.carry + old(self)@.minutes_completed(elapsed@) * NANOS_PER_GAME_MIN
                == old(self)@.carry + elapsed@,
            r.weekday == (if final(self)@.day != old(self)@.day {
                Some(Weekday::from_ordinal(final(self)@.day))
            } else {
                None
            }),
            r.clock is Some <==> final(self)@.minute != old(self)@.minute,
            r.clock matches Some(c) ==> c@ == final(self)@.minute,
            elapsed@ == 0 ==> final(self)@ == old(self)@ && r.weekday.is_none()
                && r.clock.is_none(),
    {
        proof {
            use_type_invariant(&*self);
            use_type_invariant(&self.clock);
        }
        let ghost before = self@;
        let old_weekday = self.weekday;
        let old_clock = self.clock;
        let total: u128 = self.carry as u128 + elapsed.as_nanos();
        let minutes_wide: u128 = total / NANOS_PER_GAME_MIN as u128;
        let carry: u64 = (total % NANOS_PER_GAME_MIN as u128) as u64;
        proof {
            vstd::arithmetic::div_mod::lemma_fundamental_div_mod(total as int, NANOS_PER_GAME_MIN as int);
            lemma_split_week_minute(before.day as int, before.minute as int);
        }
        if minutes_wide == 0 {
            *self = ClockModel { weekday: old_weekday, clock: old_clock, carry };
            return ClockChanges { weekday: None, clock: None };
        }
        assert(minutes_wide <= 0x8000_0000_0000_0001) by (nonlinear_arith)
            requires
                minutes_wide == total / 2_000_000_000,
                total < 2_000_000_000 + 0x1_0000_0000_0000_0000 * 1_000_000_000,
        ;
        let minutes: u64 = minutes_wide as u64;
        let total_minutes: u64 = old_clock.minute as u64 + minutes;
        let mut hour: u64 = old_clock.hour as u64 + total_minutes / MINS_PER_HOUR;
        let minute: u64 = total_minutes % MINS_PER_HOUR;
        let mut weekday = old_weekday;
        if hour >= HOURS_PER_DAY {
            weekday.advance(hour / HOURS_PER_DAY);
            hour = hour % HOURS_PER_DAY;
        }
        proof {
            lemma_roll_over(
                before.day as int,
                old_clock.hour as int,
                old_clock.minute as int,
                minutes as int,
            );
            assert(before.week_minute() == before.day * 1440 + old_clock.hour * 60 + old_clock.minute);
        }
        let clock = Clock { hour: hour as u8, minute: minute as u8 };
        *self = ClockModel { weekday, clock, carry };
        proof {
            let after = self@;
            let wm = after.day * 1440 + after.minute;
            lemma_split_week_minute(after.day as int, after.minute as int);
            assert(wm == (before.week_minute() + minutes) % 10080);
        }
        ClockChanges {
            weekday: if weekday != old_weekday {
                Some(weekday)
            } else {
                None
            },
            clock: if clock != old_clock {
                Some(clock)
            } else {
                None
            },
        }
    }
}

impl Default for ClockModel {
    fn default() -> (r: ClockModel)
        ensures
            r@ == (ClockView { day: 0, minute: 13 * MINS_PER_HOUR as nat, carry: 0 }),
    {
        ClockModel::new()
    }
}

/// Sum of a sequence of wall-clock spans, in nanoseconds.
pub open spec fn total_elapsed(spans: Seq<nat>) -> nat
    decreases spans.len(),
{
    if spans.len() == 0 {
        0
    } else {
        total_elapsed(spans.drop_last()) + spans.last()
    }
}

/// The state reached from `v` by one tick per span of `spans`, in order.
pub open spec fn run(v: ClockView, spans: Seq<nat>) -> ClockView
    decreases spans.len(),
{
    if spans.len() == 0 {
        v
    } else {
        run(v, spans.drop_last()).step(spans.last())
    }
}

/// In-game minutes that the ticks of `run(v, spans)` complete, added up.
pub open spec fn minutes_consumed(v: ClockView, spans: Seq<nat>) -> nat
    decreases spans.len(),
{
    if spans.len() == 0 {
        0
    } else {
        minutes_consumed(v, spans.drop_last()) + run(v, spans.drop_last()).minutes_completed(
            spans.last(),
        )
    }
}

/// One tick keeps the state valid and moves the time of week forward by the
/// minutes it completes.
pub proof fn lemma_step_advances(v: ClockView, elapsed: nat)
    requires
        v.valid(),
    ensures
        v.step(elapsed).valid(),
        v.step(elapsed).week_minute() == (v.week_minute() + v.minutes_completed(elapsed))
            % MINS_PER_WEEK as nat,
{
    let w = (v.week_minute() + v.minutes_completed(elapsed)) % 10080;
    vstd::arithmetic::div_mod::lemma_fundamental_div_mod(w as int, 1440);
    vstd::arithmetic::div_mod::lemma_mod_pos_bound(w as int, 10080);
    vstd::arithmetic::div_mod::lemma_mod_pos_bound(w as int, 1440);
    vstd::arithmetic::div_mod::lemma_mod_pos_bound((v.carry + elapsed) as int, 2_000_000_000);
    assert(w / 1440 < 7) by {
        vstd::arithmetic::div_mod::lemma_div_is_ordered(w as int, 10079, 1440);
    }
}

/// Time advance over any run of ticks: the state stays valid, the ticks
/// complete exactly as many in-game minutes as fit in the carry plus all the
/// wall-clock time fed in, and the time of week (minutes since Monday 00:00)
/// moves forward by exactly that many minutes, wrapping after a week.
pub proof fn lemma_ticks_advance_time(v: ClockView, spans: Seq<nat>)
    requires
        v.valid(),
    ensures
        run(v, spans).valid(),
        minutes_consumed(v, spans) == (v.carry + total_elapsed(spans)) / NANOS_PER_GAME_MIN as nat,
        run(v, spans).week_minute() == (v.week_minute() + minutes_consumed(v, spans))
            % MINS_PER_WEEK as nat,
{
    lemma_run(v, spans);
}

/// Carry conservation over any run of ticks: the carry stays below one
/// in-game minute, and the consumed minutes' worth of wall-clock time plus
/// the final carry is exactly the starting carry plus all the time fed in.
pub proof fn lemma_carry_conserved(v: ClockView, spans: Seq<nat>)
    requires
        v.valid(),
    ensures
        run(v, spans).carry < NANOS_PER_GAME_MIN,
        minutes_consumed(v, spans) * NANOS_PER_GAME_MIN + run(v, spans).carry == v.carry
            + total_elapsed(spans),
{
    lemma_run(v, spans);
}

/// Induction over the spans for the two laws above.
proof fn lemma_run(v: ClockView, spans: Seq<nat>)
    requires
        v.valid(),
    ensures
        run(v, spans).valid(),
        minutes_consumed(v, spans) * NANOS_PER_GAME_MIN + run(v, spans).carry == v.carry
            + total_elapsed(spans),
        minutes_consumed(v, spans) == (v.carry + total_elapsed(spans)) / NANOS_PER_GAME_MIN as nat,
        run(v, spans).week_minute() == (v.week_minute() + minutes_consumed(v, spans))
            % MINS_PER_WEEK as nat,
    decreases spans.len(),
{
    let n: int = 2_000_000_000;
    if spans.len() == 0 {
        vstd::arithmetic::div_mod::lemma_fundamental_div_mod_converse(v.carry as int, n, 0, v.carry as int);
        vstd::arithmetic::div_mod::lemma_small_mod(v.week_minute(), 10080);
    } else {
        let init = spans.drop_last();
        let e = spans.last();
        let r = run(v, init);
        lemma_run(v, init);
        let q = minutes_consumed(v, init) as int;
        let a = r.minutes_completed(e) as int;
        let b = ((r.carry + e) % (n as nat)) as int;
        vstd::arithmetic::div_mod::lemma_fundamental_div_mod((r.carry + e) as int, n);
        vstd::arithmetic::div_mod::lemma_mod_pos_bound((r.carry + e) as int, n);
        let t = v.carry + total_elapsed(spans);
        assert(t == (q + a) * n + b) by (nonlinear_arith)
            requires
                q * n + r.carry == v.carry + total_elapsed(init),
                r.carry + e == n * a + b,
                t == v.carry + total_elapsed(init) + e,
        ;
        vstd::arithmetic::div_mod::lemma_fundamental_div_mod_converse(t as int, n, q + a, b);
        lemma_step_advances(r, e);
        vstd::arithmetic::div_mod::lemma_add_mod_noop_right(a, (v.week_minute() + q) as int, 10080);
        assert(minutes_consumed(v, spans) * NANOS_PER_GAME_MIN == (q + a) * n) by (nonlinear_arith)
            requires
                minutes_consumed(v, spans) == q + a,
                n == NANOS_PER_GAME_MIN,
        ;
    }
}

/// A tick that feeds in no wall-clock time changes nothing.
pub proof fn lemma_zero_tick_is_noop(v: ClockView)
    requires
        v.valid(),
    ensures
        v.step(0) == v,
{
    vstd::arithmetic::div_mod::lemma_small_mod(v.carry, 2_000_000_000);
    vstd::arithmetic::div_mod::lemma_fundamental_div_mod_converse(v.carry as int, 2_000_000_000, 0, v.carry as int);
    lemma_split_week_minute(v.day as int, v.minute as int);
}

/// Feeding in exactly `days` in-game days of wall-clock time moves the
/// weekday forward by `days`, wrapping around the week, and brings the clock
/// and the carry back to where they were.
pub proof fn lemma_whole_days(v: ClockView, days: nat)
    requires
        v.valid(),
    ensures
        v.step(days * (SECS_PER_DAY * NANOS_PER_SEC) as nat).day == (v.day + days) % 7,
        v.step(days * (SECS_PER_DAY * NANOS_PER_SEC) as nat).minute == v.minute,
        v.step(days * (SECS_PER_DAY * NANOS_PER_SEC) as nat).carry == v.carry,
{
    let n: int = 2_000_000_000;
    let e = days * (SECS_PER_DAY * NANOS_PER_SEC) as nat;
    assert(v.carry + e == (days * 1440) * n + v.carry) by (nonlinear_arith)
        requires
            e == days * 2_880_000_000_000,
            n == 2_000_000_000,
    ;
    vstd::arithmetic::div_mod::lemma_fundamental_div_mod_converse(
        (v.carry + e) as int,
        n,
        (days * 1440) as int,
        v.carry as int,
    );
    let d = (v.day + days) % 7;
    let x = v.week_minute() + days * 1440;
    vstd::arithmetic::div_mod::lemma_fundamental_div_mod((v.day + days) as int, 7);
    vstd::arithmetic::div_mod::lemma_mod_pos_bound((v.day + days) as int, 7);
    assert(x == ((v.day + days) / 7) * 10080 + (d * 1440 + v.minute)) by (nonlinear_arith)
        requires
            v.day + days == 7 * ((v.day + days) / 7) + d,
            x == v.day * 1440 + v.minute + days * 1440,
    ;
    assert(0 <= d * 1440 + v.minute < 10080) by (nonlinear_arith)
        requires
            d < 7,
            v.minute < 1440,
    ;
    vstd::arithmetic::div_mod::lemma_fundamental_div_mod_converse(
        x as int,
        10080,
        ((v.day + days) / 7) as int,
        (d * 1440 + v.minute) as int,
    );
    lemma_split_week_minute(d as int, v.minute as int);
}

} // verus!
