//! MC146818 CMOS RTC: the PC's real-time clock and configuration RAM.
//!
//! Two I/O ports: 0x70 selects a register (its top bit is the NMI-disable
//! line, not part of the index), 0x71 reads or writes the selected one. The
//! first 14 registers are the clock; the rest is battery-backed RAM the BIOS
//! uses to record the machine's configuration.
//!
//! A kernel reads this on every boot, spinning until the update-in-progress
//! bit of status register A clears, so that bit never reads as set.
//!
//! The clock is a number of seconds since the Unix epoch that whoever builds
//! the machine sets, and then advances with emulated time.

use vstd::prelude::*;

pub mod reg;

verus! {

/// Status B bit 1: hours are 24-hour rather than 12-hour with a PM flag.
pub const SB_24HOUR: u8 = 0x02;
/// Status B bit 2: values are binary rather than BCD.
pub const SB_BINARY: u8 = 0x04;

/// The real-time clock and its configuration RAM.
pub struct Cmos {
    /// Currently selected register (port 0x70, NMI bit masked off).
    pub index: u8,
    /// Battery-backed configuration RAM. The clock registers are computed on
    /// read rather than stored here.
    pub ram: [u8; 128],
    /// Wall-clock seconds since the Unix epoch at reset.
    pub epoch_secs: u64,
    /// Emulated seconds elapsed since reset.
    pub elapsed_secs: u64,
    /// True once the guest has written the NMI-disable bit (recorded so the
    /// state is observable; nothing here raises NMIs).
    pub nmi_disabled: bool,
}

/// What a [`Cmos`] holds, as mathematics.
#[verifier::ext_equal]
pub struct CmosView {
    pub index: u8,
    pub ram: Seq<u8>,
    pub epoch_secs: u64,
    pub elapsed_secs: u64,
    pub nmi_disabled: bool,
}

impl Cmos {
    /// The value this stands for.
    pub open spec fn view(&self) -> CmosView {
        CmosView {
            index: self.index,
            ram: self.ram@,
            epoch_secs: self.epoch_secs,
            elapsed_secs: self.elapsed_secs,
            nmi_disabled: self.nmi_disabled,
        }
    }
}

// ---- The calendar ----

/// Is `y` a leap year of the Gregorian calendar?
pub open spec fn leap(y: int) -> bool {
    y % 4 == 0 && (y % 100 != 0 || y % 400 == 0)
}

/// Days in a month.
pub open spec fn days_in_month(y: int, m: int) -> int {
    if m == 2 {
        if leap(y) { 29 } else { 28 }
    } else if m == 4 || m == 6 || m == 9 || m == 11 {
        30
    } else {
        31
    }
}

/// Days of the year before a month begins.
pub open spec fn days_before_month(y: int, m: int) -> int
    decreases m,
{
    if m <= 1 { 0 } else { days_before_month(y, m - 1) + days_in_month(y, m - 1) }
}

/// Days from 1970-01-01 to the first of January of year `y`: 365 for each
/// year between and one more for each leap year.
pub open spec fn days_before_year(y: int) -> int {
    365 * (y - 1970) + ((y - 1) / 4 - (y - 1) / 100 + (y - 1) / 400) - 477
}

/// Days from 1970-01-01 to a date.
pub open spec fn day_number(y: int, m: int, d: int) -> int {
    days_before_year(y) + days_before_month(y, m) + d - 1
}

/// Is this a date of the calendar?
pub open spec fn valid_date(y: int, m: int, d: int) -> bool {
    1 <= m <= 12 && 1 <= d <= days_in_month(y, m)
}

/// A calendar date.
pub struct Date {
    pub year: int,
    pub month: int,
    pub day: int,
}

/// The date `days` after 1970-01-01.
pub open spec fn date_of(days: int) -> Date {
    choose|t: Date|
        #![trigger valid_date(t.year, t.month, t.day)]
        valid_date(t.year, t.month, t.day) && day_number(t.year, t.month, t.day) == days
}

/// Day of the week, Sunday = 0; 1970-01-01 was a Thursday.
pub open spec fn weekday(days: int) -> int {
    (days + 4) % 7
}

/// Binary to packed BCD, as the RTC reports its registers by default.
pub open spec fn bcd(v: u32) -> u8 {
    (((v / 10) << 4) | (v % 10)) as u8
}

/// The days before each month, written out.
pub(crate) proof fn lemma_months(y: int)
    ensures
        days_before_month(y, 1) == 0,
        days_before_month(y, 2) == 31,
        days_before_month(y, 3) == 59 + days_in_month(y, 2) - 28,
        days_before_month(y, 4) == 90 + days_in_month(y, 2) - 28,
        days_before_month(y, 5) == 120 + days_in_month(y, 2) - 28,
        days_before_month(y, 6) == 151 + days_in_month(y, 2) - 28,
        days_before_month(y, 7) == 181 + days_in_month(y, 2) - 28,
        days_before_month(y, 8) == 212 + days_in_month(y, 2) - 28,
        days_before_month(y, 9) == 243 + days_in_month(y, 2) - 28,
        days_before_month(y, 10) == 273 + days_in_month(y, 2) - 28,
        days_before_month(y, 11) == 304 + days_in_month(y, 2) - 28,
        days_before_month(y, 12) == 334 + days_in_month(y, 2) - 28,
        days_before_month(y, 13) == 337 + days_in_month(y, 2),
{
    reveal_with_fuel(days_before_month, 13);
}

/// A year is 365 days, or 366 in a leap year.
#[verifier::spinoff_prover]
#[verifier::rlimit(40)]
pub(crate) proof fn lemma_year_length(y: int)
    ensures
        days_before_year(y + 1) == days_before_year(y) + 337 + days_in_month(y, 2),
{
    assert(y / 4 - (y - 1) / 4 == (if y % 4 == 0 { 1int } else { 0 }));
    assert(y / 100 - (y - 1) / 100 == (if y % 100 == 0 { 1int } else { 0 }));
    assert(y / 400 - (y - 1) / 400 == (if y % 400 == 0 { 1int } else { 0 }));
}

/// Later years begin later.
proof fn lemma_years_increase(a: int, b: int)
    requires
        a <= b,
    ensures
        days_before_year(b) >= days_before_year(a) + 365 * (b - a),
    decreases b - a,
{
    if a < b {
        lemma_years_increase(a, b - 1);
        lemma_year_length(b - 1);
    }
}

/// Days before the months of a year are bounded by the year.
proof fn lemma_within_year(y: int, m: int, d: int)
    requires
        valid_date(y, m, d),
    ensures
        days_before_year(y) <= day_number(y, m, d) < days_before_year(y + 1),
{
    lemma_months(y);
    lemma_year_length(y);
}

/// Every day has one date: two dates with the same day number are the same.
pub proof fn law_dates_are_unique(a: Date, b: Date)
    requires
        valid_date(a.year, a.month, a.day),
        valid_date(b.year, b.month, b.day),
        day_number(a.year, a.month, a.day) == day_number(b.year, b.month, b.day),
    ensures
        a == b,
{
    lemma_within_year(a.year, a.month, a.day);
    lemma_within_year(b.year, b.month, b.day);
    if a.year < b.year {
        lemma_years_increase(a.year + 1, b.year);
    } else if b.year < a.year {
        lemma_years_increase(b.year + 1, a.year);
    }
    lemma_months(a.year);
    assert(a.year == b.year);
    assert(a.month == b.month);
}

/// The first day of year `k` of a 400-year era that begins in March.
spec fn march_year(k: int) -> int {
    365 * k + k / 4 - k / 100
}

/// The year of the era a day of the era falls in.
proof fn lemma_year_of_era(doe: int, yoe: int)
    requires
        0 <= doe < 146097,
        yoe == (doe - doe / 1460 + doe / 36524 - doe / 146096) / 365,
    ensures
        0 <= yoe <= 399,
        march_year(yoe) <= doe,
        doe < march_year(yoe + 1) || (yoe == 399 && doe == 146096),
{
    let c = doe / 36524;
    let q = doe / 1460;
    assert(0 <= c <= 4);
    assert(0 <= q <= 100);
    if doe == 146096 {
        assert(doe / 146096 == 1);
        assert(c == 4);
        assert(q == 100);
        assert(yoe == 399);
    } else {
        assert(doe / 146096 == 0);
        assert(c <= 3) by {
            assert(doe < 146096);
        }
        // Within century c, four-year cycles of 1461 days follow one another.
        let t = doe - 36524 * c;
        let n = doe - q + c;
        assert(n == 365 * yoe + n % 365);
        assert(yoe / 100 == c) by {
            assert(100 * c * 365 <= n);
            assert(n < 100 * (c + 1) * 365);
        }
        assert(march_year(yoe) <= doe);
        assert(doe < march_year(yoe + 1));
    }
}

impl CmosView {
    /// A clock standing at the Unix epoch, with the standard defaults: 24-hour
    /// BCD time, a good battery, one floppy and an 80x25 colour display.
    pub open spec fn reset() -> CmosView {
        CmosView {
            index: 0,
            ram: Seq::new(128, |i: int| 0u8).update(reg::STATUS_B as int, SB_24HOUR).update(
                reg::STATUS_D as int,
                0x80,
            ).update(0x14, 0x21),
            epoch_secs: 0,
            elapsed_secs: 0,
            nmi_disabled: false,
        }
    }

    /// The current time in seconds since the epoch.
    pub open spec fn now(self) -> u64 {
        self.epoch_secs.wrapping_add(self.elapsed_secs)
    }

    /// Whole days since the epoch.
    pub open spec fn days(self) -> int {
        self.now() as int / 86_400
    }

    /// Seconds since midnight.
    pub open spec fn daytime(self) -> int {
        self.now() as int % 86_400
    }

    /// Is register `i` one of the clock's own?
    pub open spec fn is_clock(i: u8) -> bool {
        i == reg::SECONDS || i == reg::MINUTES || i == reg::HOURS || i == reg::WEEKDAY || i
            == reg::DAY || i == reg::MONTH || i == reg::YEAR || i == reg::CENTURY
    }

    /// The number a clock register shows.
    pub open spec fn clock_value(self, i: u8) -> int {
        let date = date_of(self.days());
        if i == reg::SECONDS {
            self.daytime() % 60
        } else if i == reg::MINUTES {
            self.daytime() % 3600 / 60
        } else if i == reg::HOURS {
            self.daytime() / 3600
        } else if i == reg::WEEKDAY {
            weekday(self.days()) + 1
        } else if i == reg::DAY {
            date.day
        } else if i == reg::MONTH {
            date.month
        } else if i == reg::YEAR {
            date.year as u32 as int % 100
        } else {
            date.year as u32 as int / 100
        }
    }

    /// What port 0x71 reads. The update-in-progress bit of status A is always
    /// clear.
    pub open spec fn data_value(self) -> u8 {
        let i = self.index & 0x7F;
        if Self::is_clock(self.index) {
            let v = self.clock_value(self.index) as u32;
            if self.ram[reg::STATUS_B as int] & SB_BINARY == 0 { bcd(v) } else { v as u8 }
        } else if self.index == reg::STATUS_A {
            self.ram[reg::STATUS_A as int] & 0x7F
        } else {
            self.ram[i as int]
        }
    }

    /// The clock after that read: status C clears.
    pub open spec fn after_read(self) -> CmosView {
        if self.index == reg::STATUS_C {
            CmosView { ram: self.ram.update(reg::STATUS_C as int, 0), ..self }
        } else {
            self
        }
    }

    /// The clock after a write to port 0x71. The clock registers are derived,
    /// not stored, so a write to one is dropped.
    pub open spec fn write_data(self, val: u8) -> CmosView {
        if Self::is_clock(self.index) {
            self
        } else {
            CmosView { ram: self.ram.update((self.index & 0x7F) as int, val), ..self }
        }
    }
}

impl Cmos {
    pub fn new() -> (c: Self)
        ensures
            c@ == CmosView::reset(),
    {
        let mut ram: [u8; 128] = [0; 128];
        // Status B: 24-hour, BCD (the format the BIOS conventionally leaves).
        ram[reg::STATUS_B as usize] = SB_24HOUR;
        // Status D bit 7: the RTC's battery is good and the time is valid.
        ram[reg::STATUS_D as usize] = 0x80;
        // Equipment byte: one floppy, 80x25 colour display.
        ram[0x14] = 0x21;
        Cmos { index: 0, ram, epoch_secs: 0, elapsed_secs: 0, nmi_disabled: false }
    }

    /// Advance the clock by one second of emulated time.
    pub fn tick_second(&mut self)
        ensures
            final(self)@ == (CmosView {
                elapsed_secs: old(self)@.elapsed_secs.wrapping_add(1),
                ..old(self)@
            }),
    {
        self.elapsed_secs = self.elapsed_secs.wrapping_add(1);
    }

    /// Advance the clock by `n` seconds of emulated time.
    pub fn advance(&mut self, n: u64)
        ensures
            final(self)@ == (CmosView {
                elapsed_secs: old(self)@.elapsed_secs.wrapping_add(n),
                ..old(self)@
            }),
    {
        self.elapsed_secs = self.elapsed_secs.wrapping_add(n);
    }

    /// Port 0x70: select a register. Bit 7 is the NMI-disable line.
    pub fn write_index(&mut self, val: u8)
        ensures
            final(self)@ == (CmosView {
                nmi_disabled: val & 0x80 != 0,
                index: val & 0x7F,
                ..old(self)@
            }),
    {
        self.nmi_disabled = val & 0x80 != 0;
        self.index = val & 0x7F;
    }

    /// Port 0x71 read.
    pub fn read_data(&mut self) -> (v: u8)
        ensures
            v == old(self)@.data_value(),
            final(self)@ == old(self)@.after_read(),
    {
        proof {
            crate::bits::lemma_masks();
        }
        let (y, mo, d, h, mi, s, wd) = self.civil_time();
        let shown: u32 = match self.index {
            reg::SECONDS => s,
            reg::MINUTES => mi,
            reg::HOURS => h,
            // Day of week is 1-7 with Sunday = 1.
            reg::WEEKDAY => wd + 1,
            reg::DAY => d,
            reg::MONTH => mo,
            reg::YEAR => y % 100,
            reg::CENTURY => y / 100,
            // Status A: UIP (bit 7) is always clear. There is no window here
            // in which a read could catch the clock mid-update.
            reg::STATUS_A => {
                return self.ram[reg::STATUS_A as usize] & 0x7F;
            },
            // Status C latches interrupt causes and clears on read.
            reg::STATUS_C => {
                let v: u8 = self.ram[reg::STATUS_C as usize];
                self.ram[reg::STATUS_C as usize] = 0;
                proof {
                    lemma_small_mask();
                }
                return v;
            },
            i => {
                return self.ram[(i & 0x7F) as usize];
            },
        };
        if self.ram[reg::STATUS_B as usize] & SB_BINARY == 0 {
            to_bcd(shown)
        } else {
            shown as u8
        }
    }

    /// Port 0x71 write. The clock registers are derived, not stored, so a
    /// write to one is accepted and dropped rather than corrupting the date.
    pub fn write_data(&mut self, val: u8)
        ensures
            final(self)@ == old(self)@.write_data(val),
    {
        proof {
            crate::bits::lemma_masks();
        }
        match self.index {
            reg::SECONDS | reg::MINUTES | reg::HOURS | reg::WEEKDAY | reg::DAY | reg::MONTH
            | reg::YEAR | reg::CENTURY => {},
            i => {
                self.ram[(i & 0x7F) as usize] = val;
            },
        }
    }

    /// Current date and time as (year, month, day, hour, minute, second,
    /// weekday), weekday 0 = Sunday.
    fn civil_time(&self) -> (t: (u32, u32, u32, u32, u32, u32, u32))
        ensures
            t.0 == date_of(self@.days()).year as u32,
            t.1 == date_of(self@.days()).month,
            t.2 == date_of(self@.days()).day,
            t.3 == self@.daytime() / 3600,
            t.4 == self@.daytime() % 3600 / 60,
            t.5 == self@.daytime() % 60,
            t.6 == weekday(self@.days()),
    {
        let t: u64 = self.epoch_secs.wrapping_add(self.elapsed_secs);
        let days: i64 = (t / 86_400) as i64;
        let rem: u32 = (t % 86_400) as u32;
        let (y, mo, d) = civil_from_days(days);
        // 1970-01-01 was a Thursday (weekday 4 counting Sunday as 0).
        let wd: u32 = ((days + 4) % 7) as u32;
        (y as u32, mo, d, rem / 3600, (rem % 3600) / 60, rem % 60, wd)
    }
}

proof fn lemma_small_mask()
    ensures
        0x0Cu8 & 0x7Fu8 == 0x0Cu8,
{
    crate::bits::lemma_masks();
}

/// Days since 1970-01-01 to a civil (year, month, day).
///
/// Howard Hinnant's `civil_from_days`: exact for the whole proleptic
/// Gregorian calendar, and no table of month lengths to get wrong.
pub fn civil_from_days(z: i64) -> (r: (i64, u32, u32))
    requires
        z <= i64::MAX - 719_468,
    ensures
        valid_date(r.0 as int, r.1 as int, r.2 as int),
        day_number(r.0 as int, r.1 as int, r.2 as int) == z,
        date_of(z as int) == (Date { year: r.0 as int, month: r.1 as int, day: r.2 as int }),
{
    let z0: i64 = z + 719_468;
    let era: i64 = if z0 >= 0 {
        z0 / 146_097
    } else {
        -((146_096 - z0) / 146_097)
    };
    assert(era == z0 as int / 146_097);
    let doe: u64 = (z0 - era * 146_097) as u64;  // [0, 146096]
    let yoe: u64 = (doe - doe / 1460 + doe / 36_524 - doe / 146_096) / 365;  // [0, 399]
    proof {
        lemma_year_of_era(doe as int, yoe as int);
    }
    let y: i64 = yoe as i64 + era * 400;
    let doy: u64 = doe - (365 * yoe + yoe / 4 - yoe / 100);  // [0, 365]
    assert(doy <= 365);
    let mp: u64 = (5 * doy + 2) / 153;  // [0, 11], March = 0
    let d: u32 = (doy - (153 * mp + 2) / 5 + 1) as u32;  // [1, 31]
    let m: u32 = (if mp < 10 {
        mp + 3
    } else {
        mp - 9
    }) as u32;  // [1, 12]
    let year: i64 = if m <= 2 {
        y + 1
    } else {
        y
    };
    proof {
        lemma_civil(z as int, era as int, doe as int, yoe as int, doy as int, mp as int);
        let t = Date { year: year as int, month: m as int, day: d as int };
        assert(valid_date(t.year, t.month, t.day));
        law_dates_are_unique(t, date_of(z as int));
    }
    (year, m, d)
}

/// The arithmetic of `civil_from_days`, in the integers.
proof fn lemma_civil(z: int, era: int, doe: int, yoe: int, doy: int, mp: int)
    requires
        z + 719_468 == era * 146_097 + doe,
        0 <= doe < 146_097,
        0 <= yoe <= 399,
        march_year(yoe) <= doe,
        doe < march_year(yoe + 1) || (yoe == 399 && doe == 146_096),
        doy == doe - march_year(yoe),
        mp == (5 * doy + 2) / 153,
    ensures
        ({
            let m = if mp < 10 { mp + 3 } else { mp - 9 };
            let y = yoe + era * 400 + (if m <= 2 { 1int } else { 0 });
            let d = doy - (153 * mp + 2) / 5 + 1;
            valid_date(y, m, d) && day_number(y, m, d) == z
        }),
{
    let m = if mp < 10 { mp + 3 } else { mp - 9 };
    let y0 = yoe + era * 400;
    let y = y0 + (if m <= 2 { 1int } else { 0 });
    let d = doy - (153 * mp + 2) / 5 + 1;
    assert(0 <= doy <= 365);
    assert(0 <= mp <= 11);
    lemma_months(y0);
    lemma_months(y0 + 1);
    // The March year y0 starts 59 or 60 days into the calendar year y0.
    assert((y0 - 1) / 400 == era + (yoe - 1) / 400);
    assert((y0 - 1) / 100 == 4 * era + (yoe - 1) / 100);
    assert((y0 - 1) / 4 == 100 * era + (yoe - 1) / 4);
    assert(y0 / 400 == era + yoe / 400);
    assert(y0 / 100 == 4 * era + yoe / 100);
    assert(y0 / 4 == 100 * era + yoe / 4);
    lemma_year_length(y0);
    assert(days_before_year(y0) + 31 + days_in_month(y0, 2) == era * 146_097 + march_year(yoe)
        - 719_468);
    lemma_year_length(y0 + 1);
    assert((y0 + 1) / 4 == 100 * era + (yoe + 1) / 4);
    assert((y0 + 1) / 100 == 4 * era + (yoe + 1) / 100);
    assert((y0 + 1) / 400 == era + (yoe + 1) / 400);
    assert(doy == 365 ==> leap(y0 + 1));
}

/// Binary to packed BCD, as the RTC reports its registers by default.
pub fn to_bcd(v: u32) -> (b: u8)
    ensures
        b == bcd(v),
{
    (((v / 10) << 4) | (v % 10)) as u8
}

impl Default for Cmos {
    fn default() -> (c: Self)
        ensures
            c@ == CmosView::reset(),
    {
        Self::new()
    }
}

} // verus!
