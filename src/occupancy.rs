//! Folding units' records into one row per day of a reporting window.
use crate::calendar::{assemble, availability_of_page, AvailabilityData, UnitAvailability};
use crate::navigate::{opt_views};
use crate::date::{next_day, successor, weekday_of, weekday_of_day_number, Date, Weekday, MAX_YEAR};
use crate::navigate::views;
use vstd::prelude::*;

verus! {

/// Length of the reporting window, in days.
pub const WINDOW_DAYS: usize = 14;

/// Who checks in and who checks out on one day.
pub struct OccupancyRow {
    pub date: Date,
    pub weekday: Weekday,
    /// Names of the units that check in that day, in the order of the units.
    pub checking_in: Vec<String>,
    /// Names of the units that check out that day, in the order of the units.
    pub checking_out: Vec<String>,
}

pub open spec fn units_data(units: Seq<UnitAvailability>) -> Seq<AvailabilityData> {
    units.map_values(|u: UnitAvailability| u.data())
}

/// Names of the units whose check-ins hold `d`, in order.
pub open spec fn names_checking_in(units: Seq<AvailabilityData>, d: Date) -> Seq<Seq<char>> {
    units.filter_map(
        |u: AvailabilityData|
            if u.check_ins.contains(d) {
                Some(u.unit_name)
            } else {
                None
            },
    )
}

/// Names of the units whose check-outs hold `d`, in order.
pub open spec fn names_checking_out(units: Seq<AvailabilityData>, d: Date) -> Seq<Seq<char>> {
    units.filter_map(
        |u: AvailabilityData|
            if u.check_outs.contains(d) {
                Some(u.unit_name)
            } else {
                None
            },
    )
}

/// The row of `date` as plain values.
pub open spec fn row_is(row: OccupancyRow, date: Date, units: Seq<AvailabilityData>) -> bool {
    &&& row.date == date
    &&& row.weekday == weekday_of_day_number(date.day_number())
    &&& views(row.checking_in@) == names_checking_in(units, date)
    &&& views(row.checking_out@) == names_checking_out(units, date)
}

/// Whether `dates` holds `d`.
pub fn contains_date(dates: &Vec<Date>, d: Date) -> (r: bool)
    ensures
        r == dates@.contains(d),
{
    let mut i: usize = 0;
    while i < dates.len()
        invariant
            i <= dates.len(),
            forall|k: int| 0 <= k < i ==> dates@[k] != d,
        decreases dates.len() - i,
    {
        if dates[i] == d {
            return true;
        }
        i = i + 1;
    }
    false
}

/// The names of the units that check in (`check_in`) or check out on `d`.
fn names_on(units: &Vec<UnitAvailability>, d: Date, check_in: bool) -> (r: Vec<String>)
    ensures
        check_in ==> views(r@) == names_checking_in(units_data(units@), d),
        !check_in ==> views(r@) == names_checking_out(units_data(units@), d),
{
    let mut out: Vec<String> = Vec::new();
    let mut i: usize = 0;
    while i < units.len()
        invariant
            i <= units.len(),
            check_in ==> views(out@) == names_checking_in(units_data(units@.take(i as int)), d),
            !check_in ==> views(out@) == names_checking_out(units_data(units@.take(i as int)), d),
        decreases units.len() - i,
    {
        proof {
            assert(units_data(units@.take(i + 1)).drop_last() =~= units_data(
                units@.take(i as int),
            ));
            assert(units_data(units@.take(i + 1)).last() == units@[i as int].data());
        }
        let u = &units[i];
        let hit = if check_in {
            contains_date(&u.check_ins, d)
        } else {
            contains_date(&u.check_outs, d)
        };
        if hit {
            let ghost before = out@;
            out.push(u.unit_name.clone());
            proof {
                assert(views(out@) =~= views(before) + seq![u.unit_name@]);
            }
        }
        i = i + 1;
    }
    proof {
        assert(units@.take(i as int) =~= units@);
    }
    out
}

/// The row of one day: its weekday, and the units that check in and out.
pub fn occupancy_row(date: Date, units: &Vec<UnitAvailability>) -> (r: OccupancyRow)
    requires
        date.valid(),
    ensures
        row_is(r, date, units_data(units@)),
{
    OccupancyRow {
        date,
        weekday: weekday_of(date),
        checking_in: names_on(units, date, true),
        checking_out: names_on(units, date, false),
    }
}

/// One row for each of the `days` days from `today` on, in ascending order.
pub fn occupancy_table(today: Date, units: &Vec<UnitAvailability>, days: usize) -> (r: Vec<
    OccupancyRow,
>)
    requires
        today.valid(),
        today.year + days <= MAX_YEAR,
    ensures
        r@.len() == days,
        forall|i: int|
            0 <= i < days ==> #[trigger] r@[i].date.day_number() == today.day_number() + i
                && r@[i].date.valid() && row_is(r@[i], r@[i].date, units_data(units@)),
        forall|i: int, j: int|
            0 <= i < j < days ==> r@[i].date.day_number() < r@[j].date.day_number(),
        days > 0 ==> r@[0].date == today,
        forall|i: int| 0 < i < days ==> #[trigger] r@[i].date == successor(r@[i - 1].date),
{
    let mut rows: Vec<OccupancyRow> = Vec::new();
    let mut d = today;
    let mut i: usize = 0;
    while i < days
        invariant
            i <= days,
            rows@.len() == i,
            d.valid(),
            d.year <= today.year + i,
            today.year + days <= MAX_YEAR,
            i < days ==> d.day_number() == today.day_number() + i,
            i == 0 ==> d == today,
            0 < i < days ==> d == successor(rows@[i - 1].date),
            i > 0 ==> rows@[0].date == today,
            forall|k: int| 0 < k < i ==> #[trigger] rows@[k].date == successor(rows@[k - 1].date),
            forall|k: int|
                0 <= k < i ==> #[trigger] rows@[k].date.day_number() == today.day_number() + k
                    && rows@[k].date.valid() && row_is(rows@[k], rows@[k].date, units_data(units@)),
        decreases days - i,
    {
        rows.push(occupancy_row(d, units));
        i = i + 1;
        if i < days {
            d = next_day(d);
        }
    }
    assert forall|a: int, b: int| 0 <= a < b < days implies rows@[a].date.day_number()
        < rows@[b].date.day_number() by {
        assert(rows@[a].date.day_number() == today.day_number() + a);
        assert(rows@[b].date.day_number() == today.day_number() + b);
    }
    rows
}

/// The records of the units whose page was fetched (`Some`) and yields one, in
/// the order of the pages; a failed fetch or an unreadable page leaves out that
/// unit alone.
pub open spec fn units_of_pages(pages: Seq<Option<Seq<char>>>) -> Seq<AvailabilityData> {
    pages.filter_map(
        |p: Option<Seq<char>>|
            match p {
                Some(html) => availability_of_page(html),
                None => None,
            },
    )
}

/// Reads every fetched calendar page and keeps the units that could be read.
pub fn collect_units(pages: &Vec<Option<String>>) -> (r: Vec<UnitAvailability>)
    ensures
        units_data(r@) == units_of_pages(opt_views(pages@)),
{
    let mut out: Vec<UnitAvailability> = Vec::new();
    let mut i: usize = 0;
    while i < pages.len()
        invariant
            i <= pages.len(),
            units_data(out@) == units_of_pages(opt_views(pages@.take(i as int))),
        decreases pages.len() - i,
    {
        proof {
            assert(opt_views(pages@.take(i + 1)).drop_last() =~= opt_views(
                pages@.take(i as int),
            ));
        }
        match &pages[i] {
            Some(html) => {
                match assemble(html.as_str()) {
                    Ok(u) => {
                        let ghost before = out@;
                        out.push(u);
                        proof {
                            assert(units_data(out@) =~= units_data(before) + seq![u.data()]);
                        }
                    },
                    Err(_) => {},
                }
            },
            None => {},
        }
        i = i + 1;
    }
    proof {
        assert(pages@.take(i as int) =~= pages@);
    }
    out
}

} // verus!
