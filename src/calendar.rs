//! Reading one unit's calendar page: month blocks, their check-in and check-out
//! cells, and the dates those cells stand for.
use crate::date::{
    all_digits, day_month_year_date, day_month_year_shaped, digits_value, is_digit, iso_date,
    month_and_day_exist, month_name, parse_date, parsed_date, Date, DAY_MONTH_YEAR_FORMAT,
    ISO_FORMAT,
};
use crate::navigate::{
    find_first_match, first_child, first_iso_at, ISO_DATE_PATTERN, first_child_of, header_text, header_text_of, inside, is_inside,
    leftmost_match, link_before, nodes_data, opt_view, opt_views, parse_nodes, parsed_nodes,
    select_nodes, selected_nodes, sibling_link, sibling_text, text, text_after, text_of, HtmlNode,
    NodeData,
};
use vstd::prelude::*;
use vstd::utf8::is_ascii_chars;

verus! {

/// Selector of a month block.
pub const MONTH_SELECTOR: &'static str = "div.calendar-container";

/// Selector of a cell that marks a check-out.
pub const CHECKOUT_SELECTOR: &'static str = "div.calendar-checkout";

/// Selector of a cell that marks a check-in.
pub const CHECKIN_SELECTOR: &'static str = "div.calendar-checkin";

/// Selector of the link in the page's heading that carries the unit's name.
pub const NAME_SELECTOR: &'static str = "h1 > a";

/// Attribute of a link that holds its target.
pub const LINK_ATTRIBUTE: &'static str = "href";


/// What the structural queries found in one month block.
pub struct MonthBlock {
    /// The month label, such as "November 2024", when its place in the block holds one.
    pub label: Option<String>,
    /// For each check-out cell, the link target of its previous sibling, if any.
    pub checkout_links: Vec<Option<String>>,
    /// For each check-in cell, the text of its next sibling, if any.
    pub checkin_days: Vec<Option<String>>,
}

/// A month block as plain values.
pub struct MonthData {
    pub label: Option<Seq<char>>,
    pub checkout_links: Seq<Option<Seq<char>>>,
    pub checkin_days: Seq<Option<Seq<char>>>,
}

impl MonthBlock {
    pub open spec fn data(&self) -> MonthData {
        MonthData {
            label: opt_view(self.label),
            checkout_links: opt_views(self.checkout_links@),
            checkin_days: opt_views(self.checkin_days@),
        }
    }
}

/// One unit's check-in and check-out dates.
pub struct UnitAvailability {
    pub unit_name: String,
    pub check_ins: Vec<Date>,
    pub check_outs: Vec<Date>,
}

/// A unit's availability as plain values.
pub struct AvailabilityData {
    pub unit_name: Seq<char>,
    pub check_ins: Seq<Date>,
    pub check_outs: Seq<Date>,
}

impl UnitAvailability {
    pub open spec fn data(&self) -> AvailabilityData {
        AvailabilityData {
            unit_name: self.unit_name@,
            check_ins: self.check_ins@,
            check_outs: self.check_outs@,
        }
    }
}

/// Why a page yields no record.
#[derive(Clone, Copy, Debug, PartialEq, Eq, Structural)]
pub enum ScrapeError {
    /// An expected structural relationship is absent: here, the unit's name.
    StructureMismatch,
}

/// A day number of one digit gets a leading zero.
pub open spec fn padded_day(day: Seq<char>) -> Seq<char> {
    if day.len() < 2 {
        seq!['0'] + day
    } else {
        day
    }
}

/// The text that a check-in date is read from: "05 November 2024".
pub open spec fn checkin_text_of(day: Seq<char>, label: Seq<char>) -> Seq<char> {
    padded_day(day) + seq![' '] + label
}

pub open spec fn checkin_date_of(day: Seq<char>, label: Seq<char>) -> Option<Date> {
    parsed_date(checkin_text_of(day, label), DAY_MONTH_YEAR_FORMAT@)
}

/// The date of a check-out cell: the ISO token in its sibling's link, parsed.
pub open spec fn checkout_date_of(link: Seq<char>) -> Option<Date> {
    match leftmost_match(ISO_DATE_PATTERN@, link) {
        Some(token) => parsed_date(token, ISO_FORMAT@),
        None => None,
    }
}

/// The dates of the check-out cells, in order; cells without a date are dropped.
pub open spec fn checkout_dates_of(links: Seq<Option<Seq<char>>>) -> Seq<Date>
    decreases links.len(),
{
    if links.len() == 0 {
        seq![]
    } else {
        let rest = checkout_dates_of(links.drop_last());
        match links.last() {
            Some(link) => match checkout_date_of(link) {
                Some(d) => rest.push(d),
                None => rest,
            },
            None => rest,
        }
    }
}

/// The dates of the check-in cells, in order; cells without a date are dropped.
pub open spec fn checkin_dates_of(days: Seq<Option<Seq<char>>>, label: Seq<char>) -> Seq<Date>
    decreases days.len(),
{
    if days.len() == 0 {
        seq![]
    } else {
        let rest = checkin_dates_of(days.drop_last(), label);
        match days.last() {
            Some(day) => match checkin_date_of(day, label) {
                Some(d) => rest.push(d),
                None => rest,
            },
            None => rest,
        }
    }
}

/// What one month contributes to the check-ins: nothing when it has no label.
pub open spec fn month_check_ins(m: MonthData) -> Seq<Date> {
    match m.label {
        Some(label) => checkin_dates_of(m.checkin_days, label),
        None => seq![],
    }
}

/// What one month contributes to the check-outs: nothing when it has no label.
pub open spec fn month_check_outs(m: MonthData) -> Seq<Date> {
    match m.label {
        Some(_) => checkout_dates_of(m.checkout_links),
        None => seq![],
    }
}

/// The check-ins of all months, in document order.
pub open spec fn all_check_ins(months: Seq<MonthData>) -> Seq<Date>
    decreases months.len(),
{
    if months.len() == 0 {
        seq![]
    } else {
        all_check_ins(months.drop_last()) + month_check_ins(months.last())
    }
}

/// The check-outs of all months, in document order.
pub open spec fn all_check_outs(months: Seq<MonthData>) -> Seq<Date>
    decreases months.len(),
{
    if months.len() == 0 {
        seq![]
    } else {
        all_check_outs(months.drop_last()) + month_check_outs(months.last())
    }
}

/// A unit's record from its name, if found, and its months.
pub open spec fn availability_of(name: Option<Seq<char>>, months: Seq<MonthData>) -> Option<AvailabilityData> {
    match name {
        Some(n) => Some(
            AvailabilityData {
                unit_name: n,
                check_ins: all_check_ins(months),
                check_outs: all_check_outs(months),
            },
        ),
        None => None,
    }
}

/// For each check-out cell inside the block, the link just before it.
pub open spec fn cell_links(nodes: Seq<NodeData>, cells: Seq<usize>, block: usize) -> Seq<Option<Seq<char>>> {
    cells.filter_map(
        |c: usize|
            if is_inside(nodes, c, block) {
                Some(link_before(nodes, c))
            } else {
                None
            },
    )
}

/// For each check-in cell inside the block, the text just after it.
pub open spec fn cell_days(nodes: Seq<NodeData>, cells: Seq<usize>, block: usize) -> Seq<Option<Seq<char>>> {
    cells.filter_map(
        |c: usize|
            if is_inside(nodes, c, block) {
                Some(text_after(nodes, c))
            } else {
                None
            },
    )
}

/// The month block at node `block`, given the page's check-out and check-in cells.
pub open spec fn month_at(nodes: Seq<NodeData>, block: usize, checkouts: Seq<usize>, checkins: Seq<usize>) -> MonthData {
    MonthData {
        label: header_text_of(nodes, block),
        checkout_links: cell_links(nodes, checkouts, block),
        checkin_days: cell_days(nodes, checkins, block),
    }
}

/// The node table of a page.
pub open spec fn page_nodes(html: Seq<char>) -> Seq<NodeData> {
    parsed_nodes(html, LINK_ATTRIBUTE@)
}

/// The month blocks of a page, in document order.
pub open spec fn months_of_page(html: Seq<char>) -> Seq<MonthData> {
    let nodes = page_nodes(html);
    let checkouts = selected_nodes(html, CHECKOUT_SELECTOR@);
    let checkins = selected_nodes(html, CHECKIN_SELECTOR@);
    selected_nodes(html, MONTH_SELECTOR@).map_values(
        |b: usize| month_at(nodes, b, checkouts, checkins),
    )
}

/// The unit's name: the text of the first child of the first heading link.
pub open spec fn name_of_page(html: Seq<char>) -> Option<Seq<char>> {
    let heads = selected_nodes(html, NAME_SELECTOR@);
    if heads.len() > 0 {
        text_of(page_nodes(html), first_child_of(page_nodes(html), Some(heads[0])))
    } else {
        None
    }
}

/// The record that a unit's calendar page yields.
pub open spec fn availability_of_page(html: Seq<char>) -> Option<AvailabilityData> {
    availability_of(name_of_page(html), months_of_page(html))
}

/// Left-pads a one-digit day number with a zero.
pub fn pad_day(day: &str) -> (r: String)
    ensures
        r@ == padded_day(day@),
{
    if day.unicode_len() < 2 {
        let mut s = String::from_str("0");
        proof {
            reveal_strlit("0");
        }
        s.append(day);
        s
    } else {
        String::from_str(day)
    }
}

/// The text of a check-in date: padded day, a space, the month label.
pub fn checkin_text(day: &str, label: &str) -> (r: String)
    ensures
        r@ == checkin_text_of(day@, label@),
{
    let mut s = pad_day(day);
    s.append(" ");
    proof {
        reveal_strlit(" ");
    }
    s.append(label);
    s
}

/// A month label: the month's name, a space, the year.
pub open spec fn month_label(m: int, year: Seq<char>) -> Seq<char> {
    month_name(m) + seq![' '] + year
}

/// Day `c` (one digit) of month `m` of the year that `year` writes.
pub open spec fn one_digit_day_date(c: char, m: int, year: Seq<char>) -> Date {
    Date {
        year: digits_value(year) as i32,
        month: m as u32,
        day: (c as int - '0' as int) as u32,
    }
}

/// The date of a check-in cell whose sibling shows `day`, in the month `label`.
/// A one-digit day in a month labelled "November 2024" is that day of November 2024.
pub fn checkin_date(day: &str, label: &str) -> (r: Option<Date>)
    ensures
        r == checkin_date_of(day@, label@),
        forall|c: char, m: int, year: Seq<char>|
            day@ == seq![c] && label@ == month_label(m, year) && is_digit(c) && c != '0'
                && 1 <= m <= 12 && year.len() == 4 && all_digits(year) ==> r == Some(
                #[trigger] one_digit_day_date(c, m, year),
            ),
{
    let text = checkin_text(day, label);
    let r = parse_date(text.as_str(), DAY_MONTH_YEAR_FORMAT);
    proof {
        assert forall|c: char, m: int, year: Seq<char>|
            day@ == seq![c] && label@ == month_label(m, year) && is_digit(c) && c != '0'
                && 1 <= m <= 12 && year.len() == 4 && all_digits(year) implies r == Some(
            #[trigger] one_digit_day_date(c, m, year),
        ) by {
            lemma_padded_day_is_shaped(c, m, year);
            assert(day_month_year_shaped(text@, seq!['0', c], m, year));
        }
    }
    r
}

/// The date of a check-out cell whose sibling links to `link`. In an ASCII link,
/// that is the date of the first ISO-shaped token, where that day exists.
pub fn checkout_date(link: &str) -> (r: Option<Date>)
    ensures
        r == checkout_date_of(link@),
        forall|i: int|
            is_ascii_chars(link@) && #[trigger] first_iso_at(link@, i) && month_and_day_exist(
                iso_date(link@.subrange(i, i + 10)),
            ) ==> r == Some(iso_date(link@.subrange(i, i + 10))),
{
    let found = find_first_match(ISO_DATE_PATTERN, link);
    match found {
        Some(token) => {
            let r = parse_date(token.as_str(), ISO_FORMAT);
            proof {
                assert forall|i: int|
                    is_ascii_chars(link@) && #[trigger] first_iso_at(link@, i) && month_and_day_exist(
                        iso_date(link@.subrange(i, i + 10)),
                    ) implies r == Some(iso_date(link@.subrange(i, i + 10))) by {
                    assert(token@ == link@.subrange(i, i + 10));
                }
            }
            r
        },
        None => {
            proof {
                assert forall|i: int|
                    is_ascii_chars(link@) && #[trigger] first_iso_at(link@, i) implies false by {
                    assert(opt_view(found) == Some(link@.subrange(i, i + 10)));
                }
            }
            None
        },
    }
}

/// The check-out dates of a month's cells, in order.
pub fn checkout_dates(links: &Vec<Option<String>>) -> (r: Vec<Date>)
    ensures
        r@ == checkout_dates_of(opt_views(links@)),
{
    let mut out: Vec<Date> = Vec::new();
    let mut i: usize = 0;
    while i < links.len()
        invariant
            i <= links.len(),
            out@ == checkout_dates_of(opt_views(links@.take(i as int))),
        decreases links.len() - i,
    {
        proof {
            assert(opt_views(links@.take(i + 1)).drop_last() =~= opt_views(links@.take(i as int)));
        }
        match &links[i] {
            Some(link) => {
                match checkout_date(link.as_str()) {
                    Some(d) => out.push(d),
                    None => {},
                }
            },
            None => {},
        }
        i = i + 1;
    }
    proof {
        assert(links@.take(i as int) =~= links@);
    }
    out
}

/// The check-in dates of a month's cells, in order, in the month `label`.
pub fn checkin_dates(days: &Vec<Option<String>>, label: &str) -> (r: Vec<Date>)
    ensures
        r@ == checkin_dates_of(opt_views(days@), label@),
{
    let mut out: Vec<Date> = Vec::new();
    let mut i: usize = 0;
    while i < days.len()
        invariant
            i <= days.len(),
            out@ == checkin_dates_of(opt_views(days@.take(i as int)), label@),
        decreases days.len() - i,
    {
        proof {
            assert(opt_views(days@.take(i + 1)).drop_last() =~= opt_views(days@.take(i as int)));
        }
        match &days[i] {
            Some(day) => {
                match checkin_date(day.as_str(), label) {
                    Some(d) => out.push(d),
                    None => {},
                }
            },
            None => {},
        }
        i = i + 1;
    }
    proof {
        assert(days@.take(i as int) =~= days@);
    }
    out
}

pub open spec fn months_data(v: Seq<MonthBlock>) -> Seq<MonthData> {
    v.map_values(|m: MonthBlock| m.data())
}

/// For each check-out cell inside the block, the link just before it.
pub fn checkout_links_in(nodes: &Vec<HtmlNode>, cells: &Vec<usize>, block: usize) -> (r: Vec<Option<String>>)
    ensures
        opt_views(r@) == cell_links(nodes_data(nodes@), cells@, block),
{
    let mut out: Vec<Option<String>> = Vec::new();
    let mut i: usize = 0;
    while i < cells.len()
        invariant
            i <= cells.len(),
            opt_views(out@) == cell_links(nodes_data(nodes@), cells@.take(i as int), block),
        decreases cells.len() - i,
    {
        proof {
            assert(cells@.take(i + 1).drop_last() =~= cells@.take(i as int));
        }
        if inside(nodes, cells[i], block) {
            let link = sibling_link(nodes, cells[i]);
            let ghost before = out@;
            out.push(link);
            proof {
                assert(opt_views(out@) =~= opt_views(before) + seq![opt_view(link)]);
            }
        }
        i = i + 1;
    }
    proof {
        assert(cells@.take(i as int) =~= cells@);
    }
    out
}

/// For each check-in cell inside the block, the text just after it.
pub fn checkin_days_in(nodes: &Vec<HtmlNode>, cells: &Vec<usize>, block: usize) -> (r: Vec<Option<String>>)
    ensures
        opt_views(r@) == cell_days(nodes_data(nodes@), cells@, block),
{
    let mut out: Vec<Option<String>> = Vec::new();
    let mut i: usize = 0;
    while i < cells.len()
        invariant
            i <= cells.len(),
            opt_views(out@) == cell_days(nodes_data(nodes@), cells@.take(i as int), block),
        decreases cells.len() - i,
    {
        proof {
            assert(cells@.take(i + 1).drop_last() =~= cells@.take(i as int));
        }
        if inside(nodes, cells[i], block) {
            let day = sibling_text(nodes, cells[i]);
            let ghost before = out@;
            out.push(day);
            proof {
                assert(opt_views(out@) =~= opt_views(before) + seq![opt_view(day)]);
            }
        }
        i = i + 1;
    }
    proof {
        assert(cells@.take(i as int) =~= cells@);
    }
    out
}

/// Reads the month block at node `block`.
pub fn read_month_block(nodes: &Vec<HtmlNode>, block: usize, checkouts: &Vec<usize>, checkins: &Vec<usize>) -> (r: MonthBlock)
    ensures
        r.data() == month_at(nodes_data(nodes@), block, checkouts@, checkins@),
{
    MonthBlock {
        label: header_text(nodes, block),
        checkout_links: checkout_links_in(nodes, checkouts, block),
        checkin_days: checkin_days_in(nodes, checkins, block),
    }
}

/// Reads the month blocks of a page, in document order.
pub fn read_months(html: &str) -> (r: Vec<MonthBlock>)
    ensures
        months_data(r@) == months_of_page(html@),
{
    let nodes = parse_nodes(html, LINK_ATTRIBUTE);
    let blocks = select_nodes(html, MONTH_SELECTOR);
    let checkouts = select_nodes(html, CHECKOUT_SELECTOR);
    let checkins = select_nodes(html, CHECKIN_SELECTOR);
    let mut months: Vec<MonthBlock> = Vec::new();
    let mut i: usize = 0;
    while i < blocks.len()
        invariant
            i <= blocks.len(),
            nodes_data(nodes@) == page_nodes(html@),
            blocks@ == selected_nodes(html@, MONTH_SELECTOR@),
            checkouts@ == selected_nodes(html@, CHECKOUT_SELECTOR@),
            checkins@ == selected_nodes(html@, CHECKIN_SELECTOR@),
            months@.len() == i,
            months_data(months@) == months_of_page(html@).take(i as int),
        decreases blocks.len() - i,
    {
        let m = read_month_block(&nodes, blocks[i], &checkouts, &checkins);
        let ghost md = m.data();
        months.push(m);
        proof {
            assert(months_data(months@)[i as int] == md);
            assert(months_data(months@) =~= months_of_page(html@).take(i + 1));
        }
        i = i + 1;
    }
    proof {
        assert(months_of_page(html@).take(i as int) =~= months_of_page(html@));
    }
    months
}

/// Reads the unit's name: the text of the first child of the first heading link.
pub fn read_unit_name(html: &str) -> (r: Option<String>)
    ensures
        opt_view(r) == name_of_page(html@),
{
    let heads = select_nodes(html, NAME_SELECTOR);
    if heads.len() > 0 {
        let nodes = parse_nodes(html, LINK_ATTRIBUTE);
        text(&nodes, first_child(&nodes, Some(heads[0])))
    } else {
        None
    }
}

/// Builds a unit's record from its name and month blocks. A month without a
/// label is skipped whole; without a name there is no record.
pub fn assemble_unit(name: Option<String>, months: &Vec<MonthBlock>) -> (r: Result<
    UnitAvailability,
    ScrapeError,
>)
    ensures
        match r {
            Ok(u) => availability_of(opt_view(name), months_data(months@)) == Some(u.data()),
            Err(e) => e == ScrapeError::StructureMismatch && name is None,
        },
{
    let mut check_ins: Vec<Date> = Vec::new();
    let mut check_outs: Vec<Date> = Vec::new();
    let mut i: usize = 0;
    while i < months.len()
        invariant
            i <= months.len(),
            check_ins@ == all_check_ins(months_data(months@.take(i as int))),
            check_outs@ == all_check_outs(months_data(months@.take(i as int))),
        decreases months.len() - i,
    {
        proof {
            assert(months_data(months@.take(i + 1)).drop_last() =~= months_data(
                months@.take(i as int),
            ));
            assert(months_data(months@.take(i + 1)).last() == months@[i as int].data());
        }
        let m = &months[i];
        match &m.label {
            Some(label) => {
                let mut ins = checkin_dates(&m.checkin_days, label.as_str());
                let mut outs = checkout_dates(&m.checkout_links);
                check_ins.append(&mut ins);
                check_outs.append(&mut outs);
            },
            None => {
                proof {
                    assert(check_ins@ + seq![] =~= check_ins@);
                    assert(check_outs@ + seq![] =~= check_outs@);
                }
            },
        }
        i = i + 1;
    }
    proof {
        assert(months@.take(i as int) =~= months@);
    }
    match name {
        Some(unit_name) => Ok(UnitAvailability { unit_name, check_ins, check_outs }),
        None => Err(ScrapeError::StructureMismatch),
    }
}

/// What reading `html` may give: the page's record, or `StructureMismatch`
/// exactly when the page has no name.
pub open spec fn assembled_from(html: Seq<char>, r: Result<UnitAvailability, ScrapeError>) -> bool {
    match r {
        Ok(u) => availability_of_page(html) == Some(u.data()),
        Err(e) => e == ScrapeError::StructureMismatch && availability_of_page(html) is None,
    }
}

/// Reads a unit's record from its calendar page. Fails with `StructureMismatch`
/// exactly when the page's heading holds no name.
pub fn assemble(html: &str) -> (r: Result<UnitAvailability, ScrapeError>)
    ensures
        assembled_from(html@, r),
{
    let name = read_unit_name(html);
    let months = read_months(html);
    assemble_unit(name, &months)
}

/// Reading a page has no hidden state: any two results of reading the same
/// text are the same record, or the same error.
pub proof fn lemma_page_reading_is_deterministic(
    html: Seq<char>,
    r1: Result<UnitAvailability, ScrapeError>,
    r2: Result<UnitAvailability, ScrapeError>,
)
    requires
        assembled_from(html, r1),
        assembled_from(html, r2),
    ensures
        match (r1, r2) {
            (Ok(a), Ok(b)) => a.data() == b.data(),
            (Err(x), Err(y)) => x == y,
            _ => false,
        },
{
}

/// A month block without a label contributes nothing, and every other month of
/// the page still contributes what it would without it.
pub proof fn lemma_unlabelled_month_is_skipped(months: Seq<MonthData>, j: int)
    requires
        0 <= j < months.len(),
        months[j].label is None,
    ensures
        all_check_ins(months) == all_check_ins(months.remove(j)),
        all_check_outs(months) == all_check_outs(months.remove(j)),
    decreases months.len(),
{
    if j == months.len() - 1 {
        assert(months.remove(j) =~= months.drop_last());
        assert(all_check_ins(months) =~= all_check_ins(months.drop_last()));
        assert(all_check_outs(months) =~= all_check_outs(months.drop_last()));
    } else {
        lemma_unlabelled_month_is_skipped(months.drop_last(), j);
        assert(months.remove(j).drop_last() =~= months.drop_last().remove(j));
        assert(months.remove(j).last() == months.last());
    }
}

/// A check-out cell whose sibling's link holds no ISO date token is dropped, and
/// the dates of all other cells are kept.
pub proof fn lemma_undated_checkout_is_dropped(links: Seq<Option<Seq<char>>>, j: int)
    requires
        0 <= j < links.len(),
        links[j] matches Some(link) && leftmost_match(ISO_DATE_PATTERN@, link) is None,
    ensures
        checkout_dates_of(links) == checkout_dates_of(links.remove(j)),
    decreases links.len(),
{
    if j == links.len() - 1 {
        assert(links.remove(j) =~= links.drop_last());
    } else {
        lemma_undated_checkout_is_dropped(links.drop_last(), j);
        assert(links.remove(j).drop_last() =~= links.drop_last().remove(j));
        assert(links.remove(j).last() == links.last());
    }
}

/// A one-digit day padded and joined to a label of a month name and a four-digit
/// year is text that the day-month-year format reads exactly.
proof fn lemma_padded_day_is_shaped(c: char, m: int, year: Seq<char>)
    requires
        is_digit(c),
        c != '0',
        1 <= m <= 12,
        year.len() == 4,
        all_digits(year),
    ensures
        day_month_year_shaped(checkin_text_of(seq![c], month_label(m, year)), seq!['0', c], m, year),
        day_month_year_date(seq!['0', c], m, year) == one_digit_day_date(c, m, year),
        month_and_day_exist(one_digit_day_date(c, m, year)),
{
    let dd = seq!['0', c];
    assert(padded_day(seq![c]) =~= dd);
    assert(checkin_text_of(seq![c], month_label(m, year)) =~= dd + seq![' '] + month_name(m) + seq![' '] + year);
    assert forall|k: int| 0 <= k < dd.len() implies is_digit(#[trigger] dd[k]) by {}
    let zero = seq!['0'];
    assert(zero.drop_last() =~= Seq::<char>::empty());
    assert(digits_value(Seq::<char>::empty()) == 0);
    assert(zero.last() == '0');
    assert(digits_value(zero) == 0);
    assert(dd.drop_last() =~= zero);
    assert(dd.last() == c);
    assert(digits_value(dd) == c as int - '0' as int);
}

} // verus!
