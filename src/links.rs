//! Discovery of the unit detail pages linked from the listing index page.
use crate::navigate::{opt_views, select_attributes, selected_attributes, views};
use vstd::prelude::*;

verus! {

/// Selector of a hyperlink.
pub const LINK_SELECTOR: &'static str = "a";

/// Attribute of a hyperlink that holds its target.
pub const TARGET_ATTRIBUTE: &'static str = "href";

/// Path appended to a unit's detail page to reach its calendar.
pub const CALENDAR_SUFFIX: &'static str = "/calendar";

/// The link targets that start with `prefix`, in order, duplicates kept.
pub open spec fn unit_links_of(targets: Seq<Option<Seq<char>>>, prefix: Seq<char>) -> Seq<Seq<char>> {
    targets.filter_map(
        |t: Option<Seq<char>>|
            match t {
                Some(l) => if prefix.is_prefix_of(l) {
                    Some(l)
                } else {
                    None
                },
                None => None,
            },
    )
}

/// Whether `s` starts with `prefix`.
pub fn has_prefix(s: &str, prefix: &str) -> (r: bool)
    ensures
        r == prefix@.is_prefix_of(s@),
{
    let n = prefix.unicode_len();
    if n > s.unicode_len() {
        return false;
    }
    let mut i: usize = 0;
    while i < n
        invariant
            n == prefix@.len(),
            n <= s@.len(),
            i <= n,
            forall|k: int| 0 <= k < i ==> s@[k] == prefix@[k],
        decreases n - i,
    {
        if s.get_char(i) != prefix.get_char(i) {
            return false;
        }
        i = i + 1;
    }
    proof {
        assert(s@.subrange(0, n as int) =~= prefix@);
    }
    true
}

/// Keeps the link targets that start with `prefix`, in their order.
pub fn filter_unit_links(targets: &Vec<Option<String>>, prefix: &str) -> (r: Vec<String>)
    ensures
        views(r@) == unit_links_of(opt_views(targets@), prefix@),
{
    let mut out: Vec<String> = Vec::new();
    let mut i: usize = 0;
    while i < targets.len()
        invariant
            i <= targets.len(),
            views(out@) == unit_links_of(opt_views(targets@.take(i as int)), prefix@),
        decreases targets.len() - i,
    {
        proof {
            assert(opt_views(targets@.take(i + 1)).drop_last() =~= opt_views(
                targets@.take(i as int),
            ));
        }
        match &targets[i] {
            Some(t) => {
                if has_prefix(t.as_str(), prefix) {
                    let ghost before = out@;
                    out.push(t.clone());
                    proof {
                        assert(views(out@) =~= views(before) + seq![t@]);
                    }
                }
            },
            None => {},
        }
        i = i + 1;
    }
    proof {
        assert(targets@.take(i as int) =~= targets@);
    }
    out
}

/// The links of the index page that lead to unit detail pages: those whose
/// target starts with `prefix`, in document order, duplicates kept.
pub fn discover_unit_links(index_html: &str, prefix: &str) -> (r: Vec<String>)
    ensures
        views(r@) == unit_links_of(
            selected_attributes(index_html@, LINK_SELECTOR@, TARGET_ATTRIBUTE@),
            prefix@,
        ),
{
    let targets = select_attributes(index_html, LINK_SELECTOR, TARGET_ATTRIBUTE);
    filter_unit_links(&targets, prefix)
}

/// The calendar page of a unit's detail page.
pub fn calendar_url(link: &str) -> (r: String)
    ensures
        r@ == link@ + CALENDAR_SUFFIX@,
{
    let mut s = String::from_str(link);
    s.append(CALENDAR_SUFFIX);
    s
}

} // verus!
