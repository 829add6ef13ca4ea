//! The watching list laid out by airing day: anime with no airing day first,
//! then one section for each weekday, starting today.
use crate::entry::Entry;
use crate::paint::{owo_green, owo_magenta, owo_underline};
use crate::weekday::{local_weekday, Weekday};
use vstd::prelude::*;

verus! {

/// How many days from `today` until the next airing on weekday `w` (0 when
/// `w` is today).
pub open spec fn days_until(w: Weekday, today: Weekday) -> int {
    (7 + crate::weekday::day_index(w) - crate::weekday::day_index(today)) % 7
}

/// The weekday that is `k` days after `today`.
pub open spec fn weekday_after(today: Weekday, k: int) -> Weekday {
    crate::weekday::weekday_at((crate::weekday::day_index(today) + k) % 7)->0
}

/// A part of the laid-out list.
#[derive(Clone, Copy, PartialEq, Eq, Structural, Debug)]
pub enum Section {
    /// Anime without an airing day.
    OffSeason,
    /// Anime that air a given number of days after today (0 to 6).
    DaysAhead(u32),
}

/// Whether an entry belongs to a section of the list laid out on `today`.
pub open spec fn belongs(sec: Section, today: Weekday) -> spec_fn(Entry) -> bool {
    |e: Entry|
        match sec {
            Section::OffSeason => e.weekday is None,
            Section::DaysAhead(k) => match e.weekday {
                Some(w) => days_until(w, today) == k,
                None => false,
            },
        }
}

/// The entries of a section, in the order of the list.
pub open spec fn section_entries(s: Seq<Entry>, today: Weekday, sec: Section) -> Seq<Entry> {
    s.filter(belongs(sec, today))
}

/// The line that shows an entry in the list: two spaces, then its label.
pub open spec fn entry_line(e: Entry) -> Seq<char> {
    seq![' ', ' '] + crate::entry::entry_label(e)
}

/// A heading: the text, colored and underlined, then a colon.
pub open spec fn heading(color: Seq<char>, text: Seq<char>) -> Seq<char> {
    crate::paint::owo_underlined(crate::paint::owo_foreground(color, text)) + seq![':']
}

/// The heading of the anime without an airing day.
pub open spec fn off_season_heading() -> Seq<char> {
    heading(
        crate::paint::magenta_code(),
        seq!['O', 'f', 'f', '-', 's', 'e', 'a', 's', 'o', 'n'],
    )
}

/// The heading of a weekday: its short name, in green for today and in
/// magenta for any other day.
pub open spec fn day_heading(w: Weekday, today: Weekday) -> Seq<char> {
    heading(
        if w == today {
            crate::paint::green_code()
        } else {
            crate::paint::magenta_code()
        },
        crate::weekday::short_day_name(w),
    )
}

/// A section's lines: nothing when it is empty, else its heading and then a
/// line for each of its entries.
pub open spec fn section_lines(head: Seq<char>, s: Seq<Entry>) -> Seq<Seq<char>> {
    if s.len() == 0 {
        Seq::empty()
    } else {
        seq![head] + s.map_values(|e: Entry| entry_line(e))
    }
}

/// The lines of the weekday sections from `k` days ahead to six days ahead.
pub open spec fn day_sections(s: Seq<Entry>, today: Weekday, k: int) -> Seq<Seq<char>>
    decreases 7 - k,
{
    if k >= 7 || k < 0 {
        Seq::empty()
    } else {
        section_lines(
            day_heading(weekday_after(today, k), today),
            section_entries(s, today, Section::DaysAhead(k as u32)),
        ) + day_sections(s, today, k + 1)
    }
}

/// What the watching list shows on `today`: the anime without an airing day,
/// then for each weekday from today on, the anime that air that day.
pub open spec fn watching_list_lines(s: Seq<Entry>, today: Weekday) -> Seq<Seq<char>> {
    section_lines(off_season_heading(), section_entries(s, today, Section::OffSeason))
        + day_sections(s, today, 0)
}

proof fn lemma_day_sections_step(s: Seq<Entry>, today: Weekday, k: int)
    requires
        0 <= k < 7,
    ensures
        day_sections(s, today, k) == section_lines(
            day_heading(weekday_after(today, k), today),
            section_entries(s, today, Section::DaysAhead(k as u32)),
        ) + day_sections(s, today, k + 1),
{
}

/// The texts of a list of lines.
pub open spec fn texts(v: Seq<String>) -> Seq<Seq<char>> {
    v.map_values(|l: String| l@)
}

/// How many days there are from `today` until the next airing on `w`:
/// `(7 + w - today) % 7`, counting days from Monday.
pub fn days_until_airing(w: Weekday, today: Weekday) -> (r: u32)
    ensures
        r == days_until(w, today),
        r < 7,
{
    (7 + w.num_days_from_monday() - today.num_days_from_monday()) % 7
}

/// The weekday `k` days after `today`.
pub fn weekday_after_days(today: Weekday, k: u32) -> (r: Weekday)
    requires
        k < 7,
    ensures
        r == weekday_after(today, k as int),
{
    let n = (today.num_days_from_monday() + k) % 7;
    if n == 0 {
        Weekday::Mon
    } else if n == 1 {
        Weekday::Tue
    } else if n == 2 {
        Weekday::Wed
    } else if n == 3 {
        Weekday::Thu
    } else if n == 4 {
        Weekday::Fri
    } else if n == 5 {
        Weekday::Sat
    } else {
        Weekday::Sun
    }
}

/// Whether an entry belongs to a section of the list laid out on `today`.
pub fn in_section(e: &Entry, sec: Section, today: Weekday) -> (r: bool)
    ensures
        r == belongs(sec, today)(*e),
{
    match sec {
        Section::OffSeason => e.weekday.is_none(),
        Section::DaysAhead(k) => match e.weekday {
            Some(w) => days_until_airing(w, today) == k,
            None => false,
        },
    }
}

/// The lines of one section: its heading and a line per entry of it, or
/// nothing when no entry belongs to it.
pub fn render_section(entries: &Vec<Entry>, today: Weekday, sec: Section, head: String) -> (r: Vec<
    String,
>)
    ensures
        texts(r@) == section_lines(head@, section_entries(entries@, today, sec)),
{
    let ghost pred = belongs(sec, today);
    let mut lines: Vec<String> = Vec::new();
    let mut i: usize = 0;
    while i < entries.len()
        invariant
            0 <= i <= entries@.len(),
            pred == belongs(sec, today),
            texts(lines@) == entries@.take(i as int).filter(pred).map_values(
                |e: Entry| entry_line(e),
            ),
        decreases entries@.len() - i,
    {
        let ghost before = entries@.take(i as int);
        let ghost after = entries@.take(i + 1);
        assert(after.drop_last() =~= before);
        assert(after.last() == entries@[i as int]);
        reveal(Seq::filter);
        if in_section(&entries[i], sec, today) {
            let mut line = String::from_str("  ");
            line.append(entries[i].label().as_str());
            proof {
                reveal_strlit("  ");
                assert("  "@ =~= seq![' ', ' ']);
                assert(line@ == entry_line(entries@[i as int]));
            }
            let ghost prev = texts(lines@);
            lines.push(line);
            assert(texts(lines@) =~= prev.push(entry_line(entries@[i as int])));
            assert(after.filter(pred) == before.filter(pred).push(entries@[i as int]));
            assert(texts(lines@) =~= after.filter(pred).map_values(|e: Entry| entry_line(e)));
        } else {
            assert(after.filter(pred) == before.filter(pred));
        }
        i = i + 1;
    }
    assert(entries@.take(entries@.len() as int) =~= entries@);
    if lines.len() == 0 {
        assert(texts(lines@) =~= Seq::<Seq<char>>::empty());
        lines
    } else {
        let ghost body = texts(lines@);
        let mut r: Vec<String> = Vec::new();
        r.push(head);
        r.append(&mut lines);
        proof {
            let f = entries@.filter(pred);
            assert(f == entries@.take(entries@.len() as int).filter(pred));
            assert(texts(r@) =~= seq![head@] + body);
        }
        r
    }
}

/// A heading: the text in a color, underlined, then a colon.
fn heading_text(colored: String) -> (r: String)
    ensures
        r@ == crate::paint::owo_underlined(colored@) + seq![':'],
{
    let mut r = owo_underline(colored.as_str());
    r.append(":");
    proof {
        reveal_strlit(":");
    }
    r
}

/// Lays out the watching list on `today`: first the anime that record no
/// airing day, under "Off-season"; then, for each weekday from today on, the
/// anime that air that day under the weekday's short name (green for today,
/// magenta for other days). Empty sections are left out; each section keeps
/// the order of `entries`.
pub fn render_watching_list(entries: &Vec<Entry>, today: Weekday) -> (r: Vec<String>)
    ensures
        texts(r@) == watching_list_lines(entries@, today),
{
    proof {
        reveal_strlit("Off-season");
        assert("Off-season"@ =~= seq!['O', 'f', 'f', '-', 's', 'e', 'a', 's', 'o', 'n']);
    }
    let off_head = heading_text(owo_magenta("Off-season"));
    let mut lines = render_section(entries, today, Section::OffSeason, off_head);
    let mut k: u32 = 0;
    while k < 7
        invariant
            0 <= k <= 7,
            texts(lines@) + day_sections(entries@, today, k as int) == watching_list_lines(
                entries@,
                today,
            ),
        decreases 7 - k,
    {
        let w = weekday_after_days(today, k);
        let name = w.short_name();
        let colored = if w == today {
            owo_green(name)
        } else {
            owo_magenta(name)
        };
        let head = heading_text(colored);
        assert(head@ == day_heading(weekday_after(today, k as int), today));
        let mut part = render_section(entries, today, Section::DaysAhead(k), head);
        let ghost prev = texts(lines@);
        let ghost sec = texts(part@);
        lines.append(&mut part);
        proof {
            assert(texts(lines@) =~= prev + sec);
            lemma_day_sections_step(entries@, today, k as int);
            let rest = day_sections(entries@, today, k + 1);
            assert(prev + sec + rest =~= prev + (sec + rest));
        }
        k = k + 1;
    }
    assert(texts(lines@) =~= texts(lines@) + day_sections(entries@, today, 7));
    lines
}

/// Lays out the watching list for the current local weekday: the lines are
/// those of `render_watching_list` on some weekday.
pub fn render_watching_list_today(entries: &Vec<Entry>) -> (r: Vec<String>)
    ensures
        exists|today: Weekday| texts(r@) == watching_list_lines(entries@, today),
{
    let today = local_weekday();
    render_watching_list(entries, today)
}

/// How many entries the weekday sections from `k` days ahead on hold.
pub open spec fn days_count(s: Seq<Entry>, today: Weekday, k: int) -> nat
    decreases 7 - k,
{
    if k >= 7 || k < 0 {
        0
    } else {
        section_entries(s, today, Section::DaysAhead(k as u32)).len() + days_count(s, today, k + 1)
    }
}

proof fn lemma_days_count_push(s: Seq<Entry>, e: Entry, today: Weekday, k: int)
    requires
        0 <= k <= 7,
    ensures
        days_count(s.push(e), today, k) == days_count(s, today, k) + (match e.weekday {
            Some(w) => if days_until(w, today) >= k {
                1int
            } else {
                0int
            },
            None => 0int,
        }),
    decreases 7 - k,
{
    reveal(Seq::filter);
    if k < 7 {
        lemma_days_count_push(s, e, today, k + 1);
        let sec = Section::DaysAhead(k as u32);
        assert(s.push(e).drop_last() =~= s);
        assert(section_entries(s.push(e), today, sec) == if belongs(sec, today)(e) {
            section_entries(s, today, sec).push(e)
        } else {
            section_entries(s, today, sec)
        });
    }
}

/// Each entry of the list is shown in exactly one place: the sections hold,
/// together, as many entries as the list.
pub proof fn lemma_sections_partition(s: Seq<Entry>, today: Weekday)
    ensures
        section_entries(s, today, Section::OffSeason).len() + days_count(s, today, 0) == s.len(),
    decreases s.len(),
{
    reveal(Seq::filter);
    if s.len() == 0 {
        lemma_days_count_empty(s, today, 0);
    } else {
        let rest = s.drop_last();
        let e = s.last();
        lemma_sections_partition(rest, today);
        assert(rest.push(e) =~= s);
        lemma_days_count_push(rest, e, today, 0);
        assert(section_entries(s, today, Section::OffSeason) == if e.weekday is None {
            section_entries(rest, today, Section::OffSeason).push(e)
        } else {
            section_entries(rest, today, Section::OffSeason)
        });
    }
}

proof fn lemma_days_count_empty(s: Seq<Entry>, today: Weekday, k: int)
    requires
        s.len() == 0,
        0 <= k <= 7,
    ensures
        days_count(s, today, k) == 0,
    decreases 7 - k,
{
    reveal(Seq::filter);
    if k < 7 {
        lemma_days_count_empty(s, today, k + 1);
    }
}

/// Every entry of the section `k` days ahead airs on the weekday `k` days
/// after today, the day its heading names; only the section of today's
/// weekday is headed as today.
pub proof fn lemma_section_weekday(s: Seq<Entry>, today: Weekday, k: u32, i: int)
    requires
        k < 7,
        0 <= i < section_entries(s, today, Section::DaysAhead(k)).len(),
    ensures
        section_entries(s, today, Section::DaysAhead(k))[i].weekday == Some(
            weekday_after(today, k as int),
        ),
        (weekday_after(today, k as int) == today) <==> k == 0,
{
    broadcast use vstd::seq_lib::group_filter_ensures;

    let e = section_entries(s, today, Section::DaysAhead(k))[i];
    assert(belongs(Section::DaysAhead(k), today)(e));
}

/// Each section keeps the order of the list: a list sorted by title shows
/// each section sorted by title.
pub proof fn lemma_sections_sorted(s: Seq<Entry>, today: Weekday, sec: Section)
    requires
        crate::entry::sorted_by_title(s),
    ensures
        crate::entry::sorted_by_title(section_entries(s, today, sec)),
    decreases s.len(),
{
    reveal(Seq::filter);
    if s.len() > 0 {
        let rest = s.drop_last();
        let e = s.last();
        assert forall|i: int, j: int| 0 <= i < j < rest.len() implies !crate::text::text_less(
            #[trigger] rest[j].title@,
            #[trigger] rest[i].title@,
        ) by {
            assert(rest[i] == s[i] && rest[j] == s[j]);
        }
        lemma_sections_sorted(rest, today, sec);
        let f = section_entries(rest, today, sec);
        if belongs(sec, today)(e) {
            let g = f.push(e);
            assert forall|i: int, j: int| 0 <= i < j < g.len() implies !crate::text::text_less(
                #[trigger] g[j].title@,
                #[trigger] g[i].title@,
            ) by {
                if j == g.len() - 1 {
                    broadcast use vstd::seq_lib::group_filter_ensures;

                    assert(g[i] == f[i]);
                    assert(f.contains(f[i]));
                    rest.lemma_filter_contains_rev(belongs(sec, today), f[i]);
                    assert(rest.contains(f[i]));
                    let m = choose|m: int| 0 <= m < rest.len() && rest[m] == f[i];
                    assert(s[m] == rest[m]);
                    assert(s[s.len() - 1] == e);
                    assert(!crate::text::text_less(s[s.len() - 1].title@, s[m].title@));
                }
            }
        }
    }
}

/// The watching list does not depend on the order in which the entries were
/// read: when two reads hold the same entries with distinct titles, their
/// sorted lists (as `sort_by_title` gives them) are laid out alike on any day.
pub proof fn lemma_layout_independent_of_order(
    read1: Seq<Entry>,
    read2: Seq<Entry>,
    sorted1: Seq<Entry>,
    sorted2: Seq<Entry>,
    today: Weekday,
)
    requires
        read1.to_multiset() == read2.to_multiset(),
        crate::entry::distinct_titles(read1),
        crate::entry::distinct_titles(read2),
        crate::entry::sorted_by_title(sorted1),
        crate::entry::sorted_by_title(sorted2),
        forall|t: Seq<char>| #[trigger] crate::entry::titled(sorted1, t) == crate::entry::titled(read1, t),
        forall|t: Seq<char>| #[trigger] crate::entry::titled(sorted2, t) == crate::entry::titled(read2, t),
    ensures
        sorted1 == sorted2,
        watching_list_lines(sorted1, today) == watching_list_lines(sorted2, today),
{
    assert forall|t: Seq<char>| #[trigger] crate::entry::titled(sorted1, t) == crate::entry::titled(
        sorted2,
        t,
    ) by {
        crate::entry::lemma_same_entries_same_titled(read1, read2, t);
        assert(crate::entry::titled(sorted1, t) == crate::entry::titled(read1, t));
        assert(crate::entry::titled(sorted2, t) == crate::entry::titled(read2, t));
    }
    crate::entry::lemma_sorted_by_title_unique(sorted1, sorted2);
}

} // verus!
