//! Days of the week, and how an anime's airing day is written as a list tag.
use chrono::Datelike;
use vstd::prelude::*;

verus! {

/// A day of the week, Monday first.
#[derive(Clone, Copy, PartialEq, Eq, Structural, Debug)]
pub enum Weekday {
    Mon,
    Tue,
    Wed,
    Thu,
    Fri,
    Sat,
    Sun,
}

/// The number of days from Monday to a weekday: Monday is 0, Sunday is 6.
pub open spec fn day_index(w: Weekday) -> nat {
    match w {
        Weekday::Mon => 0,
        Weekday::Tue => 1,
        Weekday::Wed => 2,
        Weekday::Thu => 3,
        Weekday::Fri => 4,
        Weekday::Sat => 5,
        Weekday::Sun => 6,
    }
}

/// The weekday a number of days after Monday, for 0 to 6.
pub open spec fn weekday_at(n: int) -> Option<Weekday> {
    if n == 0 {
        Some(Weekday::Mon)
    } else if n == 1 {
        Some(Weekday::Tue)
    } else if n == 2 {
        Some(Weekday::Wed)
    } else if n == 3 {
        Some(Weekday::Thu)
    } else if n == 4 {
        Some(Weekday::Fri)
    } else if n == 5 {
        Some(Weekday::Sat)
    } else if n == 6 {
        Some(Weekday::Sun)
    } else {
        None
    }
}

/// The full lower-case English name of a weekday, as it is kept in a tag.
pub open spec fn day_name(w: Weekday) -> Seq<char> {
    match w {
        Weekday::Mon => seq!['m', 'o', 'n', 'd', 'a', 'y'],
        Weekday::Tue => seq!['t', 'u', 'e', 's', 'd', 'a', 'y'],
        Weekday::Wed => seq!['w', 'e', 'd', 'n', 'e', 's', 'd', 'a', 'y'],
        Weekday::Thu => seq!['t', 'h', 'u', 'r', 's', 'd', 'a', 'y'],
        Weekday::Fri => seq!['f', 'r', 'i', 'd', 'a', 'y'],
        Weekday::Sat => seq!['s', 'a', 't', 'u', 'r', 'd', 'a', 'y'],
        Weekday::Sun => seq!['s', 'u', 'n', 'd', 'a', 'y'],
    }
}

/// The three-letter name of a weekday, as it is shown in headings.
pub open spec fn short_day_name(w: Weekday) -> Seq<char> {
    match w {
        Weekday::Mon => seq!['M', 'o', 'n'],
        Weekday::Tue => seq!['T', 'u', 'e'],
        Weekday::Wed => seq!['W', 'e', 'd'],
        Weekday::Thu => seq!['T', 'h', 'u'],
        Weekday::Fri => seq!['F', 'r', 'i'],
        Weekday::Sat => seq!['S', 'a', 't'],
        Weekday::Sun => seq!['S', 'u', 'n'],
    }
}

/// The weekday whose full lower-case name a text is, if any.
pub open spec fn weekday_of_name(s: Seq<char>) -> Option<Weekday> {
    if s == day_name(Weekday::Mon) {
        Some(Weekday::Mon)
    } else if s == day_name(Weekday::Tue) {
        Some(Weekday::Tue)
    } else if s == day_name(Weekday::Wed) {
        Some(Weekday::Wed)
    } else if s == day_name(Weekday::Thu) {
        Some(Weekday::Thu)
    } else if s == day_name(Weekday::Fri) {
        Some(Weekday::Fri)
    } else if s == day_name(Weekday::Sat) {
        Some(Weekday::Sat)
    } else if s == day_name(Weekday::Sun) {
        Some(Weekday::Sun)
    } else {
        None
    }
}

impl Weekday {
    /// The number of days since the preceding Monday (Monday is 0).
    pub fn num_days_from_monday(&self) -> (r: u32)
        ensures
            r == day_index(*self),
    {
        match self {
            Weekday::Mon => 0,
            Weekday::Tue => 1,
            Weekday::Wed => 2,
            Weekday::Thu => 3,
            Weekday::Fri => 4,
            Weekday::Sat => 5,
            Weekday::Sun => 6,
        }
    }

    /// The three-letter name shown for a weekday ("Mon" to "Sun").
    pub fn short_name(&self) -> (r: &'static str)
        ensures
            r@ == short_day_name(*self),
    {
        proof {
            reveal_strlit("Mon");
            reveal_strlit("Tue");
            reveal_strlit("Wed");
            reveal_strlit("Thu");
            reveal_strlit("Fri");
            reveal_strlit("Sat");
            reveal_strlit("Sun");
        }
        match self {
            Weekday::Mon => "Mon",
            Weekday::Tue => "Tue",
            Weekday::Wed => "Wed",
            Weekday::Thu => "Thu",
            Weekday::Fri => "Fri",
            Weekday::Sat => "Sat",
            Weekday::Sun => "Sun",
        }
    }
}

/// The days offered when an anime's airing day is chosen: Monday to Sunday,
/// in that order.
pub fn airing_day_choices() -> (r: Vec<Weekday>)
    ensures
        r@ == seq![
            Weekday::Mon,
            Weekday::Tue,
            Weekday::Wed,
            Weekday::Thu,
            Weekday::Fri,
            Weekday::Sat,
            Weekday::Sun,
        ],
{
    let mut r: Vec<Weekday> = Vec::new();
    r.push(Weekday::Mon);
    r.push(Weekday::Tue);
    r.push(Weekday::Wed);
    r.push(Weekday::Thu);
    r.push(Weekday::Fri);
    r.push(Weekday::Sat);
    r.push(Weekday::Sun);
    assert(r@ =~= seq![
        Weekday::Mon,
        Weekday::Tue,
        Weekday::Wed,
        Weekday::Thu,
        Weekday::Fri,
        Weekday::Sat,
        Weekday::Sun,
    ]);
    r
}

/// The tag name of the day a number of days after Monday: "monday" for 0 up to
/// "sunday" for 6, and none for any other number.
pub fn airing_day_name(days_from_monday: u32) -> (r: Option<&'static str>)
    ensures
        r is Some <==> days_from_monday < 7,
        r matches Some(name) ==> name@ == day_name(weekday_at(days_from_monday as int)->0),
{
    proof {
        reveal_strlit("monday");
        reveal_strlit("tuesday");
        reveal_strlit("wednesday");
        reveal_strlit("thursday");
        reveal_strlit("friday");
        reveal_strlit("saturday");
        reveal_strlit("sunday");
    }
    if days_from_monday == 0 {
        Some("monday")
    } else if days_from_monday == 1 {
        Some("tuesday")
    } else if days_from_monday == 2 {
        Some("wednesday")
    } else if days_from_monday == 3 {
        Some("thursday")
    } else if days_from_monday == 4 {
        Some("friday")
    } else if days_from_monday == 5 {
        Some("saturday")
    } else if days_from_monday == 6 {
        Some("sunday")
    } else {
        None
    }
}

/// The tag written on an anime to record that it airs on a weekday: the
/// weekday's full lower-case name (the empty text if the day had no name).
pub fn airing_day_tag(w: Weekday) -> (r: &'static str)
    ensures
        r@ == day_name(w),
{
    match airing_day_name(w.num_days_from_monday()) {
        Some(name) => name,
        None => "",
    }
}

/// The weekday named by a full lower-case day name ("monday" to "sunday").
pub fn weekday_named(name: &str) -> (r: Option<Weekday>)
    ensures
        r == weekday_of_name(name@),
{
    proof {
        reveal_strlit("monday");
        reveal_strlit("tuesday");
        reveal_strlit("wednesday");
        reveal_strlit("thursday");
        reveal_strlit("friday");
        reveal_strlit("saturday");
        reveal_strlit("sunday");
        assert("monday"@ =~= day_name(Weekday::Mon));
        assert("tuesday"@ =~= day_name(Weekday::Tue));
        assert("wednesday"@ =~= day_name(Weekday::Wed));
        assert("thursday"@ =~= day_name(Weekday::Thu));
        assert("friday"@ =~= day_name(Weekday::Fri));
        assert("saturday"@ =~= day_name(Weekday::Sat));
        assert("sunday"@ =~= day_name(Weekday::Sun));
    }
    if crate::text::text_equals(name, "monday") {
        Some(Weekday::Mon)
    } else if crate::text::text_equals(name, "tuesday") {
        Some(Weekday::Tue)
    } else if crate::text::text_equals(name, "wednesday") {
        Some(Weekday::Wed)
    } else if crate::text::text_equals(name, "thursday") {
        Some(Weekday::Thu)
    } else if crate::text::text_equals(name, "friday") {
        Some(Weekday::Fri)
    } else if crate::text::text_equals(name, "saturday") {
        Some(Weekday::Sat)
    } else if crate::text::text_equals(name, "sunday") {
        Some(Weekday::Sun)
    } else {
        None
    }
}

/// What `str::to_lowercase` returns for a text that is not all ASCII.
pub uninterp spec fn lowercased(s: Seq<char>) -> Seq<char>;

/// Whether a character is ASCII.
pub open spec fn is_ascii_char(c: char) -> bool {
    (c as int) < 128
}

/// An ASCII capital letter becomes its small letter (32 code points higher);
/// every other character stays.
pub open spec fn ascii_lower(c: char) -> char {
    if 65 <= (c as int) <= 90 {
        ((c as int) + 32) as char
    } else {
        c
    }
}

/// The lower case of a text, as `str::to_lowercase` gives it: character by
/// character for ASCII text, and by Unicode's rules (named `lowercased`)
/// otherwise.
pub open spec fn lowercase_text(s: Seq<char>) -> Seq<char> {
    if all_ascii(s) {
        Seq::new(s.len(), |i: int| ascii_lower(s[i]))
    } else {
        lowercased(s)
    }
}

/// Whether every character of a text is ASCII.
pub open spec fn all_ascii(s: Seq<char>) -> bool {
    forall|i: int| 0 <= i < s.len() ==> is_ascii_char(#[trigger] s[i])
}

/// `str::to_lowercase`: on ASCII text it changes each capital letter to its
/// small letter and keeps everything else; on other text the result is named
/// by `lowercased`.
#[verifier::external_body]
pub(crate) fn to_lowercase(s: &str) -> (r: String)
    ensures
        all_ascii(s@) ==> r@ == Seq::new(s@.len(), |i: int| ascii_lower(s@[i])),
        !all_ascii(s@) ==> r@ == lowercased(s@),
{
    s.to_lowercase()
}

/// The first of an anime's tags, or the empty text when it has none.
pub open spec fn first_tag(tags: Seq<String>) -> Seq<char> {
    if tags.len() > 0 {
        tags[0]@
    } else {
        Seq::empty()
    }
}

/// The airing day that an anime's tags record: its first tag, lower-cased,
/// when that is the name of a weekday.
pub open spec fn tagged_weekday(tags: Seq<String>) -> Option<Weekday> {
    weekday_of_name(lowercase_text(first_tag(tags)))
}

/// Reads the airing day from an anime's tags: the first tag (or the empty
/// text), lower-cased, looked up among the weekday names.
pub fn weekday_from_tags(tags: &Vec<String>) -> (r: Option<Weekday>)
    ensures
        r == tagged_weekday(tags@),
{
    proof {
        reveal_strlit("");
        assert(""@ =~= Seq::<char>::empty());
    }
    let lowered = if tags.len() > 0 {
        to_lowercase(tags[0].as_str())
    } else {
        to_lowercase("")
    };
    assert(lowered@ == lowercase_text(first_tag(tags@)));
    weekday_named(lowered.as_str())
}

/// A day name, all small ASCII letters, is its own lower case.
proof fn lemma_day_name_lowercased(w: Weekday)
    ensures
        lowercase_text(day_name(w)) == day_name(w),
{
    let s = day_name(w);
    assert forall|i: int| 0 <= i < s.len() implies is_ascii_char(#[trigger] s[i]) by {}
    assert(Seq::new(s.len(), |i: int| ascii_lower(s[i])) =~= s);
}

/// The tag that records an airing day is read back as that day.
pub proof fn lemma_airing_tag_round_trip(w: Weekday, tags: Seq<String>)
    requires
        tags.len() > 0,
        tags[0]@ == day_name(w),
    ensures
        tagged_weekday(tags) == Some(w),
{
    lemma_day_name_lowercased(w);
}

/// The weekday of the current local date.
#[verifier::external_body]
pub(crate) fn local_weekday() -> (r: Weekday) {
    match chrono::Local::now().weekday() {
        chrono::Weekday::Mon => Weekday::Mon,
        chrono::Weekday::Tue => Weekday::Tue,
        chrono::Weekday::Wed => Weekday::Wed,
        chrono::Weekday::Thu => Weekday::Thu,
        chrono::Weekday::Fri => Weekday::Fri,
        chrono::Weekday::Sat => Weekday::Sat,
        chrono::Weekday::Sun => Weekday::Sun,
    }
}

/// Counting days from Monday names every weekday once: the weekday at a
/// day's index is that day, and only indices 0 to 6 name a day.
pub proof fn lemma_day_index_round_trip(w: Weekday, n: int)
    ensures
        weekday_at(day_index(w) as int) == Some(w),
        day_index(w) < 7,
        weekday_at(n) is Some <==> 0 <= n < 7,
{
}

} // verus!
