//! Updating an anime on the user's MyAnimeList: the texts shown, the forms
//! sent, and the order of the questions asked.
use crate::entry::Entry;
use crate::text::{decimal_text, parse_usize};
use crate::weekday::{airing_day_tag, Weekday};
use vstd::prelude::*;

verus! {

/// The list of anime that the user is watching, with the fields the program reads.
pub const WATCHING_LIST_URL: &'static str =
    "https://api.myanimelist.net/v2/users/@me/animelist?status=watching&fields=my_list_status,num_episodes,my_list_status{tags}";

/// The user's own account.
pub const USER_INFO_URL: &'static str = "https://api.myanimelist.net/v2/users/@me";

/// What a prompt changes on the chosen anime.
#[derive(Clone, Copy, PartialEq, Eq, Structural, Debug)]
pub enum MALPromptAction {
    /// Set the number of watched episodes to a number the user enters.
    SetEpisodeCount,
    /// Record the day the anime airs on.
    SetAiringDay,
    /// Count one more watched episode.
    IncrementEpisode,
}

/// A text between double quotes.
pub open spec fn quoted(t: Seq<char>) -> Seq<char> {
    seq!['"'] + t + seq!['"']
}

/// The question that confirms the update of an anime.
pub open spec fn confirm_text(e: Entry) -> Seq<char> {
    "Update "@ + quoted(e.title@)
}

/// The help shown under the confirmation: for a change of the episode count,
/// the count now, an arrow, the new count ("N" while it is not entered yet)
/// and the total ("?" when it is not known); for the airing day, a fixed text.
pub open spec fn help_text(action: MALPromptAction, e: Entry) -> Seq<char> {
    match action {
        MALPromptAction::SetAiringDay => "Change airing day"@,
        _ => crate::text::decimal(e.watched_episodes as nat) + " -> "@ + (if action
            == MALPromptAction::SetEpisodeCount {
            seq!['N']
        } else {
            crate::text::decimal((e.watched_episodes + 1) as nat)
        }) + seq!['/'] + (if e.total_episodes == 0 {
            seq!['?']
        } else {
            crate::text::decimal(e.total_episodes as nat)
        }) + " episodes"@,
    }
}

/// The question whether to mark an anime completed.
pub open spec fn completion_text(e: Entry) -> Seq<char> {
    "Set "@ + quoted(e.title@) + " as completed?"@
}

/// The question that asks for an anime's airing day.
pub open spec fn airing_day_text(e: Entry) -> Seq<char> {
    "Select an airing day to set for "@ + quoted(e.title@)
}

/// Whether the update of an action can be computed without overflow for an
/// entry: counting one more episode needs room above the watched count.
pub open spec fn fits_action(action: MALPromptAction, e: Entry) -> bool {
    action == MALPromptAction::IncrementEpisode ==> e.watched_episodes < usize::MAX
}

/// Writes "before" "\"" title "\"" "after".
fn quote_title(before: &str, title: &str, after: &str) -> (r: String)
    ensures
        r@ == before@ + quoted(title@) + after@,
{
    let mut r = String::from_str(before);
    r.append("\"");
    r.append(title);
    r.append("\"");
    r.append(after);
    proof {
        reveal_strlit("\"");
        assert(r@ =~= before@ + quoted(title@) + after@);
    }
    r
}

/// The question that confirms the update of an anime: `Update "<title>"`.
pub fn confirm_prompt(e: &Entry) -> (r: String)
    ensures
        r@ == confirm_text(*e),
{
    proof {
        reveal_strlit("");
    }
    let r = quote_title("Update ", e.title.as_str(), "");
    assert(r@ =~= confirm_text(*e));
    r
}

/// The question whether to mark an anime completed:
/// `Set "<title>" as completed?`.
pub fn completion_prompt(e: &Entry) -> (r: String)
    ensures
        r@ == completion_text(*e),
{
    quote_title("Set ", e.title.as_str(), " as completed?")
}

/// The question that asks for an anime's airing day:
/// `Select an airing day to set for "<title>"`.
pub fn airing_day_prompt(e: &Entry) -> (r: String)
    ensures
        r@ == airing_day_text(*e),
{
    proof {
        reveal_strlit("");
    }
    let r = quote_title("Select an airing day to set for ", e.title.as_str(), "");
    assert(r@ =~= airing_day_text(*e));
    r
}

/// The help text shown when the user confirms an update, such as
/// `3 -> 4/12 episodes`, `3 -> N/? episodes` or `Change airing day`.
pub fn help_message(action: MALPromptAction, e: &Entry) -> (r: String)
    requires
        fits_action(action, *e),
    ensures
        r@ == help_text(action, *e),
{
    match action {
        MALPromptAction::SetAiringDay => String::from_str("Change airing day"),
        _ => {
            let mut r = decimal_text(e.watched_episodes);
            r.append(" -> ");
            if action == MALPromptAction::SetEpisodeCount {
                r.append("N");
            } else {
                r.append(decimal_text(e.watched_episodes + 1).as_str());
            }
            r.append("/");
            if e.total_episodes == 0 {
                r.append("?");
            } else {
                r.append(decimal_text(e.total_episodes).as_str());
            }
            r.append(" episodes");
            proof {
                reveal_strlit("N");
                reveal_strlit("/");
                reveal_strlit("?");
                assert(r@ =~= help_text(action, *e));
            }
            r
        },
    }
}

/// The address of an anime's entry on the user's list.
pub open spec fn list_status_address(id: usize) -> Seq<char> {
    "https://api.myanimelist.net/v2/anime/"@ + crate::text::decimal(id as nat) + "/my_list_status"@
}

/// The address of an anime's entry on the user's list, where updates are sent.
pub fn list_status_url(id: usize) -> (r: String)
    ensures
        r@ == list_status_address(id),
{
    let mut r = String::from_str("https://api.myanimelist.net/v2/anime/");
    r.append(decimal_text(id).as_str());
    r.append("/my_list_status");
    r
}

/// The address of an anime's page on MyAnimeList.
pub fn anime_page_url(id: usize) -> (r: String)
    ensures
        r@ == "https://myanimelist.net/anime/"@ + crate::text::decimal(id as nat),
{
    let mut r = String::from_str("https://myanimelist.net/anime/");
    r.append(decimal_text(id).as_str());
    r
}

/// The address of a user's anime list, showing what they are watching.
pub fn user_list_url(user_name: &str) -> (r: String)
    ensures
        r@ == "https://myanimelist.net/animelist/"@ + user_name@ + "?status=1"@,
{
    let mut r = String::from_str("https://myanimelist.net/animelist/");
    r.append(user_name);
    r.append("?status=1");
    r
}

/// The fields of a form, as texts.
pub open spec fn form_fields(f: Seq<(String, String)>) -> Seq<(Seq<char>, Seq<char>)> {
    f.map_values(|p: (String, String)| (p.0@, p.1@))
}

/// The form that sets the number of watched episodes.
pub open spec fn count_fields(count: usize) -> Seq<(Seq<char>, Seq<char>)> {
    seq![("num_watched_episodes"@, crate::text::decimal(count as nat))]
}

/// The form that sets the number of watched episodes and marks the anime
/// completed with a score and a review (kept in the tags).
pub open spec fn completion_fields(count: usize, score: usize, review: Seq<char>) -> Seq<
    (Seq<char>, Seq<char>),
> {
    seq![
        ("num_watched_episodes"@, crate::text::decimal(count as nat)),
        ("status"@, "completed"@),
        ("score"@, crate::text::decimal(score as nat)),
        ("tags"@, review),
    ]
}

/// The form that records an airing day in the tags.
pub open spec fn airing_day_fields(w: Weekday) -> Seq<(Seq<char>, Seq<char>)> {
    seq![("tags"@, crate::weekday::day_name(w))]
}

/// The form that sets the number of watched episodes.
pub fn episode_count_form(count: usize) -> (r: Vec<(String, String)>)
    ensures
        form_fields(r@) == count_fields(count),
{
    let mut r: Vec<(String, String)> = Vec::new();
    r.push((String::from_str("num_watched_episodes"), decimal_text(count)));
    assert(form_fields(r@) =~= count_fields(count));
    r
}

/// The form that sets the number of watched episodes, marks the anime
/// completed, gives it a score and keeps the review in its tags.
pub fn completion_form(count: usize, score: usize, review: String) -> (r: Vec<(String, String)>)
    ensures
        form_fields(r@) == completion_fields(count, score, review@),
{
    let mut r: Vec<(String, String)> = Vec::new();
    r.push((String::from_str("num_watched_episodes"), decimal_text(count)));
    r.push((String::from_str("status"), String::from_str("completed")));
    r.push((String::from_str("score"), decimal_text(score)));
    r.push((String::from_str("tags"), review));
    assert(form_fields(r@) =~= completion_fields(count, score, review@));
    r
}

/// The form that records an airing day: the day's name as the tags.
pub fn airing_day_form(w: Weekday) -> (r: Vec<(String, String)>)
    ensures
        form_fields(r@) == airing_day_fields(w),
{
    let mut r: Vec<(String, String)> = Vec::new();
    r.push((String::from_str("tags"), String::from_str(airing_day_tag(w))));
    assert(form_fields(r@) =~= airing_day_fields(w));
    r
}

/// Whether setting the watched count to `count` finishes the anime, so that
/// the user is asked whether to mark it completed: the count reaches a known
/// total.
pub fn offers_completion(count: usize, total_episodes: usize) -> (r: bool)
    ensures
        r == (count == total_episodes && total_episodes != 0),
{
    count == total_episodes && total_episodes != 0
}

/// Reads an episode count as the user types it: a `usize` in decimal.
pub fn parse_episode_count(input: &str) -> (r: Option<usize>)
    ensures
        r == crate::text::parsed_usize(input@),
{
    parse_usize(input)
}

/// Reads a score as the user types it: a `usize` in decimal from 0 to 10.
pub fn parse_score(input: &str) -> (r: Option<usize>)
    ensures
        r == (match crate::text::parsed_usize(input@) {
            Some(n) => if n <= 10 {
                Some(n)
            } else {
                None
            },
            None => None,
        }),
{
    match parse_usize(input) {
        Some(n) => if n <= 10 {
            Some(n)
        } else {
            None
        },
        None => None,
    }
}

/// The help of a change of the episode count: the watched count, " -> ",
/// the new count ("N" while it is to be entered, one more when counting an
/// episode), then "/? episodes" when the total is unknown (zero) and
/// "/<total> episodes" when it is known, for either action.
pub proof fn lemma_help_text_parts(action: MALPromptAction, e: Entry)
    requires
        action != MALPromptAction::SetAiringDay,
    ensures
        ({
            let w = crate::text::decimal(e.watched_episodes as nat);
            let next = match action {
                MALPromptAction::SetEpisodeCount => "N"@,
                _ => crate::text::decimal(e.watched_episodes as nat + 1),
            };
            &&& e.total_episodes == 0 ==> help_text(action, e) == w + " -> "@ + next
                + "/? episodes"@
            &&& e.total_episodes > 0 ==> help_text(action, e) == w + " -> "@ + next + "/"@
                + crate::text::decimal(e.total_episodes as nat) + " episodes"@
        }),
{
    reveal_strlit("N");
    reveal_strlit("/");
    reveal_strlit("/? episodes");
    reveal_strlit(" episodes");
    let w = crate::text::decimal(e.watched_episodes as nat);
    let next = match action {
        MALPromptAction::SetEpisodeCount => "N"@,
        _ => crate::text::decimal(e.watched_episodes as nat + 1),
    };
    if e.total_episodes == 0 {
        assert(help_text(action, e) =~= w + " -> "@ + next + "/? episodes"@);
    } else {
        assert(help_text(action, e) =~= w + " -> "@ + next + "/"@ + crate::text::decimal(
            e.total_episodes as nat,
        ) + " episodes"@);
    }
}

/// Both count actions show the total alike: the help of setting the count and
/// of counting one more episode end with the same text after the new count,
/// "/? episodes" when the total is unknown and "/<total> episodes" otherwise.
pub proof fn lemma_help_total_shared(e: Entry)
    ensures
        ({
            let w = crate::text::decimal(e.watched_episodes as nat);
            let tail = if e.total_episodes > 0 {
                "/"@ + crate::text::decimal(e.total_episodes as nat) + " episodes"@
            } else {
                "/? episodes"@
            };
            &&& help_text(MALPromptAction::SetEpisodeCount, e) == w + " -> N"@ + tail
            &&& help_text(MALPromptAction::IncrementEpisode, e) == w + " -> "@
                + crate::text::decimal(e.watched_episodes as nat + 1) + tail
        }),
{
    reveal_strlit(" -> N");
    reveal_strlit(" -> ");
    reveal_strlit("N");
    lemma_help_text_parts(MALPromptAction::SetEpisodeCount, e);
    lemma_help_text_parts(MALPromptAction::IncrementEpisode, e);
    let w = crate::text::decimal(e.watched_episodes as nat);
    let tail = if e.total_episodes > 0 {
        "/"@ + crate::text::decimal(e.total_episodes as nat) + " episodes"@
    } else {
        "/? episodes"@
    };
    assert(w + " -> "@ + "N"@ + tail =~= w + " -> N"@ + tail);
    if e.total_episodes > 0 {
        assert(w + " -> "@ + "N"@ + "/"@ + crate::text::decimal(e.total_episodes as nat)
            + " episodes"@ =~= w + " -> "@ + "N"@ + tail);
        assert(w + " -> "@ + crate::text::decimal(e.watched_episodes as nat + 1) + "/"@
            + crate::text::decimal(e.total_episodes as nat) + " episodes"@ =~= w + " -> "@
            + crate::text::decimal(e.watched_episodes as nat + 1) + tail);
    }
}

} // verus!
