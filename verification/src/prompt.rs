//! The questions asked to update an anime, as a state machine: the program
//! asks what a step requests and hands back the answer as the next event.
use crate::entry::Entry;
use crate::mal::{
    airing_day_form, airing_day_prompt, completion_form, completion_prompt, confirm_prompt,
    episode_count_form, help_message, list_status_url, offers_completion, MALPromptAction,
};
use crate::weekday::Weekday;
use vstd::prelude::*;

verus! {

/// Where the update of an anime stands.
pub enum PromptState {
    /// An anime is to be chosen from the list.
    Selecting,
    /// The user is asked to confirm the update of this anime.
    Confirming(Entry),
    /// The new episode count is to be entered.
    AwaitingCount(Entry),
    /// The user is asked whether the anime, at this count, is completed.
    AwaitingCompletion(Entry, usize),
    /// The score of the completed anime is to be entered.
    AwaitingScore(Entry, usize),
    /// The review of the completed anime is to be entered (count, score).
    AwaitingReview(Entry, usize, usize),
    /// The airing day is to be chosen.
    AwaitingDay(Entry),
    /// The update is being sent.
    Sending,
    /// The update is done.
    Finished,
}

/// What the user or the service answered to the last request.
pub enum PromptEvent {
    Selected(Entry),
    Confirmed(bool),
    CountEntered(usize),
    CompletionAnswered(bool),
    ScoreEntered(usize),
    ReviewEntered(String),
    DayChosen(Weekday),
    Sent,
}

/// What the program is to do next.
pub enum PromptRequest {
    /// Let the user choose an anime from the list.
    SelectEntry,
    /// Ask the user to confirm, with this question and help text.
    Confirm { prompt: String, help: String },
    /// Ask for the new number of watched episodes.
    AskEpisodeCount,
    /// Ask whether to mark the anime completed, with this question.
    AskCompletion { prompt: String },
    /// Ask for a score from 0 to 10.
    AskScore,
    /// Ask for a review.
    AskReview,
    /// Let the user choose an airing day, with this question.
    AskAiringDay { prompt: String },
    /// Send this form to this address.
    Send { url: String, form: Vec<(String, String)> },
    /// Nothing is left to do.
    Done,
}

/// A request, with texts in place of strings.
pub enum RequestView {
    SelectEntry,
    Confirm { prompt: Seq<char>, help: Seq<char> },
    AskEpisodeCount,
    AskCompletion { prompt: Seq<char> },
    AskScore,
    AskReview,
    AskAiringDay { prompt: Seq<char> },
    Send { url: Seq<char>, form: Seq<(Seq<char>, Seq<char>)> },
    Done,
}

impl View for PromptRequest {
    type V = RequestView;

    open spec fn view(&self) -> RequestView {
        match self {
            PromptRequest::SelectEntry => RequestView::SelectEntry,
            PromptRequest::Confirm { prompt, help } => RequestView::Confirm {
                prompt: prompt@,
                help: help@,
            },
            PromptRequest::AskEpisodeCount => RequestView::AskEpisodeCount,
            PromptRequest::AskCompletion { prompt } => RequestView::AskCompletion {
                prompt: prompt@,
            },
            PromptRequest::AskScore => RequestView::AskScore,
            PromptRequest::AskReview => RequestView::AskReview,
            PromptRequest::AskAiringDay { prompt } => RequestView::AskAiringDay {
                prompt: prompt@,
            },
            PromptRequest::Send { url, form } => RequestView::Send {
                url: url@,
                form: crate::mal::form_fields(form@),
            },
            PromptRequest::Done => RequestView::Done,
        }
    }
}

/// The update of one anime of the list.
pub struct MalPrompt {
    pub action: MALPromptAction,
    pub state: PromptState,
}

/// Once the new episode count is known: ask whether the anime is completed
/// when the count reaches its known total, else send the count.
pub open spec fn after_count(e: Entry, count: usize) -> (PromptState, RequestView) {
    if count == e.total_episodes && e.total_episodes != 0 {
        (
            PromptState::AwaitingCompletion(e, count),
            RequestView::AskCompletion { prompt: crate::mal::completion_text(e) },
        )
    } else {
        (
            PromptState::Sending,
            RequestView::Send {
                url: crate::mal::list_status_address(e.id),
                form: crate::mal::count_fields(count),
            },
        )
    }
}

/// Whether an event answers what a state waits for (and, when one more
/// episode is to be counted, the count has room for it).
pub open spec fn event_fits(action: MALPromptAction, state: PromptState, event: PromptEvent) -> bool {
    match (state, event) {
        (PromptState::Selecting, PromptEvent::Selected(e)) => crate::mal::fits_action(action, e),
        (PromptState::Confirming(e), PromptEvent::Confirmed(_)) => crate::mal::fits_action(action, e),
        (PromptState::AwaitingCount(_), PromptEvent::CountEntered(_)) => true,
        (PromptState::AwaitingCompletion(_, _), PromptEvent::CompletionAnswered(_)) => true,
        (PromptState::AwaitingScore(_, _), PromptEvent::ScoreEntered(_)) => true,
        (PromptState::AwaitingReview(_, _, _), PromptEvent::ReviewEntered(_)) => true,
        (PromptState::AwaitingDay(_), PromptEvent::DayChosen(_)) => true,
        (PromptState::Sending, PromptEvent::Sent) => true,
        _ => false,
    }
}

/// The next state and request after an event that fits the state.
pub open spec fn next_step(action: MALPromptAction, state: PromptState, event: PromptEvent) -> (
    PromptState,
    RequestView,
) {
    match (state, event) {
        (PromptState::Selecting, PromptEvent::Selected(e)) => (
            PromptState::Confirming(e),
            RequestView::Confirm {
                prompt: crate::mal::confirm_text(e),
                help: crate::mal::help_text(action, e),
            },
        ),
        (PromptState::Confirming(e), PromptEvent::Confirmed(yes)) => if !yes {
            (PromptState::Selecting, RequestView::SelectEntry)
        } else {
            match action {
                MALPromptAction::SetEpisodeCount => (
                    PromptState::AwaitingCount(e),
                    RequestView::AskEpisodeCount,
                ),
                MALPromptAction::IncrementEpisode => after_count(
                    e,
                    (e.watched_episodes + 1) as usize,
                ),
                MALPromptAction::SetAiringDay => (
                    PromptState::AwaitingDay(e),
                    RequestView::AskAiringDay { prompt: crate::mal::airing_day_text(e) },
                ),
            }
        },
        (PromptState::AwaitingCount(e), PromptEvent::CountEntered(n)) => after_count(e, n),
        (PromptState::AwaitingCompletion(e, n), PromptEvent::CompletionAnswered(yes)) => if yes {
            (PromptState::AwaitingScore(e, n), RequestView::AskScore)
        } else {
            (
                PromptState::Sending,
                RequestView::Send {
                    url: crate::mal::list_status_address(e.id),
                    form: crate::mal::count_fields(n),
                },
            )
        },
        (PromptState::AwaitingScore(e, n), PromptEvent::ScoreEntered(s)) => (
            PromptState::AwaitingReview(e, n, s),
            RequestView::AskReview,
        ),
        (PromptState::AwaitingReview(e, n, s), PromptEvent::ReviewEntered(r)) => (
            PromptState::Sending,
            RequestView::Send {
                url: crate::mal::list_status_address(e.id),
                form: crate::mal::completion_fields(n, s, r@),
            },
        ),
        (PromptState::AwaitingDay(e), PromptEvent::DayChosen(w)) => (
            PromptState::Sending,
            RequestView::Send {
                url: crate::mal::list_status_address(e.id),
                form: crate::mal::airing_day_fields(w),
            },
        ),
        (_, _) => (PromptState::Finished, RequestView::Done),
    }
}

/// The anime a state is about, if any.
pub open spec fn held_entry(s: PromptState) -> Option<Entry> {
    match s {
        PromptState::Confirming(e) => Some(e),
        PromptState::AwaitingCount(e) => Some(e),
        PromptState::AwaitingCompletion(e, _) => Some(e),
        PromptState::AwaitingScore(e, _) => Some(e),
        PromptState::AwaitingReview(e, _, _) => Some(e),
        PromptState::AwaitingDay(e) => Some(e),
        _ => None,
    }
}

/// An update changes only the anime the user chose: the chosen anime is
/// carried unchanged from question to question, and every form is sent to
/// that anime's own entry on the user's list.
pub proof fn lemma_update_goes_to_chosen_anime(
    action: MALPromptAction,
    state: PromptState,
    event: PromptEvent,
)
    requires
        event_fits(action, state, event),
    ensures
        ({
            let (next, request) = next_step(action, state, event);
            &&& request is Send ==> held_entry(state) is Some && request->Send_url
                == "https://api.myanimelist.net/v2/anime/"@ + crate::text::decimal(
                held_entry(state)->0.id as nat,
            ) + "/my_list_status"@
            &&& held_entry(state) is Some && held_entry(next) is Some ==> held_entry(next)
                == held_entry(state)
            &&& event is Selected ==> held_entry(next) == Some(event->Selected_0)
        }),
{
}

impl MalPrompt {
    /// Starts an update: an anime is to be chosen first.
    pub fn new(action: MALPromptAction) -> (r: (MalPrompt, PromptRequest))
        ensures
            r.0.action == action,
            r.0.state == PromptState::Selecting,
            r.1@ == RequestView::SelectEntry,
    {
        (MalPrompt { action, state: PromptState::Selecting }, PromptRequest::SelectEntry)
    }

    /// Whether an event answers what the update waits for now.
    pub fn accepts(&self, event: &PromptEvent) -> (r: bool)
        ensures
            r == event_fits(self.action, self.state, *event),
    {
        match (&self.state, event) {
            (PromptState::Selecting, PromptEvent::Selected(e)) => self.action
                != MALPromptAction::IncrementEpisode || e.watched_episodes < usize::MAX,
            (PromptState::Confirming(e), PromptEvent::Confirmed(_)) => self.action
                != MALPromptAction::IncrementEpisode || e.watched_episodes < usize::MAX,
            (PromptState::AwaitingCount(_), PromptEvent::CountEntered(_)) => true,
            (PromptState::AwaitingCompletion(_, _), PromptEvent::CompletionAnswered(_)) => true,
            (PromptState::AwaitingScore(_, _), PromptEvent::ScoreEntered(_)) => true,
            (PromptState::AwaitingReview(_, _, _), PromptEvent::ReviewEntered(_)) => true,
            (PromptState::AwaitingDay(_), PromptEvent::DayChosen(_)) => true,
            (PromptState::Sending, PromptEvent::Sent) => true,
            _ => false,
        }
    }

    /// Takes the answer to the last request and says what to do next: after
    /// an anime is chosen, confirm with its help text; a refusal goes back to
    /// choosing; a confirmation asks for the count, counts one more episode,
    /// or asks for the airing day; a count that reaches the known total asks
    /// whether the anime is completed, and a yes asks for a score and a
    /// review; then the form is sent to the anime's list entry; once sent,
    /// the update is done.
    pub fn step(self, event: PromptEvent) -> (r: (MalPrompt, PromptRequest))
        requires
            event_fits(self.action, self.state, event),
        ensures
            r.0.action == self.action,
            (r.0.state, r.1@) == next_step(self.action, self.state, event),
    {
        let action = self.action;
        match (self.state, event) {
            (PromptState::Selecting, PromptEvent::Selected(e)) => {
                let prompt = confirm_prompt(&e);
                let help = help_message(action, &e);
                (
                    MalPrompt { action, state: PromptState::Confirming(e) },
                    PromptRequest::Confirm { prompt, help },
                )
            },
            (PromptState::Confirming(e), PromptEvent::Confirmed(yes)) => {
                if !yes {
                    (MalPrompt { action, state: PromptState::Selecting }, PromptRequest::SelectEntry)
                } else {
                    match action {
                        MALPromptAction::SetEpisodeCount => (
                            MalPrompt { action, state: PromptState::AwaitingCount(e) },
                            PromptRequest::AskEpisodeCount,
                        ),
                        MALPromptAction::IncrementEpisode => {
                            let count = e.watched_episodes + 1;
                            Self::count_known(action, e, count)
                        },
                        MALPromptAction::SetAiringDay => {
                            let prompt = airing_day_prompt(&e);
                            (
                                MalPrompt { action, state: PromptState::AwaitingDay(e) },
                                PromptRequest::AskAiringDay { prompt },
                            )
                        },
                    }
                }
            },
            (PromptState::AwaitingCount(e), PromptEvent::CountEntered(n)) => {
                Self::count_known(action, e, n)
            },
            (PromptState::AwaitingCompletion(e, n), PromptEvent::CompletionAnswered(yes)) => {
                if yes {
                    (
                        MalPrompt { action, state: PromptState::AwaitingScore(e, n) },
                        PromptRequest::AskScore,
                    )
                } else {
                    let url = list_status_url(e.id);
                    let form = episode_count_form(n);
                    (MalPrompt { action, state: PromptState::Sending }, PromptRequest::Send { url, form })
                }
            },
            (PromptState::AwaitingScore(e, n), PromptEvent::ScoreEntered(s)) => (
                MalPrompt { action, state: PromptState::AwaitingReview(e, n, s) },
                PromptRequest::AskReview,
            ),
            (PromptState::AwaitingReview(e, n, s), PromptEvent::ReviewEntered(review)) => {
                let url = list_status_url(e.id);
                let form = completion_form(n, s, review);
                (MalPrompt { action, state: PromptState::Sending }, PromptRequest::Send { url, form })
            },
            (PromptState::AwaitingDay(e), PromptEvent::DayChosen(w)) => {
                let url = list_status_url(e.id);
                let form = airing_day_form(w);
                (MalPrompt { action, state: PromptState::Sending }, PromptRequest::Send { url, form })
            },
            (_, _) => (MalPrompt { action, state: PromptState::Finished }, PromptRequest::Done),
        }
    }

    /// The step once the new episode count is known.
    fn count_known(action: MALPromptAction, e: Entry, count: usize) -> (r: (MalPrompt, PromptRequest))
        ensures
            r.0.action == action,
            (r.0.state, r.1@) == after_count(e, count),
    {
        if offers_completion(count, e.total_episodes) {
            let prompt = completion_prompt(&e);
            (
                MalPrompt { action, state: PromptState::AwaitingCompletion(e, count) },
                PromptRequest::AskCompletion { prompt },
            )
        } else {
            let url = list_status_url(e.id);
            let form = episode_count_form(count);
            (MalPrompt { action, state: PromptState::Sending }, PromptRequest::Send { url, form })
        }
    }
}

} // verus!
