use koushin::entry::Entry;
use koushin::mal::{
    airing_day_form, airing_day_prompt, anime_page_url, completion_form, completion_prompt,
    confirm_prompt, episode_count_form, help_message, list_status_url, offers_completion,
    parse_episode_count, parse_score, user_list_url, MALPromptAction, USER_INFO_URL,
    WATCHING_LIST_URL,
};
use koushin::prompt::{MalPrompt, PromptEvent, PromptRequest, PromptState};
use koushin::weekday::Weekday;

fn entry(title: &str, id: usize, watched: usize, total: usize) -> Entry {
    Entry { title: title.to_string(), id, watched_episodes: watched, total_episodes: total, weekday: None }
}

fn pairs(form: &[(String, String)]) -> Vec<(&str, &str)> {
    form.iter().map(|(k, v)| (k.as_str(), v.as_str())).collect()
}

#[test]
fn prompt_texts() {
    let e = entry("Frieren", 52991, 3, 28);
    assert_eq!(confirm_prompt(&e), "Update \"Frieren\"");
    assert_eq!(completion_prompt(&e), "Set \"Frieren\" as completed?");
    assert_eq!(airing_day_prompt(&e), "Select an airing day to set for \"Frieren\"");
}

#[test]
fn help_messages() {
    let e = entry("Frieren", 52991, 3, 28);
    assert_eq!(help_message(MALPromptAction::IncrementEpisode, &e), "3 -> 4/28 episodes");
    assert_eq!(help_message(MALPromptAction::SetEpisodeCount, &e), "3 -> N/28 episodes");
    assert_eq!(help_message(MALPromptAction::SetAiringDay, &e), "Change airing day");
    let unknown = entry("Long", 1, 100, 0);
    assert_eq!(help_message(MALPromptAction::IncrementEpisode, &unknown), "100 -> 101/? episodes");
}

#[test]
fn addresses() {
    assert_eq!(list_status_url(52991), "https://api.myanimelist.net/v2/anime/52991/my_list_status");
    assert_eq!(anime_page_url(1), "https://myanimelist.net/anime/1");
    assert_eq!(user_list_url("someone"), "https://myanimelist.net/animelist/someone?status=1");
    assert_eq!(USER_INFO_URL, "https://api.myanimelist.net/v2/users/@me");
    assert!(WATCHING_LIST_URL.starts_with("https://api.myanimelist.net/v2/users/@me/animelist?status=watching"));
}

#[test]
fn forms() {
    assert_eq!(pairs(&episode_count_form(12)), vec![("num_watched_episodes", "12")]);
    assert_eq!(
        pairs(&completion_form(12, 9, "great".to_string())),
        vec![("num_watched_episodes", "12"), ("status", "completed"), ("score", "9"), ("tags", "great")]
    );
    assert_eq!(pairs(&airing_day_form(Weekday::Sat)), vec![("tags", "saturday")]);
}

#[test]
fn completion_offered() {
    assert!(offers_completion(12, 12));
    assert!(!offers_completion(11, 12));
    assert!(!offers_completion(0, 0));
    assert!(!offers_completion(13, 12));
}

#[test]
fn scores_and_counts() {
    assert_eq!(parse_score("0"), Some(0));
    assert_eq!(parse_score("10"), Some(10));
    assert_eq!(parse_score("+7"), Some(7));
    assert_eq!(parse_score("11"), None);
    assert_eq!(parse_score("-1"), None);
    assert_eq!(parse_score("seven"), None);
    assert_eq!(parse_score(" 7"), None);
    assert_eq!(parse_score("99999999999999999999999"), None);
    assert_eq!(parse_episode_count("24"), Some(24));
    assert_eq!(parse_episode_count("2x"), None);
}

#[test]
fn increment_without_completion() {
    let (p, r) = MalPrompt::new(MALPromptAction::IncrementEpisode);
    assert!(matches!(r, PromptRequest::SelectEntry));
    let (p, r) = p.step(PromptEvent::Selected(entry("Frieren", 52991, 3, 28)));
    match r {
        PromptRequest::Confirm { prompt, help } => {
            assert_eq!(prompt, "Update \"Frieren\"");
            assert_eq!(help, "3 -> 4/28 episodes");
        }
        _ => panic!("expected a confirmation"),
    }
    let (p, r) = p.step(PromptEvent::Confirmed(true));
    match r {
        PromptRequest::Send { url, form } => {
            assert_eq!(url, "https://api.myanimelist.net/v2/anime/52991/my_list_status");
            assert_eq!(pairs(&form), vec![("num_watched_episodes", "4")]);
        }
        _ => panic!("expected a form to send"),
    }
    let (p, r) = p.step(PromptEvent::Sent);
    assert!(matches!(r, PromptRequest::Done));
    assert!(matches!(p.state, PromptState::Finished));
}

#[test]
fn declining_goes_back_to_selection() {
    let (p, _) = MalPrompt::new(MALPromptAction::SetAiringDay);
    let (p, _) = p.step(PromptEvent::Selected(entry("A", 1, 0, 0)));
    let (p, r) = p.step(PromptEvent::Confirmed(false));
    assert!(matches!(r, PromptRequest::SelectEntry));
    assert!(matches!(p.state, PromptState::Selecting));
    let (p, _) = p.step(PromptEvent::Selected(entry("B", 2, 0, 0)));
    let (p, r) = p.step(PromptEvent::Confirmed(true));
    match r {
        PromptRequest::AskAiringDay { prompt } => {
            assert_eq!(prompt, "Select an airing day to set for \"B\"")
        }
        _ => panic!("expected the airing day question"),
    }
    let (_, r) = p.step(PromptEvent::DayChosen(Weekday::Tue));
    match r {
        PromptRequest::Send { url, form } => {
            assert_eq!(url, "https://api.myanimelist.net/v2/anime/2/my_list_status");
            assert_eq!(pairs(&form), vec![("tags", "tuesday")]);
        }
        _ => panic!("expected a form to send"),
    }
}

#[test]
fn set_count_to_total_and_complete() {
    let (p, _) = MalPrompt::new(MALPromptAction::SetEpisodeCount);
    let (p, _) = p.step(PromptEvent::Selected(entry("Frieren", 7, 3, 28)));
    let (p, r) = p.step(PromptEvent::Confirmed(true));
    assert!(matches!(r, PromptRequest::AskEpisodeCount));
    let (p, r) = p.step(PromptEvent::CountEntered(28));
    match r {
        PromptRequest::AskCompletion { prompt } => assert_eq!(prompt, "Set \"Frieren\" as completed?"),
        _ => panic!("expected the completion question"),
    }
    let (p, r) = p.step(PromptEvent::CompletionAnswered(true));
    assert!(matches!(r, PromptRequest::AskScore));
    let (p, r) = p.step(PromptEvent::ScoreEntered(10));
    assert!(matches!(r, PromptRequest::AskReview));
    let (p, r) = p.step(PromptEvent::ReviewEntered("masterpiece".to_string()));
    assert!(matches!(p.state, PromptState::Sending));
    match r {
        PromptRequest::Send { form, .. } => assert_eq!(
            pairs(&form),
            vec![("num_watched_episodes", "28"), ("status", "completed"), ("score", "10"), ("tags", "masterpiece")]
        ),
        _ => panic!("expected a form to send"),
    }
}

#[test]
fn completion_declined_sends_count_only() {
    let (p, _) = MalPrompt::new(MALPromptAction::IncrementEpisode);
    let (p, _) = p.step(PromptEvent::Selected(entry("Last", 5, 11, 12)));
    let (p, r) = p.step(PromptEvent::Confirmed(true));
    assert!(matches!(r, PromptRequest::AskCompletion { .. }));
    let (_, r) = p.step(PromptEvent::CompletionAnswered(false));
    match r {
        PromptRequest::Send { form, .. } => assert_eq!(pairs(&form), vec![("num_watched_episodes", "12")]),
        _ => panic!("expected a form to send"),
    }
}

#[test]
fn events_that_do_not_fit() {
    let (p, _) = MalPrompt::new(MALPromptAction::IncrementEpisode);
    assert!(!p.accepts(&PromptEvent::Sent));
    assert!(!p.accepts(&PromptEvent::Selected(entry("Max", 1, usize::MAX, 0))));
    assert!(p.accepts(&PromptEvent::Selected(entry("Ok", 1, 3, 0))));
    let (p, _) = MalPrompt::new(MALPromptAction::SetEpisodeCount);
    assert!(p.accepts(&PromptEvent::Selected(entry("Max", 1, usize::MAX, 0))));
}
