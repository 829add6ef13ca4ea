//! What each command of the program does.
use crate::mal::MALPromptAction;
use vstd::prelude::*;

verus! {

/// The subcommands of `auth`.
#[derive(Clone, Copy, PartialEq, Eq, Structural, Debug)]
pub enum AuthCommand {
    /// Run the MyAnimeList OAuth2 authorization flow.
    Login,
    /// Set the MyAnimeList client id.
    SetClient,
}

/// The subcommands of `set`.
#[derive(Clone, Copy, PartialEq, Eq, Structural, Debug)]
pub enum SetCommand {
    /// Set the episode count.
    Count,
    /// Set the airing day.
    Day,
}

/// A command of the program.
#[derive(Clone, Copy, PartialEq, Eq, Structural, Debug)]
pub enum Command {
    /// Interact with the authentication configuration.
    Auth(Option<AuthCommand>),
    /// Show the watching list, organized by airing day.
    List,
    /// Set an attribute of an anime.
    SetAttribute(SetCommand),
    /// Open the user's list in the browser.
    Mal,
    /// Open the page of an anime in the browser.
    Page,
}

/// The work a command does.
#[derive(Clone, Copy, PartialEq, Eq, Structural, Debug)]
pub enum Task {
    /// Run the authorization flow.
    Authorize,
    /// Ask for the client id and store it.
    SetClient,
    /// Print the configuration directory.
    ShowConfigFolder,
    /// Print the watching list by airing day.
    ShowWatchingList,
    /// Update an anime of the list.
    Update(MALPromptAction),
    /// Open the user's list in the browser.
    OpenList,
    /// Open an anime's page in the browser.
    OpenPage,
}

/// How a command is carried out.
#[derive(Clone, Copy, PartialEq, Eq, Structural, Debug)]
pub struct Plan {
    /// Whether working tokens are obtained first.
    pub authenticate: bool,
    /// The work.
    pub task: Task,
    /// Whether a successful update is announced at the end.
    pub announce_update: bool,
}

/// The plan of a command line: the `auth` commands work without tokens;
/// every other command first obtains working tokens; without a command, one
/// more episode is counted. The updates are announced.
pub open spec fn plan_of(command: Option<Command>) -> Plan {
    match command {
        Some(Command::Auth(sub)) => Plan {
            authenticate: false,
            task: match sub {
                Some(AuthCommand::Login) => Task::Authorize,
                Some(AuthCommand::SetClient) => Task::SetClient,
                None => Task::ShowConfigFolder,
            },
            announce_update: false,
        },
        Some(Command::List) => Plan {
            authenticate: true,
            task: Task::ShowWatchingList,
            announce_update: false,
        },
        Some(Command::SetAttribute(SetCommand::Count)) => Plan {
            authenticate: true,
            task: Task::Update(MALPromptAction::SetEpisodeCount),
            announce_update: true,
        },
        Some(Command::SetAttribute(SetCommand::Day)) => Plan {
            authenticate: true,
            task: Task::Update(MALPromptAction::SetAiringDay),
            announce_update: true,
        },
        Some(Command::Mal) => Plan { authenticate: true, task: Task::OpenList, announce_update: false },
        Some(Command::Page) => Plan { authenticate: true, task: Task::OpenPage, announce_update: false },
        None => Plan {
            authenticate: true,
            task: Task::Update(MALPromptAction::IncrementEpisode),
            announce_update: true,
        },
    }
}

/// How to carry out a command line (no command counts one more episode).
pub fn plan(command: Option<Command>) -> (p: Plan)
    ensures
        p == plan_of(command),
{
    match command {
        Some(Command::Auth(sub)) => {
            let task = match sub {
                Some(AuthCommand::Login) => Task::Authorize,
                Some(AuthCommand::SetClient) => Task::SetClient,
                None => Task::ShowConfigFolder,
            };
            Plan { authenticate: false, task, announce_update: false }
        },
        Some(Command::List) => Plan {
            authenticate: true,
            task: Task::ShowWatchingList,
            announce_update: false,
        },
        Some(Command::SetAttribute(SetCommand::Count)) => Plan {
            authenticate: true,
            task: Task::Update(MALPromptAction::SetEpisodeCount),
            announce_update: true,
        },
        Some(Command::SetAttribute(SetCommand::Day)) => Plan {
            authenticate: true,
            task: Task::Update(MALPromptAction::SetAiringDay),
            announce_update: true,
        },
        Some(Command::Mal) => Plan { authenticate: true, task: Task::OpenList, announce_update: false },
        Some(Command::Page) => Plan { authenticate: true, task: Task::OpenPage, announce_update: false },
        None => Plan {
            authenticate: true,
            task: Task::Update(MALPromptAction::IncrementEpisode),
            announce_update: true,
        },
    }
}

/// Every command but `auth` obtains working tokens first, and only the
/// updates of an anime are announced.
pub proof fn lemma_plan_authenticates(command: Option<Command>)
    ensures
        plan_of(command).authenticate <==> !(command matches Some(Command::Auth(_))),
        plan_of(command).announce_update <==> plan_of(command).task is Update,
{
}

/// Which update each command makes: `set day` sets the airing day, `set
/// count` sets the episode count, and no command counts one more episode;
/// no other command updates an anime.
pub proof fn lemma_plan_updates(command: Option<Command>, action: MALPromptAction)
    ensures
        plan_of(command).task == Task::Update(action) <==> (match action {
            MALPromptAction::SetAiringDay => command == Some(Command::SetAttribute(SetCommand::Day)),
            MALPromptAction::SetEpisodeCount => command == Some(
                Command::SetAttribute(SetCommand::Count),
            ),
            MALPromptAction::IncrementEpisode => command is None,
        }),
{
}

/// The work of the commands that do not update an anime: `auth login`
/// authorizes, `auth set-client` sets the client, bare `auth` shows the
/// configuration folder, `list` shows the list, `mal` opens the user's list
/// and `page` opens an anime's page.
pub proof fn lemma_plan_other_tasks(command: Option<Command>)
    ensures
        command == Some(Command::Auth(Some(AuthCommand::Login))) ==> plan_of(command).task
            == Task::Authorize,
        command == Some(Command::Auth(Some(AuthCommand::SetClient))) ==> plan_of(command).task
            == Task::SetClient,
        command == Some(Command::Auth(None)) ==> plan_of(command).task == Task::ShowConfigFolder,
        command == Some(Command::List) ==> plan_of(command).task == Task::ShowWatchingList,
        command == Some(Command::Mal) ==> plan_of(command).task == Task::OpenList,
        command == Some(Command::Page) ==> plan_of(command).task == Task::OpenPage,
{
}

} // verus!
