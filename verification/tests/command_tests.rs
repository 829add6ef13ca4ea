use koushin::cli::{plan, AuthCommand, Command, Plan, SetCommand, Task};
use koushin::config::{check_client_config, set_client_config, ClientConfigAction};
use koushin::error::{error_report, failure_report, refreshed_notice, updated_notice, KoushinError};
use koushin::mal::MALPromptAction;
use koushin::xdg::{config_folder_path, config_path, xdg_dirs, AUTH_FILE, CONFIG_FILE, PKG_NAME};

#[test]
fn plans_of_commands() {
    assert_eq!(
        plan(None),
        Plan { authenticate: true, task: Task::Update(MALPromptAction::IncrementEpisode), announce_update: true }
    );
    assert_eq!(
        plan(Some(Command::Auth(Some(AuthCommand::Login)))),
        Plan { authenticate: false, task: Task::Authorize, announce_update: false }
    );
    assert_eq!(plan(Some(Command::Auth(Some(AuthCommand::SetClient)))).task, Task::SetClient);
    assert_eq!(plan(Some(Command::Auth(None))).task, Task::ShowConfigFolder);
    assert_eq!(
        plan(Some(Command::List)),
        Plan { authenticate: true, task: Task::ShowWatchingList, announce_update: false }
    );
    assert_eq!(
        plan(Some(Command::SetAttribute(SetCommand::Count))).task,
        Task::Update(MALPromptAction::SetEpisodeCount)
    );
    assert!(plan(Some(Command::SetAttribute(SetCommand::Day))).announce_update);
    assert_eq!(plan(Some(Command::Mal)).task, Task::OpenList);
    assert_eq!(plan(Some(Command::Page)).task, Task::OpenPage);
    assert!(!plan(Some(Command::Page)).announce_update);
}

#[test]
fn client_config_questions() {
    assert!(!check_client_config(ClientConfigAction::Get, true));
    assert!(check_client_config(ClientConfigAction::Get, false));
    assert!(check_client_config(ClientConfigAction::Overwrite, true));
    assert!(check_client_config(ClientConfigAction::Overwrite, false));
    assert_eq!(set_client_config("abc".to_string()).client_id, "abc");
}

#[test]
fn report_lines() {
    assert_eq!(error_report("boom"), "\x1b[31mError:\x1b[39m boom");
    assert_eq!(failure_report("boom"), "\x1b[31mError:\x1b[0m boom");
    assert_eq!(updated_notice(), "\x1b[32m更新されました!\x1b[0m");
    assert_eq!(refreshed_notice(), "\x1b[36mAccess token refreshed!\x1b[0m");
}

#[test]
fn configuration_locations() {
    assert_eq!(PKG_NAME, "koushin");
    assert_eq!(CONFIG_FILE, "config.toml");
    assert_eq!(AUTH_FILE, "auth.toml");
    match config_folder_path() {
        Ok(p) => {
            assert!(p.ends_with("koushin"));
            assert!(p.to_string_lossy().ends_with("/koushin/"));
        }
        Err(e) => assert!(matches!(e, KoushinError::Xdg(_))),
    }
    assert!(xdg_dirs().is_ok() || matches!(xdg_dirs(), Err(KoushinError::Xdg(_))));
    match config_path() {
        Ok(p) => {
            assert!(p.ends_with("config.toml"));
            assert!(p.parent().map(|d| d.ends_with("koushin")).unwrap_or(false));
        }
        Err(e) => assert!(matches!(e, KoushinError::Xdg(_) | KoushinError::Io(_))),
    }
}
