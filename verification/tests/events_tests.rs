use barony_mod_manager::data::{SteamWorkshopMod, SteamWorkshopVoteData};
use barony_mod_manager::downloader_api::NegotiationError;
use barony_mod_manager::events::{
    fetched_message, installed_message, polled_message, queued_message, removal_message,
    transmit_failed_message,
};
use barony_mod_manager::filesystem::FsError;
use barony_mod_manager::widgets::Message;

fn same(left: &Message, right: &Message) -> bool {
    format!("{:?}", left) == format!("{:?}", right)
}

#[test]
fn fetched_catalogue_is_handed_on() {
    let record = SteamWorkshopMod {
        id: "1".to_string(),
        title: "A".to_string(),
        file_size: 1,
        preview_url: "u".to_string(),
        description: "d".to_string(),
        tags: vec!["t".to_string()],
        votes: SteamWorkshopVoteData { up: 1, down: 0 },
        views: 2,
        time_created: 3,
        time_updated: 4,
    };
    assert!(same(
        &fetched_message(3, Ok(vec![record.clone()])),
        &Message::ModsFetched(3, vec![record])
    ));
    assert!(same(
        &fetched_message(3, Err(NegotiationError::Network("down".to_string()))),
        &Message::LoadFailed(3, "network error: down".to_string())
    ));
}

#[test]
fn queue_outcome_becomes_message() {
    assert!(same(
        &queued_message("42".to_string(), 1, Ok("abc".to_string())),
        &Message::PreparingModDownload("42".to_string(), "abc".to_string(), 1)
    ));
    assert!(same(
        &queued_message("42".to_string(), 1, Err(NegotiationError::Protocol("x".to_string()))),
        &Message::ModDownloadFailed("42".to_string(), "unexpected reply: x".to_string(), 1)
    ));
}

#[test]
fn poll_outcome_becomes_message() {
    assert!(same(
        &polled_message("42".to_string(), "abc".to_string(), 1, Ok(true)),
        &Message::ModDownloadReady("42".to_string(), "abc".to_string(), 1)
    ));
    assert!(same(
        &polled_message("42".to_string(), "abc".to_string(), 1, Ok(false)),
        &Message::PreparingModDownload("42".to_string(), "abc".to_string(), 1)
    ));
    assert!(same(
        &polled_message("42".to_string(), "abc".to_string(), 1, Err(NegotiationError::Empty)),
        &Message::ModDownloadFailed("42".to_string(), "the download was empty".to_string(), 1)
    ));
}

#[test]
fn transmit_failure_becomes_message() {
    assert!(same(
        &transmit_failed_message("42".to_string(), 1, &NegotiationError::Network("reset".to_string())),
        &Message::ModDownloadFailed("42".to_string(), "network error: reset".to_string(), 1)
    ));
}

#[test]
fn install_outcome_becomes_message() {
    assert!(same(
        &installed_message("42".to_string(), 1, Ok(())),
        &Message::ModDownloaded("42".to_string(), 1)
    ));
    assert!(same(
        &installed_message("42".to_string(), 1, Err(FsError::Io("disk full".to_string()))),
        &Message::ModDownloadFailed("42".to_string(), "disk full".to_string(), 1)
    ));
}

#[test]
fn removal_outcome_becomes_message() {
    assert!(same(
        &removal_message("42".to_string(), Ok(())),
        &Message::ModRemoved("42".to_string())
    ));
    assert!(same(
        &removal_message("42".to_string(), Err(FsError::NotFound)),
        &Message::ModRemoved("42".to_string())
    ));
    assert!(same(
        &removal_message("42".to_string(), Err(FsError::Io("permission denied".to_string()))),
        &Message::ModRemovalFailed("42".to_string(), "permission denied".to_string())
    ));
}
