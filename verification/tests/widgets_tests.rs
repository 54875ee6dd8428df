use barony_mod_manager::data::{
    BaronyMod, DownloadNegotiation, DownloadStatus, SteamWorkshopMod, SteamWorkshopVoteData,
};
use barony_mod_manager::manager::StatusGuard;
use barony_mod_manager::steam_api::{initial_status, CATALOGUE_ENDPOINT};
use barony_mod_manager::widgets::{Filter, PickableTag, Sorter, SortingStrategy, ViewStyle};

#[test]
fn download_status_texts() {
    assert_eq!(DownloadStatus::Downloaded.text(), "Downloaded");
    assert_eq!(DownloadStatus::NotDownloaded.text(), "Not downloaded");
    assert_eq!(DownloadStatus::Preparing.text(), "Preparing download...");
    assert_eq!(DownloadStatus::Downloading.text(), "Downloading...");
    assert_eq!(
        DownloadStatus::ErrorOccurred("disk full".to_string()).text(),
        "Error occurred: disk full."
    );
    assert_eq!(DownloadStatus::ErrorOccurred(String::new()).text(), "Error occurred: .");
}

#[test]
fn download_status_admits_intents() {
    assert!(DownloadStatus::NotDownloaded.can_download());
    assert!(DownloadStatus::ErrorOccurred("x".to_string()).can_download());
    assert!(!DownloadStatus::Preparing.can_download());
    assert!(!DownloadStatus::Downloading.can_download());
    assert!(!DownloadStatus::Downloaded.can_download());
    assert!(DownloadStatus::Downloaded.can_remove());
    assert!(!DownloadStatus::NotDownloaded.can_remove());
    assert!(!DownloadStatus::Preparing.can_remove());
    assert!(!DownloadStatus::Downloading.can_remove());
    assert!(!DownloadStatus::ErrorOccurred("x".to_string()).can_remove());
    assert!(DownloadStatus::Preparing.is_in_flight());
    assert!(DownloadStatus::Downloading.is_in_flight());
    assert!(!DownloadStatus::Downloaded.is_in_flight());
    assert!(!DownloadStatus::NotDownloaded.is_in_flight());
    assert!(!DownloadStatus::ErrorOccurred("x".to_string()).is_in_flight());
}

fn guarded(status: DownloadStatus, attempt: Option<u64>) -> BaronyMod {
    BaronyMod {
        workshop: SteamWorkshopMod {
            id: "42".to_string(),
            title: "Foo".to_string(),
            file_size: 0,
            preview_url: String::new(),
            description: String::new(),
            tags: Vec::new(),
            votes: SteamWorkshopVoteData { up: 0, down: 0 },
            views: 0,
            time_created: 0,
            time_updated: 0,
        },
        download_status: status,
        negotiation: attempt.map(|attempt| DownloadNegotiation {
            mod_id: "42".to_string(),
            attempt,
            process_token: None,
            polls: 0,
        }),
    }
}

#[test]
fn status_guards_admit_their_statuses() {
    let downloading = guarded(DownloadStatus::Downloading, Some(3));
    let preparing = guarded(DownloadStatus::Preparing, Some(3));
    let downloaded = guarded(DownloadStatus::Downloaded, None);
    assert!(StatusGuard::Downloading(3).check(&downloading));
    assert!(!StatusGuard::Downloading(4).check(&downloading));
    assert!(!StatusGuard::Downloading(3).check(&preparing));
    assert!(!StatusGuard::Downloading(3).check(&guarded(DownloadStatus::Downloading, None)));
    assert!(StatusGuard::InFlight(3).check(&preparing));
    assert!(StatusGuard::InFlight(3).check(&downloading));
    assert!(!StatusGuard::InFlight(2).check(&preparing));
    assert!(!StatusGuard::InFlight(3).check(&downloaded));
    assert!(StatusGuard::Downloaded.check(&downloaded));
    assert!(!StatusGuard::Downloaded.check(&guarded(DownloadStatus::NotDownloaded, None)));
    assert!(downloading.is_attempt(3));
    assert!(!downloading.is_attempt(0));
    assert!(!downloaded.is_attempt(0));
}

#[test]
fn initial_status_follows_the_disk() {
    assert_eq!(initial_status(true), DownloadStatus::Downloaded);
    assert_eq!(initial_status(false), DownloadStatus::NotDownloaded);
    assert!(CATALOGUE_ENDPOINT.ends_with("/data/mods.json"));
}

#[test]
fn pickable_tag_text_and_default() {
    assert_eq!(PickableTag::Tag("maps".to_string()).text(), "maps");
    assert_eq!(PickableTag::NoTag.text(), "None");
    assert_eq!(PickableTag::default(), PickableTag::NoTag);
}

#[test]
fn pickable_tags_order_named_tags_first() {
    let mut tags = vec![
        PickableTag::NoTag,
        PickableTag::Tag("maps".to_string()),
        PickableTag::Tag("items".to_string()),
    ];
    tags.sort();
    assert_eq!(
        tags,
        vec![
            PickableTag::Tag("items".to_string()),
            PickableTag::Tag("maps".to_string()),
            PickableTag::NoTag,
        ]
    );
}

#[test]
fn sorter_texts_and_default() {
    let texts: Vec<&str> = Sorter::ALL.iter().map(|s| s.text()).collect();
    assert_eq!(
        texts,
        vec!["Vote score", "Views", "Size", "Date updated", "Date created", "Nothing"]
    );
    assert!(matches!(Sorter::default(), Sorter::NoSorter));
}

#[test]
fn sorters_never_compare_equal() {
    assert!(!(Sorter::Size == Sorter::Size));
    assert!(!(Sorter::Size == Sorter::Views));
    assert!(Sorter::NoSorter != Sorter::NoSorter);
}

#[test]
fn view_styles_never_compare_equal() {
    assert!(!(ViewStyle::Fancy == ViewStyle::Fancy));
    assert!(!(ViewStyle::Fancy == ViewStyle::Simple));
    assert!(matches!(ViewStyle::default(), ViewStyle::Fancy));
}

#[test]
fn filter_texts_and_default() {
    let texts: Vec<&str> = Filter::ALL.iter().map(|f| f.text()).collect();
    assert_eq!(texts, vec!["Downloading", "Downloaded", "Non Downloaded", "None"]);
    assert_eq!(Filter::default(), Filter::NoFilter);
}

#[test]
fn sorting_strategy_texts_and_default() {
    let texts: Vec<&str> = SortingStrategy::ALL.iter().map(|s| s.text()).collect();
    assert_eq!(texts, vec!["Descending", "Ascending"]);
    assert_eq!(SortingStrategy::default(), SortingStrategy::Descending);
}
