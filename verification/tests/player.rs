use yunara::player::auth::{plan_auth_load, AuthLoadPlan, AuthType};
use yunara::player::clock::format_duration;
use yunara::player::dock::{Dock, DockPosition};
use yunara::player::keys::{identifier_key_requests, IdentifierKey};
use yunara::player::nav::{nav_action, navigation_target, playlist_action, CenterView, NavItem, NavigateAction};
use yunara::player::pane::{Axis, Pane, PaneGroup};
use yunara::player::playlist::{
    join_names, largest_thumbnail_url, select_thumbnail_url, track_display_info, EpisodeDuration,
    LibraryPlaylistSummary, PlaylistEntry, PlaylistPage, PlaylistPager, Thumbnail,
};
use yunara::player::services::{ResultExt, UserServiceHandler};
use yunara::player::state::{NowPlayingInfo, PlayerState, Playlist, Track};
use yunara::player::token::{
    after_refresh, after_wait, gate, is_expired_token_message, on_refresh_task_cancelled,
    request_refresh, text_contains, worker_should_refresh, QueryFailure, QueryOutcome, QueryRetry,
    QueryStep, RefreshOutcome, TokenGate, TokenState, WaitEnd,
};
use yunara::paths::Platform;

fn track(title: &str, secs: u64) -> Track {
    Track { title: title.to_string(), artist: format!("{title}-artist"), cover_url: None, duration_ms: secs * 1000 }
}

fn thumb(url: &str, w: u64, h: u64) -> Thumbnail {
    Thumbnail { url: url.to_string(), width: w, height: h }
}

#[test]
fn clock_text_formats() {
    assert_eq!(format_duration(0), "0:00");
    assert_eq!(format_duration(59), "0:59");
    assert_eq!(format_duration(65), "1:05");
    assert_eq!(format_duration(600), "10:00");
    assert_eq!(format_duration(3599), "59:59");
    assert_eq!(format_duration(3600), "1:00:00");
    assert_eq!(format_duration(3725), "1:02:05");
    assert_eq!(format_duration(36_000 + 61), "10:01:01");
}

#[test]
fn player_queue_navigation() {
    let mut p = PlayerState::new();
    assert!(!p.has_active_playlist());
    assert!(p.current_track().is_none());
    assert!(!p.next_track());
    assert!(!p.previous_track());

    let playlist = Playlist { id: "pl".to_string(), name: "Mix".to_string() };
    p.play_playlist(playlist, vec![track("a", 100), track("b", 200), track("c", 300)]);
    assert!(p.has_active_playlist());
    assert!(p.playback.is_playing);
    assert_eq!(p.current_index, Some(0));
    assert_eq!(p.now_playing.as_ref().unwrap().track_title, "a");
    assert!(!p.playback.has_previous);
    assert!(p.playback.has_next);

    assert!(p.next_track());
    assert_eq!(p.current_index, Some(1));
    assert_eq!(p.current_track().unwrap().title, "b");
    assert_eq!(p.progress.total_duration_ms, 200_000);
    assert_eq!(p.progress.current_time_ms, 0);
    assert!(p.playback.has_previous && p.playback.has_next);

    assert!(p.next_track());
    assert!(!p.playback.has_next);
    assert!(!p.next_track());
    assert_eq!(p.current_index, Some(2));

    assert!(p.previous_track());
    assert_eq!(p.current_index, Some(1));
    assert_eq!(p.now_playing.as_ref().unwrap().artist_name, "b-artist");

    p.toggle_playback();
    assert!(!p.playback.is_playing);
    p.toggle_playback();
    assert!(p.playback.is_playing);
}

#[test]
fn player_empty_playlist() {
    let mut p = PlayerState::new();
    p.play_playlist(Playlist { id: "e".to_string(), name: "Empty".to_string() }, vec![]);
    assert_eq!(p.current_index, None);
    assert!(p.now_playing.is_none());
    assert!(!p.playback.has_next && !p.playback.has_previous);
    assert!(p.playback.is_playing);
}

#[test]
fn now_playing_from_track() {
    let t = Track { title: "t".to_string(), artist: "ar".to_string(), cover_url: Some("u".to_string()), duration_ms: 1 };
    let i = NowPlayingInfo::from_track(&t);
    assert_eq!(i.track_title, "t");
    assert_eq!(i.artist_name, "ar");
    assert_eq!(i.cover_url.as_deref(), Some("u"));
}

#[test]
fn dock_positions_and_panels() {
    assert!(DockPosition::Left.is_horizontal() && !DockPosition::Left.is_vertical());
    assert!(DockPosition::Right.is_horizontal());
    assert!(DockPosition::Bottom.is_vertical() && !DockPosition::Bottom.is_horizontal());

    let mut d: Dock<&str> = Dock::new(DockPosition::Right);
    assert!(d.is_empty());
    assert!(d.active_panel().is_none());
    d.add_panel("queue");
    d.add_panel("lyrics");
    assert_eq!(d.active_panel(), Some(&"queue"));
    d.activate_panel(1);
    assert_eq!(d.active_panel(), Some(&"lyrics"));
    d.activate_panel(5);
    assert_eq!(d.active_panel(), Some(&"lyrics"));
    assert_eq!(d.panels(), &["queue", "lyrics"]);
    assert!(d.is_visible());
    d.toggle_visibility();
    assert!(!d.is_visible());
    d.set_visible(true);
    assert!(d.is_visible());
    assert_eq!(d.position(), DockPosition::Right);
}

#[test]
fn panes_and_groups() {
    let mut p: Pane<u32> = Pane::new();
    assert!(p.is_empty());
    p.navigate_to(3);
    assert_eq!(p.current_item(), Some(&3));
    p.navigate_to(4);
    assert_eq!(p.current_item(), Some(&4));
    p.clear();
    assert!(p.is_empty());

    let g: PaneGroup<u32, f32> = PaneGroup::horizontal_split(
        PaneGroup::new(1),
        PaneGroup::vertical_split(PaneGroup::new(2), PaneGroup::new(3), 0.25),
        0.5,
    );
    assert_eq!(g.panes(), vec![&1, &2, &3]);
    assert!(g.is_split());
    assert_eq!(g.axis(), Some(Axis::Horizontal));
    assert_eq!(g.ratio(), Some(&0.5));
    let single: PaneGroup<u32, f32> = PaneGroup::new(9);
    assert!(!single.is_split());
    assert_eq!(single.axis(), None);
    assert_eq!(single.ratio(), None);
}

#[test]
fn navigation_targets() {
    assert_eq!(nav_action(NavItem::Home), NavigateAction::Home);
    assert_eq!(nav_action(NavItem::Explore), NavigateAction::Explore);
    assert_eq!(nav_action(NavItem::Library), NavigateAction::Library);
    assert_eq!(navigation_target(&NavigateAction::Home), (CenterView::Home, Some(NavItem::Home)));
    assert_eq!(navigation_target(&NavigateAction::Explore), (CenterView::Explore, Some(NavItem::Explore)));
    assert_eq!(navigation_target(&NavigateAction::Library), (CenterView::Library, Some(NavItem::Library)));
    let a = playlist_action("id".to_string(), "name".to_string());
    assert_eq!(a, NavigateAction::Playlist { id: "id".to_string(), name: "name".to_string() });
    assert_eq!(navigation_target(&a), (CenterView::Library, None));
}

#[test]
fn largest_thumbnail_prefers_last_of_equal_area() {
    assert_eq!(largest_thumbnail_url(&vec![]), None);
    let ts = vec![thumb("small", 60, 60), thumb("big1", 120, 90), thumb("big2", 90, 120), thumb("mid", 100, 100)];
    assert_eq!(largest_thumbnail_url(&ts), Some("big2".to_string()));
    let sat = vec![thumb("huge", u64::MAX, 2), thumb("huge2", 2, u64::MAX)];
    assert_eq!(largest_thumbnail_url(&sat), Some("huge2".to_string()));
}

#[test]
fn playlist_cover_selection() {
    let playlists = vec![
        LibraryPlaylistSummary { playlist_id: "A".to_string(), thumbnails: vec![thumb("a1", 10, 10)] },
        LibraryPlaylistSummary { playlist_id: "B".to_string(), thumbnails: vec![thumb("b1", 10, 10), thumb("b2", 20, 20)] },
        LibraryPlaylistSummary { playlist_id: "B".to_string(), thumbnails: vec![thumb("b3", 90, 90)] },
        LibraryPlaylistSummary { playlist_id: "C".to_string(), thumbnails: vec![] },
    ];
    assert_eq!(select_thumbnail_url(&playlists, "B"), Some("b2".to_string()));
    assert_eq!(select_thumbnail_url(&playlists, "C"), None);
    assert_eq!(select_thumbnail_url(&playlists, "Z"), None);
}

#[test]
fn track_rows() {
    assert_eq!(join_names(&vec![]), "");
    assert_eq!(join_names(&vec!["Solo".to_string()]), "Solo");
    assert_eq!(join_names(&vec!["A".to_string(), "B".to_string(), "C".to_string()]), "A, B, C");

    let song = PlaylistEntry::Song {
        title: "Runaway".to_string(),
        artists: vec!["KOKO".to_string(), "Risa".to_string()],
        duration: "4:30".to_string(),
        thumbnails: vec![thumb("s", 1, 1), thumb("l", 5, 5)],
    };
    let d = track_display_info(&song);
    assert_eq!(d.title, "Runaway");
    assert_eq!(d.artist, "KOKO, Risa");
    assert_eq!(d.duration, "4:30");
    assert_eq!(d.thumbnail_url.as_deref(), Some("l"));

    let live = PlaylistEntry::Episode {
        title: "Ep".to_string(),
        podcast_name: "Pod".to_string(),
        duration: EpisodeDuration::Live,
        thumbnails: vec![],
    };
    let d = track_display_info(&live);
    assert_eq!(d.artist, "Pod");
    assert_eq!(d.duration, "LIVE");
    assert_eq!(d.thumbnail_url, None);

    let rec = PlaylistEntry::Episode {
        title: "Ep2".to_string(),
        podcast_name: "Pod".to_string(),
        duration: EpisodeDuration::Recorded { duration: "12:00".to_string() },
        thumbnails: vec![],
    };
    assert_eq!(track_display_info(&rec).duration, "12:00");

    let video = PlaylistEntry::Video {
        title: "V".to_string(),
        channel_name: "Chan".to_string(),
        duration: "3:20".to_string(),
        thumbnails: vec![],
    };
    assert_eq!(track_display_info(&video).artist, "Chan");

    let upload = PlaylistEntry::UploadSong {
        title: "U".to_string(),
        artists: vec!["Me".to_string()],
        duration: "1:00".to_string(),
        thumbnails: vec![],
    };
    assert_eq!(track_display_info(&upload).artist, "Me");
}

#[test]
fn playlist_paging() {
    let mut p: PlaylistPager<u32> = PlaylistPager::new();
    assert!(p.is_loading());
    assert_eq!(p.begin_next_page(), None);
    p.first_page_loaded(Ok(PlaylistPage { items: (0..50).collect(), continuation: Some("t1".to_string()) }));
    assert!(!p.is_loading());
    assert_eq!(p.tracks().len(), 50);
    assert!(p.has_more());
    assert!(!p.should_load_more(10));
    assert!(p.should_load_more(31));
    assert!(p.should_load_more(500));
    assert_eq!(p.begin_next_page(), Some("t1".to_string()));
    assert!(p.is_loading_more());
    assert_eq!(p.begin_next_page(), None);
    assert!(!p.should_load_more(50));
    p.next_page_loaded(Ok(PlaylistPage { items: vec![50, 51], continuation: None }));
    assert_eq!(p.tracks().len(), 52);
    assert_eq!(p.tracks()[51], 51);
    assert!(!p.has_more());
    assert!(!p.is_loading_more());
    assert_eq!(p.begin_next_page(), None);

    let mut q: PlaylistPager<u32> = PlaylistPager::new();
    q.first_page_loaded(Ok(PlaylistPage { items: vec![1], continuation: Some("x".to_string()) }));
    q.begin_next_page();
    q.next_page_loaded(Err(()));
    assert!(!q.has_more());
    assert_eq!(q.tracks(), &[1]);
    q.begin_first_page();
    q.first_page_loaded(Err(()));
    assert!(q.tracks().is_empty());
    assert!(!q.has_more());
    assert!(!q.should_load_more(0));
}

#[test]
fn token_state_codes() {
    for s in [TokenState::NoNeed, TokenState::NeedRefreshing, TokenState::InRefreshing, TokenState::RefreshFailed] {
        assert_eq!(TokenState::from_u8(s.to_u8()), Some(s));
    }
    assert_eq!(TokenState::NoNeed.to_u8(), 0);
    assert_eq!(TokenState::RefreshFailed.to_u8(), 3);
    assert_eq!(TokenState::from_u8(4), None);
    assert_eq!(TokenState::from_u8(255), None);
}

#[test]
fn token_refresh_decisions() {
    assert_eq!(request_refresh(TokenState::NoNeed), (TokenState::NeedRefreshing, true));
    assert_eq!(request_refresh(TokenState::InRefreshing), (TokenState::InRefreshing, false));
    assert_eq!(request_refresh(TokenState::RefreshFailed), (TokenState::RefreshFailed, false));
    assert_eq!(worker_should_refresh(TokenState::NeedRefreshing), Some(TokenState::InRefreshing));
    assert_eq!(worker_should_refresh(TokenState::NoNeed), None);
    assert_eq!(after_refresh(RefreshOutcome::NewToken), (TokenState::NoNeed, true));
    assert_eq!(after_refresh(RefreshOutcome::NotNeeded), (TokenState::NoNeed, false));
    assert_eq!(after_refresh(RefreshOutcome::Failed), (TokenState::RefreshFailed, false));
    assert_eq!(on_refresh_task_cancelled(), TokenState::RefreshFailed);
    assert_eq!(gate(TokenState::NoNeed), TokenGate::Proceed);
    assert_eq!(gate(TokenState::NeedRefreshing), TokenGate::WaitForRefresh);
    assert_eq!(gate(TokenState::InRefreshing), TokenGate::WaitForRefresh);
    assert_eq!(gate(TokenState::RefreshFailed), TokenGate::Fail);
    assert_eq!(after_wait(WaitEnd::Cancelled), Some(QueryFailure::Cancelled));
    assert_eq!(after_wait(WaitEnd::TimedOut), Some(QueryFailure::TokenRefreshFailed));
    assert_eq!(after_wait(WaitEnd::Notified), None);
}

#[test]
fn query_retries_once() {
    let mut q = QueryRetry::new();
    assert_eq!(q.on_outcome(QueryOutcome::TokenExpired), QueryStep::RefreshThenRetry);
    assert_eq!(q.on_outcome(QueryOutcome::TokenExpired), QueryStep::Fail(QueryFailure::TokenRefreshFailed));

    let mut q = QueryRetry::new();
    assert_eq!(q.on_outcome(QueryOutcome::OtherError), QueryStep::RetryNow);
    assert_eq!(q.on_outcome(QueryOutcome::OtherError), QueryStep::Fail(QueryFailure::ServiceError));

    let mut q = QueryRetry::new();
    assert_eq!(q.on_outcome(QueryOutcome::OtherError), QueryStep::RetryNow);
    assert_eq!(q.on_outcome(QueryOutcome::Success), QueryStep::Done);

    let mut q = QueryRetry::new();
    assert_eq!(q.on_outcome(QueryOutcome::Success), QueryStep::Done);
}

#[test]
fn expired_token_messages() {
    assert!(text_contains("hello world", "o w"));
    assert!(text_contains("abc", ""));
    assert!(!text_contains("ab", "abc"));
    assert!(text_contains("日本語テキスト", "語テ"));
    assert!(is_expired_token_message("OAuth token has expired"));
    assert!(is_expired_token_message("expired: OAuth"));
    assert!(!is_expired_token_message("oauth token expired"));
    assert!(!is_expired_token_message("OAuth token invalid"));
}

#[test]
fn auth_files_and_plans() {
    assert_eq!(AuthType::default(), AuthType::Browser);
    assert_eq!(AuthType::Browser.credential_file(), Some("cookie.txt"));
    assert_eq!(AuthType::OAuth.credential_file(), Some("oauth.json"));
    assert_eq!(AuthType::Unauthenticated.credential_file(), None);
    assert_eq!(AuthType::OAuth.input_file(), Some("oauth.input.json"));
    assert_eq!(AuthType::Browser.input_file(), None);
    assert!(AuthType::OAuth.setup_url().unwrap().starts_with("https://github.com/nick42d/youtui"));

    let p = Platform::LinuxOrFreeBsd;
    assert!(matches!(plan_auth_load(AuthType::Unauthenticated, "/cfg", p, false, false), AuthLoadPlan::NoKey));
    assert!(matches!(plan_auth_load(AuthType::Browser, "/cfg", p, false, false), AuthLoadPlan::InvalidConfigPath));
    match plan_auth_load(AuthType::Browser, "/cfg", p, true, false) {
        AuthLoadPlan::ReadBrowserCookie { file } => assert_eq!(file, "/cfg/cookie.txt"),
        _ => panic!("expected cookie"),
    }
    match plan_auth_load(AuthType::OAuth, "/cfg/", p, true, true) {
        AuthLoadPlan::ReadOAuthToken { file } => assert_eq!(file, "/cfg/oauth.json"),
        _ => panic!("expected token"),
    }
    match plan_auth_load(AuthType::OAuth, "C:\\cfg", Platform::Windows, true, false) {
        AuthLoadPlan::BootstrapOAuth { input_file, token_file } => {
            assert_eq!(input_file, "C:\\cfg\\oauth.input.json");
            assert_eq!(token_file, "C:\\cfg\\oauth.json");
        }
        _ => panic!("expected bootstrap"),
    }
}

#[test]
fn identifier_keys() {
    assert_eq!(IdentifierKey::SessionId.as_str(), "session_id");
    assert_eq!(IdentifierKey::SystemId.as_str(), "system_id");
    assert_eq!(IdentifierKey::InstallationId.as_str(), "installation_id");
    assert!(IdentifierKey::SessionId.force());
    assert!(!IdentifierKey::SystemId.force());
    assert!(!IdentifierKey::InstallationId.force());
    assert_eq!(IdentifierKey::all(), vec![IdentifierKey::SessionId, IdentifierKey::SystemId, IdentifierKey::InstallationId]);
    let reqs = identifier_key_requests();
    assert_eq!(reqs.len(), 3);
    assert_eq!(reqs[0].key, "session_id");
    assert!(reqs[0].force);
    assert_eq!(reqs[2].key, "installation_id");
    assert!(!reqs[2].force);
    let r = IdentifierKey::SystemId.to_key_request();
    assert_eq!(r.key, "system_id");
    assert!(!r.force);
}

#[test]
fn user_service_and_result_ext() {
    let h = UserServiceHandler::new();
    assert_eq!(h.list_users(), vec!["user1".to_string(), "user2".to_string()]);
    assert_eq!(h.get_user("any"), None);
    let ok: Result<u32, String> = Ok(5);
    assert_eq!(ok.log_err(), Some(5));
    let err: Result<u32, String> = Err("bad".to_string());
    assert_eq!(err.log_err(), None);
}

#[test]
fn play_playlist_starts_from_the_beginning() {
    let mut p = PlayerState::new();
    p.play_playlist(Playlist { id: "a".to_string(), name: "A".to_string() }, vec![track("x", 100), track("y", 200)]);
    p.progress.current_time_ms = 5_000;
    p.progress.is_dragging = true;
    p.play_playlist(Playlist { id: "b".to_string(), name: "B".to_string() }, vec![track("z", 42), track("w", 7)]);
    assert_eq!(p.current_index, Some(0));
    assert_eq!(p.progress.current_time_ms, 0);
    assert!(!p.progress.is_dragging);
    assert_eq!(p.progress.total_duration_ms, 42_000);
}

#[test]
fn queue_moves_from_an_inconsistent_state() {
    let mut p = PlayerState::new();
    p.queue = vec![track("a", 1), track("b", 2), track("c", 3)];
    p.current_index = Some(0);
    // The controls and the displayed track were not brought up to date.
    assert!(p.next_track());
    assert_eq!(p.current_index, Some(1));
    assert_eq!(p.now_playing.as_ref().unwrap().track_title, "b");
    assert!(p.playback.has_previous && p.playback.has_next);
    assert_eq!(p.progress.total_duration_ms, 2_000);

    p.current_index = Some(7);
    assert!(p.previous_track());
    assert_eq!(p.current_index, Some(6));
    assert!(p.now_playing.is_none());
    assert!(p.playback.has_previous && !p.playback.has_next);
    assert!(!p.next_track());
}
