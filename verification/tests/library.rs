use harmony::calendar::{parse_date_to_timestamp, timestamp_of_parts};
use harmony::client::{
    api_url, check_auth_status, checking_message, is_success, status_failure, AuthCheck, AuthStatusView, AuthStep,
};
use harmony::error::{ClientError, RequestFailure};
use harmony::ids::{format_uuid, GroupId, PlaylistId, TrackId};
use harmony::routes::{
    auth_result, callback_code, client_url, login_step, login_target, service_failure, status, test_api_check,
    CallbackParams, LoginStep,
};
use harmony::spotify::{convert_track, convert_track_with, has_distinct_keys, SpotifyTrack};
use harmony::text::{parse_i32, push_decimal, str_equal};
use harmony::types::{Playlist, PlaylistItem, Track, TrackGroup, TrackRef};

fn is_v4(v: u128) -> bool {
    (v >> 76) & 0xf == 4 && (v >> 62) & 3 == 2
}

fn track_ref(name: &str, duration_ms: u32, artwork: Option<&str>) -> TrackRef {
    TrackRef {
        harmony_id: None,
        provider_id: format!("id-{}", name),
        provider: "spotify".to_string(),
        name: name.to_string(),
        artists: vec!["Artist".to_string()],
        duration_ms,
        artwork_url: artwork.map(|a| a.to_string()),
    }
}

fn failure(is_connect: bool, is_timeout: bool, is_status: bool, status: Option<u16>) -> RequestFailure {
    RequestFailure { is_connect, is_timeout, is_status, status, description: "boom".to_string() }
}

// ---------------------------------------------------------------- identifiers

#[test]
fn new_ids_are_random_v4_uuids() {
    assert!(is_v4(TrackId::new().0));
    assert!(is_v4(GroupId::new().0));
    assert!(is_v4(PlaylistId::new().0));
    assert!(is_v4(TrackId::default().0));
    assert!(is_v4(GroupId::default().0));
    assert!(is_v4(PlaylistId::default().0));
    assert_ne!(TrackId::new(), TrackId::new());
}

#[test]
fn id_parses_standard_uuid_text() {
    let id = TrackId::from_string("550e8400-e29b-41d4-a716-446655440000").unwrap();
    assert_eq!(id.0, 0x550e8400_e29b_41d4_a716_446655440000);
    assert_eq!(id.to_string(), "550e8400-e29b-41d4-a716-446655440000");
}

#[test]
fn id_parses_other_uuid_forms() {
    let v = 0x67e55044_10b1_426f_9247_bb680e5fe0c8u128;
    assert_eq!(GroupId::from_string("67e5504410b1426f9247bb680e5fe0c8"), Some(GroupId(v)));
    assert_eq!(GroupId::from_string("{67e55044-10b1-426f-9247-bb680e5fe0c8}"), Some(GroupId(v)));
    assert_eq!(PlaylistId::from_string("urn:uuid:67e55044-10b1-426f-9247-bb680e5fe0c8"), Some(PlaylistId(v)));
    assert_eq!(PlaylistId::from_string("67E55044-10B1-426F-9247-BB680E5FE0C8"), Some(PlaylistId(v)));
}

#[test]
fn id_rejects_non_uuid_text() {
    assert_eq!(TrackId::from_string(""), None);
    assert_eq!(TrackId::from_string("not-a-uuid"), None);
    assert_eq!(GroupId::from_string("550e8400-e29b-41d4-a716-44665544000g"), None);
    assert_eq!(PlaylistId::from_string("550e8400e29b-41d4-a716-4466554400001"), None);
}

#[test]
fn id_text_round_trips() {
    for v in [0u128, 1, 0xffff_ffff_ffff_ffff_ffff_ffff_ffff_ffff, 0x0123_4567_89ab_cdef_0011_2233_4455_6677] {
        assert_eq!(TrackId::from_string(&TrackId(v).to_string()), Some(TrackId(v)));
        assert_eq!(GroupId::from_string(&GroupId(v).to_string()), Some(GroupId(v)));
        assert_eq!(PlaylistId::from_string(&PlaylistId(v).to_string()), Some(PlaylistId(v)));
    }
    let fresh = TrackId::new();
    assert_eq!(TrackId::from_string(&fresh.to_string()), Some(fresh));
}

#[test]
fn uuid_text_matches_uuid_display() {
    assert_eq!(format_uuid(0), "00000000-0000-0000-0000-000000000000");
    assert_eq!(format_uuid(u128::MAX), "ffffffff-ffff-ffff-ffff-ffffffffffff");
    let v = TrackId::new().0;
    assert_eq!(format_uuid(v), uuid::Uuid::from_u128(v).to_string());
}

// ---------------------------------------------------------------- text

#[test]
fn parse_i32_follows_std() {
    assert_eq!(parse_i32("2023"), Some(2023));
    assert_eq!(parse_i32("+17"), Some(17));
    assert_eq!(parse_i32("-42"), Some(-42));
    assert_eq!(parse_i32("007"), Some(7));
    assert_eq!(parse_i32("2147483647"), Some(i32::MAX));
    assert_eq!(parse_i32("-2147483648"), Some(i32::MIN));
    assert_eq!(parse_i32("2147483648"), None);
    assert_eq!(parse_i32("-2147483649"), None);
    assert_eq!(parse_i32("99999999999999999999"), None);
    assert_eq!(parse_i32(""), None);
    assert_eq!(parse_i32("-"), None);
    assert_eq!(parse_i32("+"), None);
    assert_eq!(parse_i32("1a"), None);
    assert_eq!(parse_i32(" 1"), None);
    assert_eq!(parse_i32("٣"), None);
    for s in ["0", "-0", "12", "x", "2023-10", "+-1", "4294967296"] {
        assert_eq!(parse_i32(s), s.parse::<i32>().ok());
    }
}

#[test]
fn decimal_rendering() {
    let mut s = String::from("n=");
    push_decimal(&mut s, 0);
    assert_eq!(s, "n=0");
    let mut s = String::new();
    push_decimal(&mut s, 65535);
    assert_eq!(s, "65535");
    let mut s = String::new();
    push_decimal(&mut s, u64::MAX);
    assert_eq!(s, u64::MAX.to_string());
}

#[test]
fn string_equality() {
    assert!(str_equal("harmony", "harmony"));
    assert!(!str_equal("harmony", "Harmony"));
    assert!(!str_equal("harmony", "harmon"));
    assert!(str_equal("", ""));
    assert!(str_equal("ℹ️x", "ℹ️x"));
}

// ---------------------------------------------------------------- calendar

#[test]
fn full_dates_parse_to_midnight_utc() {
    assert_eq!(parse_date_to_timestamp("2023-10-27"), Some(1_698_364_800));
    assert_eq!(parse_date_to_timestamp("1970-01-01"), Some(0));
    assert_eq!(parse_date_to_timestamp("1969-12-31"), Some(-86_400));
    assert_eq!(parse_date_to_timestamp("2024-02-29"), Some(1_709_164_800));
    assert_eq!(parse_date_to_timestamp("2000-01-01"), Some(946_684_800));
}

#[test]
fn year_month_dates_parse_to_the_first_of_the_month() {
    assert_eq!(parse_date_to_timestamp("2023-10"), Some(1_696_118_400));
    assert_eq!(parse_date_to_timestamp("2023-13"), None);
}

#[test]
fn year_only_dates_parse_to_the_first_of_january() {
    assert_eq!(parse_date_to_timestamp("2023"), Some(1_672_531_200));
    assert_eq!(parse_date_to_timestamp("1"), Some(-62_135_596_800));
    assert_eq!(parse_date_to_timestamp("0"), Some(-62_167_219_200));
    assert_eq!(parse_date_to_timestamp("300000"), None);
}

#[test]
fn malformed_dates_give_none() {
    assert_eq!(parse_date_to_timestamp(""), None);
    assert_eq!(parse_date_to_timestamp("soon"), None);
    assert_eq!(parse_date_to_timestamp("2023-02-30"), None);
    assert_eq!(parse_date_to_timestamp("2023/10/27"), None);
}

#[test]
fn parsed_dates_are_midnights() {
    for s in ["2023-10-27", "2023-10", "2023", "1999-12-31", "-44", "1066-10-14"] {
        let t = parse_date_to_timestamp(s).unwrap();
        assert_eq!(t % 86_400, 0, "{}", s);
    }
}

// ---------------------------------------------------------------- errors

#[test]
fn error_messages() {
    assert_eq!(
        ClientError::Connection("down".to_string()).display_message(),
        "🔌 Connection Error\n\ndown"
    );
    assert_eq!(
        ClientError::Timeout.display_message(),
        "⏱️ Request Timeout\n\nThe server took too long to respond.\nPlease try again."
    );
    assert_eq!(
        ClientError::ServerError(404, "Not here".to_string()).display_message(),
        "⚠️ Server Error (404)\n\nNot here"
    );
    assert_eq!(
        ClientError::ServerError(0, String::new()).display_message(),
        "⚠️ Server Error (0)\n\n"
    );
    assert_eq!(ClientError::ParseError("bad json".to_string()).display_message(), "⚠️ Parse Error\n\nbad json");
    assert_eq!(ClientError::Unknown("???".to_string()).display_message(), "❌ Unknown Error\n\n???");
}

#[test]
fn request_failures_are_classified_in_order() {
    match ClientError::from_reqwest(failure(true, true, true, Some(503))) {
        ClientError::Connection(m) => assert_eq!(
            m,
            "Cannot reach the server. Make sure it's running:\n→ cargo run -p harmony-server"
        ),
        other => panic!("{:?}", other),
    }
    assert!(matches!(ClientError::from_reqwest(failure(false, true, true, Some(503))), ClientError::Timeout));
    match ClientError::from_reqwest(failure(false, false, true, Some(503))) {
        ClientError::ServerError(503, m) => assert_eq!(m, "The server returned an error response"),
        other => panic!("{:?}", other),
    }
    assert!(matches!(
        ClientError::from_reqwest(failure(false, false, true, None)),
        ClientError::ServerError(500, _)
    ));
    match ClientError::from_reqwest(failure(false, false, false, Some(503))) {
        ClientError::Unknown(d) => assert_eq!(d, "boom"),
        other => panic!("{:?}", other),
    }
}

// ---------------------------------------------------------------- client

#[test]
fn api_url_defaults_to_localhost() {
    assert_eq!(api_url(None), "http://localhost:3000");
    assert_eq!(api_url(Some("https://api.example.com".to_string())), "https://api.example.com");
}

#[test]
fn success_statuses() {
    assert!(!is_success(199));
    assert!(is_success(200));
    assert!(is_success(299));
    assert!(!is_success(300));
    assert!(!is_success(500));
    assert!(status_failure(204, "Health check failed").is_none());
    match status_failure(503, "Health check failed") {
        Some(ClientError::ServerError(503, m)) => assert_eq!(m, "Health check failed"),
        other => panic!("{:?}", other),
    }
}

fn shown(step: AuthStep) -> AuthStatusView {
    match step {
        AuthStep::Show(v) => v,
        AuthStep::ReadBody => panic!("expected a view"),
    }
}

#[test]
fn auth_status_views() {
    assert_eq!(checking_message(), "⏳ Checking authentication status...");
    let v = shown(check_auth_status(AuthCheck::Answered(true)));
    assert_eq!(v.authenticated, Some(true));
    assert_eq!(v.message, "✅ Success!\n\nYou are authenticated with Spotify.");
    let v = shown(check_auth_status(AuthCheck::Answered(false)));
    assert_eq!(v.authenticated, Some(false));
    assert_eq!(v.message, "ℹ️ Not Authenticated\n\nClick 'Login with Spotify' to connect your account.");
    let v = shown(check_auth_status(AuthCheck::Responded(502)));
    assert_eq!(v.authenticated, None);
    assert_eq!(v.message, "⚠️ Server Error (502)\n\nUnexpected status code");
    let v = shown(check_auth_status(AuthCheck::Responded(404)));
    assert_eq!(v.message, "⚠️ Server Error (404)\n\nUnexpected status code");
    assert!(matches!(check_auth_status(AuthCheck::Responded(200)), AuthStep::ReadBody));
    assert!(matches!(check_auth_status(AuthCheck::Responded(299)), AuthStep::ReadBody));
    let v = shown(check_auth_status(AuthCheck::Unreadable("expected value at line 1".to_string())));
    assert_eq!(v.authenticated, None);
    assert_eq!(v.message, "⚠️ Parse Error\n\nexpected value at line 1");
    let v = shown(check_auth_status(AuthCheck::Unreachable(failure(false, true, false, None))));
    assert_eq!(v.authenticated, Some(false));
    assert_eq!(v.message, "⏱️ Request Timeout\n\nThe server took too long to respond.\nPlease try again.");
}

// ---------------------------------------------------------------- routes

#[test]
fn callback_error_comes_first() {
    let e = callback_code(CallbackParams { code: Some("c".to_string()), error: Some("access_denied".to_string()) })
        .unwrap_err();
    assert_eq!(e.status, 401);
    assert_eq!(e.message, "Authorization failed: access_denied");
}

#[test]
fn callback_without_code_is_a_bad_request() {
    let e = callback_code(CallbackParams { code: None, error: None }).unwrap_err();
    assert_eq!(e.status, 400);
    assert_eq!(e.message, "No code provided");
}

#[test]
fn callback_with_code_gives_the_code() {
    let code = callback_code(CallbackParams { code: Some("AQD-xyz".to_string()), error: None }).unwrap();
    assert_eq!(code, "AQD-xyz");
}

#[test]
fn other_route_decisions() {
    assert_eq!(client_url(None), "http://localhost:8080");
    assert_eq!(client_url(Some("http://app".to_string())), "http://app");
    let body = test_api_check(true).unwrap();
    assert_eq!(body.message, "Authentication is working!");
    assert!(body.authenticated);
    let e = test_api_check(false).unwrap_err();
    assert_eq!((e.status, e.message.as_str()), (401, "Not authenticated with Spotify"));
    assert!(status(true).authenticated);
    assert!(!status(false).authenticated);
    let e = service_failure("Failed to generate auth URL".to_string());
    assert_eq!((e.status, e.message.as_str()), (500, "Failed to generate auth URL"));
}

// ---------------------------------------------------------------- tracks

#[test]
fn minimal_track() {
    let t = Track::minimal("Bohemian Rhapsody".to_string(), "Queen".to_string());
    assert!(is_v4(t.harmony_id.0));
    assert_eq!(t.provider_id, "");
    assert_eq!(t.provider, "unknown");
    assert_eq!(t.title, "Bohemian Rhapsody");
    assert_eq!(t.artist, vec!["Queen".to_string()]);
    assert_eq!(t.album, None);
    assert_eq!(t.duration_ms, 0);
    assert_eq!(t.release_date, None);
    assert_eq!(t.upload_date, 0);
    assert!(t.preview_url.is_none() && t.full_url.is_none() && t.artwork_url.is_none() && t.tags.is_none());
}

#[test]
fn track_to_ref_keeps_the_core_information() {
    let mut t = Track::minimal_with_id(TrackId(7), "Blackbird".to_string(), "The Beatles".to_string());
    t.duration_ms = 138_000;
    t.artwork_url = Some("https://img/1".to_string());
    t.provider_id = "spotify:track:5jgFfDIR6FR0gvlA56Nakr".to_string();
    let r = t.to_ref();
    assert_eq!(r.harmony_id, Some(TrackId(7)));
    assert_eq!(r.provider_id, "spotify:track:5jgFfDIR6FR0gvlA56Nakr");
    assert_eq!(r.provider, "unknown");
    assert_eq!(r.name, "Blackbird");
    assert_eq!(r.artists, vec!["The Beatles".to_string()]);
    assert_eq!(r.duration_ms, 138_000);
    assert_eq!(r.artwork_url.as_deref(), Some("https://img/1"));
}

// ---------------------------------------------------------------- groups

#[test]
fn new_group_is_empty_and_ordered() {
    let g = TrackGroup::new("Morning Workout".to_string(), "user@example.com".to_string());
    assert!(is_v4(g.harmony_id.0));
    assert_eq!(g.name, "Morning Workout");
    assert_eq!(g.owner, "user@example.com");
    assert_eq!(g.track_count(), 0);
    assert_eq!(g.total_duration_ms(), 0);
    assert!(!g.allow_shuffle);
    assert_eq!(g.created_at, g.updated_at);
    assert!(g.created_at > 1_600_000_000);
    assert!(g.description.is_none() && g.artwork_url.is_none() && g.tags.is_none());
}

#[test]
fn adding_tracks_appends_and_sums_durations() {
    let mut g = TrackGroup::new_with(GroupId(1), "The Wall - Act 1".to_string(), "me".to_string(), 100);
    g.add_track_at(track_ref("In the Flesh?", 200_000, None), 150);
    g.add_track_at(track_ref("The Thin Ice", 150_000, Some("https://img/ice")), 160);
    g.add_track(track_ref("Another Brick", 190_000, None));
    assert_eq!(g.track_count(), 3);
    let names: Vec<&str> = g.tracks.iter().map(|t| t.name.as_str()).collect();
    assert_eq!(names, vec!["In the Flesh?", "The Thin Ice", "Another Brick"]);
    assert_eq!(g.total_duration_ms(), 540_000);
    assert_eq!(g.created_at, 100);
    assert!(g.updated_at > 1_600_000_000);
    g.add_track_at(track_ref("Goodbye", 1, None), 170);
    assert_eq!(g.updated_at, 170);
}

#[test]
fn group_artwork_falls_back_to_the_first_track() {
    let mut g = TrackGroup::new_with(GroupId(2), "g".to_string(), "me".to_string(), 0);
    assert_eq!(g.get_artwork(), None);
    g.add_track_at(track_ref("a", 1, None), 1);
    g.add_track_at(track_ref("b", 1, Some("https://img/b")), 1);
    assert_eq!(g.get_artwork(), None);
    let mut h = TrackGroup::new_with(GroupId(3), "h".to_string(), "me".to_string(), 0);
    h.add_track_at(track_ref("a", 1, Some("https://img/a")), 1);
    assert_eq!(h.get_artwork().as_deref(), Some("https://img/a"));
    h.artwork_url = Some("https://img/custom".to_string());
    assert_eq!(h.get_artwork().as_deref(), Some("https://img/custom"));
}

#[test]
fn group_to_ref_summarises_the_group() {
    let mut g = TrackGroup::new_with(GroupId(9), "Abbey Road Medley".to_string(), "me".to_string(), 5);
    g.add_track_at(track_ref("You Never Give Me Your Money", 242_000, Some("https://img/ar")), 6);
    g.add_track_at(track_ref("Sun King", 146_000, None), 7);
    let r = g.to_ref();
    assert_eq!(r.harmony_id, GroupId(9));
    assert_eq!(r.name, "Abbey Road Medley");
    assert_eq!(r.track_count, 2);
    assert_eq!(r.total_duration_ms, 388_000);
    assert_eq!(r.artwork_url.as_deref(), Some("https://img/ar"));
    let item = PlaylistItem::Group(r);
    assert!(matches!(item, PlaylistItem::Group(_)));
}

#[test]
fn group_duration_at_the_u32_limit() {
    let mut g = TrackGroup::new_with(GroupId(4), "long".to_string(), "me".to_string(), 0);
    g.add_track_at(track_ref("a", u32::MAX - 1, None), 0);
    g.add_track_at(track_ref("b", 1, None), 0);
    assert_eq!(g.total_duration_ms(), u32::MAX);
}

// ---------------------------------------------------------------- playlists

#[test]
fn native_playlist_defaults() {
    let p = Playlist::new_native("Workout Mix".to_string(), "user@example.com".to_string());
    assert!(is_v4(p.harmony_id.0));
    assert_eq!(p.provider, "harmony");
    assert_eq!(p.provider_id, None);
    assert_eq!(p.name, "Workout Mix");
    assert_eq!(p.owner, "user@example.com");
    assert_eq!(p.track_count, 0);
    assert!(p.is_editable);
    assert_eq!(p.last_synced, None);
    assert!(p.items_loaded());
    assert_eq!(p.items.as_ref().map(|i| i.len()), Some(0));
    assert!(p.created_at > 1_600_000_000);
    assert!(!p.needs_sync(0));
    assert!(!p.needs_sync(i64::MIN));
}

fn synced(provider: &str, last_synced: Option<i64>) -> Playlist {
    let mut p = Playlist::new_native_with(PlaylistId(5), "p".to_string(), "me".to_string(), 0);
    p.provider = provider.to_string();
    p.last_synced = last_synced;
    p.is_editable = false;
    p
}

#[test]
fn sync_need_by_age() {
    let p = synced("spotify", Some(1_000));
    assert!(!p.needs_sync_at(3_600, 4_600));
    assert!(p.needs_sync_at(3_600, 4_601));
    assert!(p.needs_sync_at(3_600, 10_000));
    assert!(p.needs_sync(3_600));
    let recent = synced("spotify", Some(i64::MAX / 2));
    assert!(!recent.needs_sync(3_600));
}

#[test]
fn never_synced_playlists_need_sync() {
    assert!(synced("spotify", None).needs_sync_at(3_600, 0));
    assert!(synced("spotify", None).needs_sync(i64::MAX));
    assert!(!synced("harmony", None).needs_sync(0));
}

#[test]
fn unloaded_items() {
    let mut p = synced("spotify", None);
    p.items = None;
    assert!(!p.items_loaded());
}

// ---------------------------------------------------------------- spotify

fn spotify_track() -> SpotifyTrack {
    SpotifyTrack {
        uri: Some("spotify:track:3n3Ppam7vgaVa1iaRUc9Lp".to_string()),
        name: "Mr. Brightside".to_string(),
        artist_names: vec!["The Killers".to_string()],
        album_name: "Hot Fuss".to_string(),
        duration_ms: 222_973,
        preview_url: Some("https://p.scdn.co/mp3-preview/x".to_string()),
        external_urls: vec![
            ("other".to_string(), "https://elsewhere".to_string()),
            ("spotify".to_string(), "https://open.spotify.com/track/3n3Ppam7vgaVa1iaRUc9Lp".to_string()),
        ],
        album_image_urls: vec!["https://i.scdn.co/640".to_string(), "https://i.scdn.co/300".to_string()],
        album_release_date: Some("2004-06-07".to_string()),
    }
}

#[test]
fn spotify_track_conversion() {
    let t = convert_track_with(&spotify_track(), TrackId(42), 1_700_000_000).unwrap();
    assert_eq!(t.harmony_id, TrackId(42));
    assert_eq!(t.provider_id, "spotify:track:3n3Ppam7vgaVa1iaRUc9Lp");
    assert_eq!(t.provider, "spotify");
    assert_eq!(t.title, "Mr. Brightside");
    assert_eq!(t.artist, vec!["The Killers".to_string()]);
    assert_eq!(t.album.as_deref(), Some("Hot Fuss"));
    assert_eq!(t.duration_ms, 222_973);
    assert_eq!(t.preview_url.as_deref(), Some("https://p.scdn.co/mp3-preview/x"));
    assert_eq!(t.full_url.as_deref(), Some("https://open.spotify.com/track/3n3Ppam7vgaVa1iaRUc9Lp"));
    assert_eq!(t.artwork_url.as_deref(), Some("https://i.scdn.co/640"));
    assert_eq!(t.release_date, Some(1_086_566_400));
    assert_eq!(t.upload_date, 1_700_000_000);
    assert_eq!(t.tags, None);
}

#[test]
fn spotify_track_edge_cases() {
    let mut s = spotify_track();
    s.external_urls.clear();
    s.album_image_urls.clear();
    s.album_release_date = Some("2004".to_string());
    s.duration_ms = -5;
    let t = convert_track(&s).unwrap();
    assert!(is_v4(t.harmony_id.0));
    assert!(t.upload_date > 1_600_000_000);
    assert_eq!(t.full_url, None);
    assert_eq!(t.artwork_url, None);
    assert_eq!(t.release_date, Some(1_072_915_200));
    assert_eq!(t.duration_ms, -5);
    assert_eq!(t.to_ref().duration_ms, 0);
    s.duration_ms = i64::MAX;
    s.album_release_date = None;
    let t = convert_track(&s).unwrap();
    assert_eq!(t.duration_ms, i64::MAX);
    assert_eq!(t.to_ref().duration_ms, u32::MAX);
    assert_eq!(t.release_date, None);
    s.uri = None;
    assert!(convert_track(&s).is_none());
    assert!(convert_track_with(&s, TrackId(1), 0).is_none());
}

#[test]
fn later_dates_parse_to_later_timestamps() {
    let days = ["1999-12-31", "2000-01-01", "2000-02-28", "2000-02-29", "2000-03-01", "2023-10-27", "2024-01-01"];
    let stamps: Vec<i64> = days.iter().map(|d| parse_date_to_timestamp(d).unwrap()).collect();
    for w in stamps.windows(2) {
        assert!(w[0] < w[1]);
    }
    for (a, b) in [("1999-12-31", "2000-01-01"), ("2000-02-28", "2000-02-29"), ("2000-02-29", "2000-03-01"), ("2023-02-28", "2023-03-01")] {
        assert_eq!(parse_date_to_timestamp(b).unwrap() - parse_date_to_timestamp(a).unwrap(), 86_400, "{} {}", a, b);
    }
}

#[test]
fn login_steps() {
    match login_step(true, None) {
        LoginStep::Redirect(u) => assert_eq!(u, "http://localhost:8080"),
        other => panic!("{:?}", other),
    }
    match login_step(true, Some("http://dash".to_string())) {
        LoginStep::Redirect(u) => assert_eq!(u, "http://dash"),
        other => panic!("{:?}", other),
    }
    assert!(matches!(login_step(false, Some("http://dash".to_string())), LoginStep::FetchAuthUrl));
    assert_eq!(login_target(Ok("https://accounts.spotify.com/authorize?x".to_string())).unwrap(), "https://accounts.spotify.com/authorize?x");
    let e = login_target(Err("Failed to generate auth URL: boom".to_string())).unwrap_err();
    assert_eq!((e.status, e.message.as_str()), (500, "Failed to generate auth URL: boom"));
}

#[test]
fn callback_outcomes() {
    assert_eq!(auth_result(Ok(()), None).unwrap(), "http://localhost:8080");
    assert_eq!(auth_result(Ok(()), Some("http://dash".to_string())).unwrap(), "http://dash");
    let e = auth_result(Err("Failed to exchange code for token: x".to_string()), None).unwrap_err();
    assert_eq!((e.status, e.message.as_str()), (500, "Failed to exchange code for token: x"));
}

#[test]
fn distinct_keys_check() {
    let p = |k: &str| (k.to_string(), "v".to_string());
    assert!(has_distinct_keys(&vec![]));
    assert!(has_distinct_keys(&vec![p("spotify"), p("other")]));
    assert!(!has_distinct_keys(&vec![p("spotify"), p("other"), p("spotify")]));
}

#[test]
fn month_and_year_forms_agree_with_full_dates() {
    for y in [0, 1, 999, 1969, 2000, 2023, 9999] {
        for m in 1..=12 {
            let ym = format!("{:04}-{:02}", y, m);
            let first = format!("{:04}-{:02}-01", y, m);
            assert!(parse_date_to_timestamp(&ym).is_some(), "{}", ym);
            assert_eq!(parse_date_to_timestamp(&ym), parse_date_to_timestamp(&first), "{}", ym);
        }
        let year = format!("{:04}", y);
        assert!(parse_date_to_timestamp(&year).is_some());
        assert_eq!(parse_date_to_timestamp(&year), parse_date_to_timestamp(&format!("{:04}-01-01", y)));
    }
}

#[test]
fn timestamps_of_date_parts() {
    assert_eq!(timestamp_of_parts(Some((2023, 10, 27))), Some(1_698_364_800));
    assert_eq!(timestamp_of_parts(Some((1970, 1, 1))), Some(0));
    assert_eq!(timestamp_of_parts(Some((2023, 2, 29))), None);
    assert_eq!(timestamp_of_parts(Some((300_000, 1, 1))), None);
    assert_eq!(timestamp_of_parts(None), None);
}

#[test]
fn track_ref_duration_saturates() {
    let mut t = Track::minimal_with_id(TrackId(1), "x".to_string(), "y".to_string());
    t.duration_ms = -1;
    assert_eq!(t.to_ref().duration_ms, 0);
    t.duration_ms = 5_000_000_000;
    assert_eq!(t.to_ref().duration_ms, u32::MAX);
    t.duration_ms = 4_294_967_295;
    assert_eq!(t.to_ref().duration_ms, u32::MAX);
    t.duration_ms = 1_234;
    assert_eq!(t.to_ref().duration_ms, 1_234);
}
