use lastfm_proxy::text::{contains_str, joined, same_str};
use lastfm_proxy::types::{Image, TopArtist, TopTrack};
use lastfm_proxy::upstream::{
    cover_art_call, recent_track_call, top_albums_call, top_artists_call, top_tracks_call,
    track_info_call, Request, API_ROOT,
};

fn pairs(r: &Request) -> Vec<(&str, &str)> {
    r.query.iter().map(|(k, v)| (k.as_str(), v.as_str())).collect()
}

#[test]
fn top_artists_call_asks_for_one_weekly_artist() {
    let r = top_artists_call("test-key", "alice");
    assert_eq!(r.url, API_ROOT);
    assert_eq!(r.url, "https://ws.audioscrobbler.com/2.0/");
    assert_eq!(
        pairs(&r),
        vec![
            ("method", "user.getTopArtists"),
            ("api_key", "test-key"),
            ("format", "json"),
            ("period", "7day"),
            ("limit", "1"),
            ("user", "alice"),
        ]
    );
}

#[test]
fn top_tracks_call_asks_for_forty_eight_tracks() {
    let r = top_tracks_call("k", "bob");
    assert_eq!(
        pairs(&r),
        vec![
            ("method", "user.getTopTracks"),
            ("api_key", "k"),
            ("format", "json"),
            ("period", "7day"),
            ("limit", "48"),
            ("user", "bob"),
        ]
    );
}

#[test]
fn top_albums_call_asks_for_five_albums() {
    let r = top_albums_call("k", "bob");
    assert_eq!(
        pairs(&r),
        vec![
            ("method", "user.getTopAlbums"),
            ("api_key", "k"),
            ("format", "json"),
            ("period", "7day"),
            ("limit", "5"),
            ("user", "bob"),
        ]
    );
}

#[test]
fn recent_track_call_asks_for_the_last_track() {
    let r = recent_track_call("k", "eve");
    assert_eq!(
        pairs(&r),
        vec![
            ("method", "user.getRecentTracks"),
            ("api_key", "k"),
            ("format", "json"),
            ("user", "eve"),
            ("limit", "1"),
        ]
    );
}

#[test]
fn track_info_call_names_artist_and_track() {
    let t = TopTrack {
        name: "Song".to_string(),
        image: vec![Image { size: "large".to_string(), text: String::new() }],
        artist: TopArtist { name: "Band".to_string(), url: String::new(), image: vec![] },
        url: String::new(),
    };
    let r = track_info_call("k", &t);
    assert_eq!(
        pairs(&r),
        vec![
            ("method", "track.getInfo"),
            ("api_key", "k"),
            ("format", "json"),
            ("artist", "Band"),
            ("track", "Song"),
        ]
    );
}

#[test]
fn cover_art_call_is_keyed_by_mbid() {
    let r = cover_art_call("0a1b-2c3d");
    assert_eq!(r.url, "https://coverartarchive.org/release/0a1b-2c3d");
    assert!(r.query.is_empty());
}

#[test]
fn substring_search() {
    assert!(contains_str("https://x/2a96cbd8b46e442fc41c2b86b821562f.png", "2a96cbd8b46e442fc41c2b86b821562f"));
    assert!(contains_str("abc", ""));
    assert!(contains_str("abc", "abc"));
    assert!(!contains_str("ab", "abc"));
    assert!(!contains_str("abcabd", "abe"));
    assert!(contains_str("héllo wörld", "ö"));
}

#[test]
fn string_equality_and_joining() {
    assert!(same_str("large", "large"));
    assert!(!same_str("large", "Large"));
    assert!(!same_str("large", "larger"));
    assert_eq!(joined("ab", "cd"), "abcd");
    assert_eq!(joined("", ""), "");
}
