use lastfm_proxy::error::{AggregateError, FetchError};
use lastfm_proxy::pipeline::{AlbumsStage, ArtistsStage, CoverStep, EnrichStep};
use lastfm_proxy::types::{
    Album, Artist, CoverArt, CoverArtImage, Image, Thumbnails, TopAlbums, TopAlbumsData, TopArtist,
    TopArtists, TopArtistsData, TopTrack, TopTracks, TopTracksData, TrackInfo,
};
use lastfm_proxy::upstream::Request;

const PLACEHOLDER_URL: &str =
    "https://lastfm.freetls.fastly.net/i/u/300x300/2a96cbd8b46e442fc41c2b86b821562f.png";

fn img(size: &str, text: &str) -> Image {
    Image { size: size.to_string(), text: text.to_string() }
}

fn artist(name: &str) -> TopArtist {
    TopArtist { name: name.to_string(), url: String::new(), image: vec![img("large", "a.png")] }
}

fn track(name: &str, large: &str) -> TopTrack {
    TopTrack {
        name: name.to_string(),
        image: vec![img("small", "s.png"), img("medium", "m.png"), img("large", large)],
        artist: artist("X"),
        url: String::new(),
    }
}

fn value_of<'a>(r: &'a Request, k: &str) -> Option<&'a str> {
    r.query.iter().find(|(a, _)| a == k).map(|(_, b)| b.as_str())
}

fn urls(imgs: &[Image]) -> Vec<String> {
    imgs.iter().map(|i| i.text.clone()).collect()
}

fn album(mbid: &str) -> Album {
    Album {
        artist: Artist { url: String::new(), name: "X".to_string(), mbid: String::new() },
        mbid: mbid.to_string(),
        url: String::new(),
        cover_art: None,
    }
}

fn cover(url: &str) -> CoverArt {
    CoverArt {
        images: vec![CoverArtImage {
            back: false,
            front: true,
            id: 1,
            image: url.to_string(),
            thumbnails: Thumbnails {
                n1200: String::new(),
                n250: String::new(),
                n500: String::new(),
                large: String::new(),
                small: String::new(),
            },
        }],
        release: String::new(),
    }
}

#[test]
fn top_tracks_pipeline_enriches_placeholder_tracks() {
    let (stage, req) = ArtistsStage::start("k".to_string(), "alice".to_string());
    assert_eq!(value_of(&req, "method"), Some("user.getTopArtists"));
    assert_eq!(value_of(&req, "user"), Some("alice"));
    let reply = Ok(TopArtists { topartists: TopArtistsData { artist: vec![artist("X")] } });
    let (stage, req) = stage.on_reply(reply).ok().unwrap();
    assert_eq!(value_of(&req, "method"), Some("user.getTopTracks"));
    assert_eq!(value_of(&req, "limit"), Some("48"));
    let tracks = vec![track("a", "real.png"), track("b", PLACEHOLDER_URL), track("c", PLACEHOLDER_URL)];
    let step = stage.on_reply(Ok(TopTracks { toptracks: TopTracksData { track: tracks } })).ok().unwrap();
    let step = match step {
        EnrichStep::Lookup(s, req) => {
            assert_eq!(value_of(&req, "method"), Some("track.getInfo"));
            assert_eq!(value_of(&req, "track"), Some("b"));
            assert_eq!(value_of(&req, "artist"), Some("X"));
            s.on_info(Ok(TrackInfo { album_image: Some(vec![img("large", "album-b.png")]), image: None }))
        }
        EnrichStep::Done(_) => panic!("track b needs a lookup"),
    };
    let step = match step {
        EnrichStep::Lookup(s, req) => {
            assert_eq!(value_of(&req, "track"), Some("c"));
            s.on_info(Err(FetchError::Unavailable))
        }
        EnrichStep::Done(_) => panic!("track c needs a lookup"),
    };
    match step {
        EnrichStep::Done(resp) => {
            assert_eq!(resp.top_artist.unwrap().name, "X");
            assert_eq!(urls(&resp.top_tracks[0].image), vec!["s.png", "m.png", "real.png"]);
            assert_eq!(urls(&resp.top_tracks[1].image), vec!["album-b.png"]);
            assert!(resp.top_tracks[2].image.is_empty());
        }
        EnrichStep::Lookup(..) => panic!("no track is left to enrich"),
    }
}

#[test]
fn top_tracks_pipeline_without_placeholders_makes_no_lookup() {
    let (stage, _) = ArtistsStage::start("k".to_string(), "u".to_string());
    let (stage, _) = stage.on_reply(Ok(TopArtists { topartists: TopArtistsData { artist: vec![] } })).ok().unwrap();
    let step = stage
        .on_reply(Ok(TopTracks { toptracks: TopTracksData { track: vec![track("a", "real.png")] } }))
        .ok()
        .unwrap();
    match step {
        EnrichStep::Done(resp) => {
            assert!(resp.top_artist.is_none());
            assert_eq!(resp.top_tracks.len(), 1);
        }
        EnrichStep::Lookup(..) => panic!("nothing to enrich"),
    }
}

#[test]
fn top_tracks_pipeline_stops_on_unknown_user() {
    let (stage, _) = ArtistsStage::start("k".to_string(), "unknownuser".to_string());
    match stage.on_reply(Err(FetchError::Status(404))) {
        Err(e) => assert_eq!(e.message(), "user unknownuser not found"),
        Ok(_) => panic!("expected an error"),
    }
}

#[test]
fn top_tracks_pipeline_with_no_data_fails() {
    let (stage, _) = ArtistsStage::start("k".to_string(), "quiet".to_string());
    let (stage, _) = stage.on_reply(Ok(TopArtists { topartists: TopArtistsData { artist: vec![] } })).ok().unwrap();
    let r = stage.on_reply(Ok(TopTracks { toptracks: TopTracksData { track: vec![] } }));
    assert!(matches!(r, Err(AggregateError::NoListeningData(ref u)) if u == "quiet"));
}

#[test]
fn top_albums_pipeline_looks_up_each_album_with_mbid() {
    let (stage, req) = AlbumsStage::start("k", "bob".to_string());
    assert_eq!(value_of(&req, "method"), Some("user.getTopAlbums"));
    assert_eq!(value_of(&req, "limit"), Some("5"));
    let listing = TopAlbums { data: TopAlbumsData { albums: vec![album(""), album("m1"), album(""), album("m2")] } };
    let step = stage.on_reply(Ok(listing)).ok().unwrap();
    let step = match step {
        CoverStep::Lookup(s, req) => {
            assert_eq!(req.url, "https://coverartarchive.org/release/m1");
            s.on_cover(Ok(cover("https://img/m1.jpg")))
        }
        CoverStep::Done(_) => panic!("album m1 needs a lookup"),
    };
    let step = match step {
        CoverStep::Lookup(s, req) => {
            assert_eq!(req.url, "https://coverartarchive.org/release/m2");
            s.on_cover(Err(FetchError::Status(404)))
        }
        CoverStep::Done(_) => panic!("album m2 needs a lookup"),
    };
    match step {
        CoverStep::Done(albums) => {
            assert_eq!(albums.len(), 2);
            assert_eq!(albums[0].mbid, "m1");
            assert_eq!(albums[0].cover_art.as_ref().unwrap().images[0].image, "https://img/m1.jpg");
            assert_eq!(albums[1].mbid, "m2");
            assert!(albums[1].cover_art.is_none());
        }
        CoverStep::Lookup(..) => panic!("no album is left"),
    }
}

#[test]
fn top_albums_pipeline_without_mbids_is_empty() {
    let (stage, _) = AlbumsStage::start("k", "u".to_string());
    let listing = TopAlbums { data: TopAlbumsData { albums: vec![album("")] } };
    match stage.on_reply(Ok(listing)).ok().unwrap() {
        CoverStep::Done(albums) => assert!(albums.is_empty()),
        CoverStep::Lookup(..) => panic!("no album has an mbid"),
    }
}

#[test]
fn top_albums_pipeline_errors() {
    let (stage, _) = AlbumsStage::start("k", "nobody".to_string());
    assert!(matches!(stage.on_reply(Err(FetchError::Status(404))), Err(AggregateError::UserNotFound(_))));
    let (stage, _) = AlbumsStage::start("k", "quiet".to_string());
    let empty = TopAlbums { data: TopAlbumsData { albums: vec![] } };
    assert!(matches!(stage.on_reply(Ok(empty)), Err(AggregateError::NoListeningData(_))));
    let (stage, _) = AlbumsStage::start("k", "x".to_string());
    assert!(matches!(stage.on_reply(Err(FetchError::Malformed)), Err(AggregateError::UpstreamMalformed)));
}
