use vstd::prelude::*;
use vstd::string::*;
use crate::text::joined;
use crate::types::TopTrack;

verus! {

/// The endpoint of the listening-statistics service.
pub const API_ROOT: &'static str = "https://ws.audioscrobbler.com/2.0/";

/// The prefix of a release's cover-art record; the release's mbid follows it.
pub const COVER_ART_ROOT: &'static str = "https://coverartarchive.org/release/";

/// The listing period of every aggregate.
pub const PERIOD: &'static str = "7day";

/// An outbound GET request: a URL and its query parameters, in order.
#[derive(Clone, Debug)]
pub struct Request {
    pub url: String,
    pub query: Vec<(String, String)>,
}

/// The query parameters as pairs of character sequences.
pub open spec fn pairs_view(q: Seq<(String, String)>) -> Seq<(Seq<char>, Seq<char>)> {
    q.map_values(|p: (String, String)| (p.0@, p.1@))
}

/// The query of a call of `method` on the listening-statistics service: the
/// method, the service key and the JSON format selector, then `extra`.
pub open spec fn service_query(
    method: Seq<char>,
    key: Seq<char>,
    extra: Seq<(Seq<char>, Seq<char>)>,
) -> Seq<(Seq<char>, Seq<char>)> {
    seq![("method"@, method), ("api_key"@, key), ("format"@, "json"@)] + extra
}

/// The query of a call on a user's weekly listing, of at most `limit` entries.
pub open spec fn listing_query(
    method: Seq<char>,
    key: Seq<char>,
    limit: Seq<char>,
    user: Seq<char>,
) -> Seq<(Seq<char>, Seq<char>)> {
    service_query(method, key, seq![("period"@, PERIOD@), ("limit"@, limit), ("user"@, user)])
}

/// `r` is a call of the listening-statistics service with query `q`.
pub open spec fn is_service_call(r: Request, q: Seq<(Seq<char>, Seq<char>)>) -> bool {
    r.url@ == API_ROOT@ && pairs_view(r.query@) == q
}

fn pair(k: &str, v: &str) -> (r: (String, String))
    ensures
        r.0@ == k@,
        r.1@ == v@,
{
    (String::from_str(k), String::from_str(v))
}

/// A call of `method` on the listening-statistics service, with `extra`
/// after the fixed parameters.
pub fn service_call(method: &str, key: &str, extra: Vec<(String, String)>) -> (r: Request)
    ensures
        is_service_call(r, service_query(method@, key@, pairs_view(extra@))),
{
    let mut query: Vec<(String, String)> = Vec::new();
    query.push(pair("method", method));
    query.push(pair("api_key", key));
    query.push(pair("format", "json"));
    let mut i: usize = 0;
    while i < extra.len()
        invariant
            query@.len() == 3 + i,
            i <= extra@.len(),
            pairs_view(query@) =~= service_query(
                method@,
                key@,
                pairs_view(extra@.subrange(0, i as int)),
            ),
        decreases extra@.len() - i,
    {
        let ghost before = pairs_view(query@);
        let (k, v) = (extra[i].0.clone(), extra[i].1.clone());
        query.push((k, v));
        assert(pairs_view(query@) =~= before.push((k@, v@)));
        assert(pairs_view(extra@.subrange(0, i + 1)) =~= pairs_view(
            extra@.subrange(0, i as int),
        ).push((k@, v@)));
        i = i + 1;
    }
    assert(extra@.subrange(0, extra@.len() as int) =~= extra@);
    Request { url: String::from_str(API_ROOT), query }
}

/// A call on `user`'s weekly listing through `method`, of at most `limit` entries.
pub fn listing_call(method: &str, key: &str, limit: &str, user: &str) -> (r: Request)
    ensures
        is_service_call(r, listing_query(method@, key@, limit@, user@)),
{
    let mut extra: Vec<(String, String)> = Vec::new();
    extra.push(pair("period", PERIOD));
    extra.push(pair("limit", limit));
    extra.push(pair("user", user));
    assert(pairs_view(extra@) =~= seq![("period"@, PERIOD@), ("limit"@, limit@), ("user"@, user@)]);
    service_call(method, key, extra)
}

/// The call for `user`'s top artist of the week.
pub fn top_artists_call(key: &str, user: &str) -> (r: Request)
    ensures
        is_service_call(r, listing_query("user.getTopArtists"@, key@, "1"@, user@)),
{
    listing_call("user.getTopArtists", key, "1", user)
}

/// The call for `user`'s top tracks of the week.
pub fn top_tracks_call(key: &str, user: &str) -> (r: Request)
    ensures
        is_service_call(r, listing_query("user.getTopTracks"@, key@, "48"@, user@)),
{
    listing_call("user.getTopTracks", key, "48", user)
}

/// The call for `user`'s top albums of the week.
pub fn top_albums_call(key: &str, user: &str) -> (r: Request)
    ensures
        is_service_call(r, listing_query("user.getTopAlbums"@, key@, "5"@, user@)),
{
    listing_call("user.getTopAlbums", key, "5", user)
}

/// The call for the track that `user` played last.
pub fn recent_track_call(key: &str, user: &str) -> (r: Request)
    ensures
        is_service_call(
            r,
            service_query("user.getRecentTracks"@, key@, seq![("user"@, user@), ("limit"@, "1"@)]),
        ),
{
    let mut extra: Vec<(String, String)> = Vec::new();
    extra.push(pair("user", user));
    extra.push(pair("limit", "1"));
    assert(pairs_view(extra@) =~= seq![("user"@, user@), ("limit"@, "1"@)]);
    service_call("user.getRecentTracks", key, extra)
}

/// The track-info call for `track`, by its artist's name and its own.
pub fn track_info_call(key: &str, track: &TopTrack) -> (r: Request)
    ensures
        is_service_call(
            r,
            service_query(
                "track.getInfo"@,
                key@,
                seq![("artist"@, track.artist.name@), ("track"@, track.name@)],
            ),
        ),
{
    let mut extra: Vec<(String, String)> = Vec::new();
    extra.push(pair("artist", track.artist.name.as_str()));
    extra.push(pair("track", track.name.as_str()));
    assert(pairs_view(extra@) =~= seq![("artist"@, track.artist.name@), ("track"@, track.name@)]);
    service_call("track.getInfo", key, extra)
}

/// The call for the cover-art record of the release `mbid`.
pub fn cover_art_call(mbid: &str) -> (r: Request)
    ensures
        r.url@ == COVER_ART_ROOT@ + mbid@,
        r.query@.len() == 0,
{
    Request { url: joined(COVER_ART_ROOT, mbid), query: Vec::new() }
}

} // verus!
