use vstd::prelude::*;
use crate::aggregate::{on_top_albums, on_top_artists, on_top_tracks, top_artist_outcome, top_tracks_outcome};
use crate::enrich::{attach_cover, cover_of, enriched_images, has_mbid, shows_placeholder, with_cover};
use crate::error::{listing_error, AggregateError, FetchError};
use crate::types::{Album, CoverArt, LastFMResponse, TopAlbums, TopArtist, TopArtists, TopTrack, TopTracks, TrackInfo};
use crate::upstream::{
    cover_art_call, is_service_call, listing_query, service_query, top_albums_call,
    top_artists_call, top_tracks_call, track_info_call, Request, COVER_ART_ROOT,
};

verus! {

/// The top-tracks aggregate waits for the user's top artist.
pub struct ArtistsStage {
    key: String,
    user: String,
}

/// The top-tracks aggregate waits for the user's top tracks.
pub struct TracksStage {
    key: String,
    user: String,
    artist: Option<TopArtist>,
}

/// The top-tracks aggregate waits for the track-info lookup of track `at`.
pub struct EnrichStage {
    key: String,
    resp: LastFMResponse,
    at: usize,
}

/// What follows a reply during enrichment: a lookup, or the finished aggregate.
pub enum EnrichStep {
    Lookup(EnrichStage, Request),
    Done(LastFMResponse),
}

/// The top-albums aggregate waits for the user's album listing.
pub struct AlbumsStage {
    user: String,
}

/// The top-albums aggregate waits for the cover art of album `at`.
pub struct CoverStage {
    albums: Vec<Album>,
    at: usize,
}

/// What follows a reply during the cover-art lookups: a lookup, or the
/// finished album list.
pub enum CoverStep {
    Lookup(CoverStage, Request),
    Done(Vec<Album>),
}

/// `j` is the first track at or after `from` whose artwork is the placeholder.
pub open spec fn first_placeholder_from(ts: Seq<TopTrack>, from: int, j: int) -> bool {
    &&& from <= j < ts.len()
    &&& shows_placeholder(ts[j].image@)
    &&& forall|k: int| from <= k < j ==> !shows_placeholder(#[trigger] ts[k].image@)
}

/// No track at or after `from` shows the placeholder.
pub open spec fn no_placeholder_from(ts: Seq<TopTrack>, from: int) -> bool {
    forall|k: int| from <= k < ts.len() ==> !shows_placeholder(#[trigger] ts[k].image@)
}

/// The query of the track-info lookup of `t`.
pub open spec fn info_query(key: Seq<char>, t: TopTrack) -> Seq<(Seq<char>, Seq<char>)> {
    service_query("track.getInfo"@, key, seq![("artist"@, t.artist.name@), ("track"@, t.name@)])
}

/// `new` is `old` with track `j` enriched by the lookup result `info`.
pub open spec fn enriched_at(
    old: LastFMResponse,
    j: int,
    info: Result<TrackInfo, FetchError>,
    new: LastFMResponse,
) -> bool {
    &&& new.top_artist == old.top_artist
    &&& new.top_tracks@.len() == old.top_tracks@.len()
    &&& new.top_tracks@[j].image@ == enriched_images(old.top_tracks@[j].image@, info)
    &&& new.top_tracks@[j].name == old.top_tracks@[j].name
    &&& new.top_tracks@[j].artist == old.top_tracks@[j].artist
    &&& new.top_tracks@[j].url == old.top_tracks@[j].url
    &&& forall|k: int| 0 <= k < old.top_tracks@.len() && k != j ==> #[trigger] new.top_tracks@[k] == old.top_tracks@[k]
}

/// The aggregate that an enrichment step carries.
pub open spec fn carried(step: EnrichStep) -> LastFMResponse {
    match step {
        EnrichStep::Lookup(s, _) => s.resp(),
        EnrichStep::Done(r) => r,
    }
}

/// Enrichment of `resp` goes on from track `from`: `step` looks up the first
/// placeholder track from there on, or, when there is none, hands `resp` back.
pub open spec fn enrich_continues(key: Seq<char>, resp: LastFMResponse, from: int, step: EnrichStep) -> bool {
    match step {
        EnrichStep::Lookup(s, req) => {
            &&& s.key()@ == key
            &&& s.resp() == resp
            &&& first_placeholder_from(resp.top_tracks@, from, s.at() as int)
            &&& is_service_call(req, info_query(key, resp.top_tracks@[s.at() as int]))
        },
        EnrichStep::Done(r) => r == resp && no_placeholder_from(resp.top_tracks@, from),
    }
}

/// The cover-art lookups of `albums` go on from album `from`: `step` looks
/// up that album's cover art, or, past the last album, hands `albums` back.
pub open spec fn covers_continue(albums: Seq<Album>, from: int, step: CoverStep) -> bool {
    match step {
        CoverStep::Lookup(s, req) => {
            &&& s.albums() == albums
            &&& s.at() == from
            &&& from < albums.len()
            &&& req.url@ == COVER_ART_ROOT@ + albums[from].mbid@
            &&& req.query@.len() == 0
        },
        CoverStep::Done(v) => from >= albums.len() && v@ == albums,
    }
}

impl ArtistsStage {
    pub closed spec fn key(self) -> String {
        self.key
    }

    pub closed spec fn user(self) -> String {
        self.user
    }

    /// Starts the top-tracks aggregate of `user`, with the service key `key`:
    /// the first call asks for the user's top artist of the week.
    pub fn start(key: String, user: String) -> (r: (ArtistsStage, Request))
        ensures
            r.0.key() == key,
            r.0.user() == user,
            is_service_call(r.1, listing_query("user.getTopArtists"@, key@, "1"@, user@)),
    {
        let req = top_artists_call(key.as_str(), user.as_str());
        (ArtistsStage { key, user }, req)
    }

    /// Takes the top-artists reply: an unknown user ends the aggregate;
    /// otherwise the next call asks for the user's top tracks.
    pub fn on_reply(self, reply: Result<TopArtists, FetchError>) -> (r: Result<(TracksStage, Request), AggregateError>)
        ensures
            match top_artist_outcome(self.user(), reply) {
                Err(e) => r == Err::<(TracksStage, Request), AggregateError>(e),
                Ok(a) => r is Ok && r->Ok_0.0.key() == self.key() && r->Ok_0.0.user() == self.user()
                    && r->Ok_0.0.artist() == a && is_service_call(
                    r->Ok_0.1,
                    listing_query("user.getTopTracks"@, self.key()@, "48"@, self.user()@),
                ),
            },
    {
        let ArtistsStage { key, user } = self;
        let artist = on_top_artists(user.clone(), reply)?;
        let req = top_tracks_call(key.as_str(), user.as_str());
        Ok((TracksStage { key, user, artist }, req))
    }
}

impl TracksStage {
    pub closed spec fn key(self) -> String {
        self.key
    }

    pub closed spec fn user(self) -> String {
        self.user
    }

    pub closed spec fn artist(self) -> Option<TopArtist> {
        self.artist
    }

    /// Takes the top-tracks reply: the aggregate fails as `on_top_tracks`
    /// says, or enrichment starts at the first track.
    pub fn on_reply(self, reply: Result<TopTracks, FetchError>) -> (r: Result<EnrichStep, AggregateError>)
        ensures
            match top_tracks_outcome(self.user(), self.artist(), reply) {
                Err(e) => r == Err::<EnrichStep, AggregateError>(e),
                Ok(resp) => r is Ok && enrich_continues(self.key()@, resp, 0, r->Ok_0),
            },
    {
        let TracksStage { key, user, artist } = self;
        let resp = on_top_tracks(user, artist, reply)?;
        Ok(EnrichStage::resume(key, resp, 0))
    }
}

impl EnrichStage {
    #[verifier::type_invariant]
    spec fn inv(self) -> bool {
        self.at < self.resp.top_tracks@.len()
    }

    pub closed spec fn key(self) -> String {
        self.key
    }

    pub closed spec fn resp(self) -> LastFMResponse {
        self.resp
    }

    pub closed spec fn at(self) -> usize {
        self.at
    }

    /// Goes on with the enrichment of `resp` from track `from`.
    fn resume(key: String, resp: LastFMResponse, from: usize) -> (r: EnrichStep)
        ensures
            enrich_continues(key@, resp, from as int, r),
    {
        match resp.next_to_enrich(from) {
            Some(j) => {
                let req = track_info_call(key.as_str(), &resp.top_tracks[j]);
                EnrichStep::Lookup(EnrichStage { key, resp, at: j }, req)
            },
            None => EnrichStep::Done(resp),
        }
    }

    /// Takes the track-info reply of the track in question, enriches it, and
    /// goes on with the tracks after it.
    pub fn on_info(self, info: Result<TrackInfo, FetchError>) -> (r: EnrichStep)
        ensures
            enriched_at(self.resp(), self.at() as int, info, carried(r)),
            enrich_continues(self.key()@, carried(r), self.at() + 1, r),
    {
        proof {
            use_type_invariant(&self);
        }
        let EnrichStage { key, mut resp, at } = self;
        let n = resp.top_tracks.len();
        assert(at < n);
        resp.apply_track_info(at, info);
        EnrichStage::resume(key, resp, at + 1)
    }
}

impl AlbumsStage {
    pub closed spec fn user(self) -> String {
        self.user
    }

    /// Starts the top-albums aggregate of `user`, with the service key `key`:
    /// the first call asks for the user's top albums of the week.
    pub fn start(key: &str, user: String) -> (r: (AlbumsStage, Request))
        ensures
            r.0.user() == user,
            is_service_call(r.1, listing_query("user.getTopAlbums"@, key@, "5"@, user@)),
    {
        let req = top_albums_call(key, user.as_str());
        (AlbumsStage { user }, req)
    }

    /// Takes the album listing: the aggregate fails as `on_top_albums` says,
    /// or the cover-art lookups start with the first album that has an mbid.
    pub fn on_reply(self, reply: Result<TopAlbums, FetchError>) -> (r: Result<CoverStep, AggregateError>)
        ensures
            match reply {
                Ok(t) => if t.data.albums@.len() == 0 {
                    r == Err::<CoverStep, AggregateError>(AggregateError::NoListeningData(self.user()))
                } else {
                    r is Ok && covers_continue(t.data.albums@.filter(|a: Album| has_mbid(a)), 0, r->Ok_0)
                },
                Err(e) => r == Err::<CoverStep, AggregateError>(listing_error(e, self.user())),
            },
    {
        let albums = on_top_albums(self.user, reply)?;
        Ok(CoverStage::resume(albums, 0))
    }
}

impl CoverStage {
    #[verifier::type_invariant]
    spec fn inv(self) -> bool {
        &&& self.at < self.albums@.len()
        &&& forall|i: int| 0 <= i < self.albums@.len() ==> has_mbid(#[trigger] self.albums@[i])
    }

    pub closed spec fn albums(self) -> Seq<Album> {
        self.albums@
    }

    pub closed spec fn at(self) -> usize {
        self.at
    }

    /// Goes on with the cover-art lookups of `albums` from album `from`.
    fn resume(albums: Vec<Album>, from: usize) -> (r: CoverStep)
        requires
            forall|i: int| 0 <= i < albums@.len() ==> has_mbid(#[trigger] albums@[i]),
        ensures
            covers_continue(albums@, from as int, r),
    {
        if from < albums.len() {
            let req = cover_art_call(albums[from].mbid.as_str());
            CoverStep::Lookup(CoverStage { albums, at: from }, req)
        } else {
            CoverStep::Done(albums)
        }
    }

    /// Takes the cover-art reply of the album in question, attaches it, and
    /// goes on with the next album. No album of the list lacks an mbid.
    pub fn on_cover(self, reply: Result<CoverArt, FetchError>) -> (r: CoverStep)
        ensures
            covers_continue(
                self.albums().update(
                    self.at() as int,
                    with_cover(self.albums()[self.at() as int], cover_of(reply)),
                ),
                self.at() + 1,
                r,
            ),
            r matches CoverStep::Done(v) ==> forall|i: int| 0 <= i < v@.len() ==> has_mbid(#[trigger] v@[i]),
    {
        proof {
            use_type_invariant(&self);
        }
        let CoverStage { mut albums, at } = self;
        let n = albums.len();
        assert(at < n);
        let ghost before = albums@;
        let mut album = albums.remove(at);
        attach_cover(&mut album, reply);
        albums.insert(at, album);
        assert(albums@ =~= before.update(at as int, with_cover(before[at as int], cover_of(reply))));
        assert forall|i: int| 0 <= i < albums@.len() implies has_mbid(#[trigger] albums@[i]) by {
            if i != at {
                assert(albums@[i] == before[i]);
            }
        }
        CoverStage::resume(albums, at + 1)
    }
}

/// Enrichment of an already enriched aggregate, in which no track shows the
/// placeholder, makes no lookup and hands the aggregate back unchanged.
pub proof fn lemma_enriched_aggregate_is_settled(key: Seq<char>, resp: LastFMResponse, step: EnrichStep)
    requires
        no_placeholder_from(resp.top_tracks@, 0),
        enrich_continues(key, resp, 0, step),
    ensures
        step == EnrichStep::Done(resp),
{
    if let EnrichStep::Lookup(s, _) = step {
        assert(!shows_placeholder(resp.top_tracks@[s.at() as int].image@));
    }
}

} // verus!
