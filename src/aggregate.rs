use vstd::prelude::*;
use crate::enrich::{
    albums_with_mbid, cover_of, enrich_track, enriched_images, has_mbid, info_images,
    needs_track_info, shows_placeholder, with_cover,
};
use crate::error::{
    listing_error, map_listing_error, map_upstream_error, upstream_error, AggregateError,
    FetchError,
};
use crate::types::{Album, CoverArt, LastFMResponse, TopAlbums, TopArtist, TopArtists, TopTracks, TrackInfo};

verus! {

/// The outcome of the top-artists call: the user's top artist, or none when
/// the user listened to nothing; a rejected call means an unknown user.
pub open spec fn top_artist_outcome(user: String, reply: Result<TopArtists, FetchError>) -> Result<
    Option<TopArtist>,
    AggregateError,
> {
    match reply {
        Ok(t) => Ok(
            if t.topartists.artist@.len() > 0 {
                Some(t.topartists.artist@[0])
            } else {
                None
            },
        ),
        Err(e) => Err(listing_error(e, user)),
    }
}

/// The outcome of the top-tracks call, before enrichment: the listing with
/// the top artist, unless there is neither an artist nor a track.
pub open spec fn top_tracks_outcome(
    user: String,
    artist: Option<TopArtist>,
    reply: Result<TopTracks, FetchError>,
) -> Result<LastFMResponse, AggregateError> {
    match reply {
        Ok(t) => if artist is None && t.toptracks.track@.len() == 0 {
            Err(AggregateError::NoListeningData(user))
        } else {
            Ok(LastFMResponse { top_artist: artist, top_tracks: t.toptracks.track })
        },
        Err(e) => Err(upstream_error(e)),
    }
}

/// Reads the reply of the top-artists call for `user`.
pub fn on_top_artists(user: String, reply: Result<TopArtists, FetchError>) -> (r: Result<
    Option<TopArtist>,
    AggregateError,
>)
    ensures
        r == top_artist_outcome(user, reply),
{
    match reply {
        Ok(t) => {
            let mut artists = t.topartists.artist;
            if artists.len() > 0 {
                Ok(Some(artists.remove(0)))
            } else {
                Ok(None)
            }
        },
        Err(e) => Err(map_listing_error(e, user)),
    }
}

/// Reads the reply of the top-tracks call for `user`, whose top artist is
/// `artist`. A user with an artist and no track gets an empty track list; a
/// user with neither gets `NoListeningData`.
pub fn on_top_tracks(
    user: String,
    artist: Option<TopArtist>,
    reply: Result<TopTracks, FetchError>,
) -> (r: Result<LastFMResponse, AggregateError>)
    ensures
        r == top_tracks_outcome(user, artist, reply),
        reply is Ok && artist is Some ==> r is Ok && r->Ok_0.top_artist == artist,
        reply is Ok && artist is None && reply->Ok_0.toptracks.track@.len() == 0 ==> r
            == Err::<LastFMResponse, AggregateError>(AggregateError::NoListeningData(user)),
{
    match reply {
        Ok(t) => if artist.is_none() && t.toptracks.track.len() == 0 {
            Err(AggregateError::NoListeningData(user))
        } else {
            Ok(LastFMResponse { top_artist: artist, top_tracks: t.toptracks.track })
        },
        Err(e) => Err(map_upstream_error(e)),
    }
}

impl LastFMResponse {
    /// The first track at or after `from` whose artwork is the placeholder.
    pub fn next_to_enrich(&self, from: usize) -> (r: Option<usize>)
        ensures
            match r {
                Some(j) => from <= j < self.top_tracks@.len() && shows_placeholder(
                    self.top_tracks@[j as int].image@,
                ) && forall|k: int|
                    from <= k < j ==> !shows_placeholder(#[trigger] self.top_tracks@[k].image@),
                None => forall|k: int|
                    from <= k < self.top_tracks@.len() ==> !shows_placeholder(
                        #[trigger] self.top_tracks@[k].image@,
                    ),
            },
    {
        let mut j: usize = from;
        while j < self.top_tracks.len()
            invariant
                from <= j || j >= self.top_tracks@.len(),
                forall|k: int|
                    from <= k < j ==> !shows_placeholder(#[trigger] self.top_tracks@[k].image@),
            decreases self.top_tracks@.len() - j,
        {
            if needs_track_info(&self.top_tracks[j]) {
                return Some(j);
            }
            j = j + 1;
        }
        None
    }

    /// Enriches track `i` with the lookup result `info`; the other tracks
    /// and the top artist stay as they are.
    pub fn apply_track_info(&mut self, i: usize, info: Result<TrackInfo, FetchError>)
        requires
            i < old(self).top_tracks@.len(),
        ensures
            final(self).top_artist == old(self).top_artist,
            final(self).top_tracks@.len() == old(self).top_tracks@.len(),
            final(self).top_tracks@[i as int].image@ == enriched_images(
                old(self).top_tracks@[i as int].image@,
                info,
            ),
            final(self).top_tracks@[i as int].name == old(self).top_tracks@[i as int].name,
            final(self).top_tracks@[i as int].artist == old(self).top_tracks@[i as int].artist,
            final(self).top_tracks@[i as int].url == old(self).top_tracks@[i as int].url,
            forall|k: int|
                0 <= k < old(self).top_tracks@.len() && k != i ==> (#[trigger] final(self).top_tracks@[k])
                    == old(self).top_tracks@[k],
    {
        let mut track = self.top_tracks.remove(i);
        enrich_track(&mut track, info);
        self.top_tracks.insert(i, track);
    }
}

/// Reads the reply of the top-albums call for `user`: the albums that have
/// an mbid, in their order; `NoListeningData` when the listing is empty.
pub fn on_top_albums(user: String, reply: Result<TopAlbums, FetchError>) -> (r: Result<
    Vec<Album>,
    AggregateError,
>)
    ensures
        match reply {
            Ok(t) => if t.data.albums@.len() == 0 {
                r == Err::<Vec<Album>, AggregateError>(AggregateError::NoListeningData(user))
            } else {
                r is Ok && r->Ok_0@ == t.data.albums@.filter(|a: Album| has_mbid(a))
            },
            Err(e) => r == Err::<Vec<Album>, AggregateError>(listing_error(e, user)),
        },
        r is Ok ==> forall|i: int| 0 <= i < r->Ok_0@.len() ==> has_mbid(#[trigger] r->Ok_0@[i]),
{
    match reply {
        Ok(t) => if t.data.albums.len() == 0 {
            Err(AggregateError::NoListeningData(user))
        } else {
            Ok(albums_with_mbid(t.data.albums))
        },
        Err(e) => Err(map_listing_error(e, user)),
    }
}

/// Enrichment settles: once a track's image set no longer shows the
/// placeholder, a further pass asks for no lookup and leaves it as it is,
/// whatever a lookup would return.
pub proof fn lemma_track_enrichment_idempotent(
    imgs: Seq<crate::types::Image>,
    first: Result<TrackInfo, FetchError>,
    second: Result<TrackInfo, FetchError>,
)
    requires
        !shows_placeholder(enriched_images(imgs, first)),
    ensures
        enriched_images(enriched_images(imgs, first), second) == enriched_images(imgs, first),
{
}

/// A looked-up image set without the placeholder settles the track after
/// one pass.
pub proof fn lemma_enriched_track_settled(
    imgs: Seq<crate::types::Image>,
    info: Result<TrackInfo, FetchError>,
)
    requires
        !shows_placeholder(info_images(info)),
    ensures
        !shows_placeholder(enriched_images(imgs, info)),
{
}

/// Album enrichment is idempotent: attaching the same cover-art lookup
/// result twice gives the album of one pass.
pub proof fn lemma_album_enrichment_idempotent(a: Album, reply: Result<CoverArt, FetchError>)
    ensures
        with_cover(with_cover(a, cover_of(reply)), cover_of(reply)) == with_cover(a, cover_of(reply)),
{
}

} // verus!
