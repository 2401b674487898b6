use vstd::prelude::*;

verus! {

/// One image variant of an artist, track or album, labelled by its size
/// (`small`, `medium`, `large`, `extralarge`, ...); `text` is its URL.
#[derive(Clone, Debug)]
pub struct Image {
    pub size: String,
    pub text: String,
}

/// An artist as the top-artists listing describes it.
#[derive(Clone, Debug)]
pub struct TopArtist {
    pub name: String,
    pub url: String,
    pub image: Vec<Image>,
}

/// The body of a top-artists listing.
#[derive(Clone, Debug)]
pub struct TopArtistsData {
    pub artist: Vec<TopArtist>,
}

/// A top-artists reply.
#[derive(Clone, Debug)]
pub struct TopArtists {
    pub topartists: TopArtistsData,
}

/// A track of a top-tracks listing; its image set is replaced during enrichment.
#[derive(Clone, Debug)]
pub struct TopTrack {
    pub name: String,
    pub image: Vec<Image>,
    pub artist: TopArtist,
    pub url: String,
}

/// The body of a top-tracks listing.
#[derive(Clone, Debug)]
pub struct TopTracksData {
    pub track: Vec<TopTrack>,
}

/// A top-tracks reply.
#[derive(Clone, Debug)]
pub struct TopTracks {
    pub toptracks: TopTracksData,
}

/// What the top-tracks route answers: the user's top artist of the week, if
/// any, and the enriched list of their top tracks.
#[derive(Clone, Debug)]
pub struct LastFMResponse {
    pub top_artist: Option<TopArtist>,
    pub top_tracks: Vec<TopTrack>,
}

/// A top-albums reply.
#[derive(Clone, Debug)]
pub struct TopAlbums {
    pub data: TopAlbumsData,
}

/// The body of a top-albums listing.
#[derive(Clone, Debug)]
pub struct TopAlbumsData {
    pub albums: Vec<Album>,
}

/// An album of a top-albums listing; `mbid` may be empty, and `cover_art` is
/// filled in by the cover-art lookup.
#[derive(Clone, Debug)]
pub struct Album {
    pub artist: Artist,
    pub mbid: String,
    pub url: String,
    pub cover_art: Option<CoverArt>,
}

/// The artist of an album.
#[derive(Clone, Debug)]
pub struct Artist {
    pub url: String,
    pub name: String,
    pub mbid: String,
}

/// The cover-art record of one release.
#[derive(Clone, Debug)]
pub struct CoverArt {
    pub images: Vec<CoverArtImage>,
    pub release: String,
}

/// One image of a release's cover art.
#[derive(Clone, Debug)]
pub struct CoverArtImage {
    pub back: bool,
    pub front: bool,
    pub id: i64,
    pub image: String,
    pub thumbnails: Thumbnails,
}

/// The thumbnail URLs of a cover-art image, by size.
#[derive(Clone, Debug)]
pub struct Thumbnails {
    pub n1200: String,
    pub n250: String,
    pub n500: String,
    pub large: String,
    pub small: String,
}

/// What a track-info lookup says of a track's artwork: the image set of the
/// album the track belongs to, when the reply names an album that has one,
/// and the track's own image set, when the reply has one.
#[derive(Clone, Debug)]
pub struct TrackInfo {
    pub album_image: Option<Vec<Image>>,
    pub image: Option<Vec<Image>>,
}

} // verus!
