use vstd::prelude::*;
use crate::error::FetchError;
use crate::text::{contains_str, has_substring, same_str};
use crate::types::{Album, CoverArt, Image, TopTrack, TrackInfo};

verus! {

/// The size label of the image variant that shows whether artwork is missing.
pub const LARGE: &'static str = "large";

/// The content hash in the URL of the service's "no artwork" image.
pub const PLACEHOLDER_HASH: &'static str = "2a96cbd8b46e442fc41c2b86b821562f";

pub open spec fn is_large(img: Image) -> bool {
    img.size@ == LARGE@
}

/// `imgs[i]` is the first image of `imgs` labelled `large`.
pub open spec fn first_large_at(imgs: Seq<Image>, i: int) -> bool {
    &&& 0 <= i < imgs.len()
    &&& is_large(imgs[i])
    &&& forall|j: int| 0 <= j < i ==> !is_large(#[trigger] imgs[j])
}

/// The image set's `large` variant is the placeholder: its URL holds the
/// placeholder hash.
pub open spec fn shows_placeholder(imgs: Seq<Image>) -> bool {
    exists|i: int| #[trigger] first_large_at(imgs, i) && has_substring(imgs[i].text@, PLACEHOLDER_HASH@)
}

/// The image set that a track-info lookup yields: the album's if the reply
/// has one, else the track's own, else none; a failed lookup yields none.
pub open spec fn info_images(info: Result<TrackInfo, FetchError>) -> Seq<Image> {
    match info {
        Ok(t) => match t.album_image {
            Some(v) => v@,
            None => match t.image {
                Some(v) => v@,
                None => Seq::empty(),
            },
        },
        Err(_) => Seq::empty(),
    }
}

/// A track's image set after enrichment with the lookup result `info`: only
/// a set that shows the placeholder is replaced.
pub open spec fn enriched_images(imgs: Seq<Image>, info: Result<TrackInfo, FetchError>) -> Seq<
    Image,
> {
    if shows_placeholder(imgs) {
        info_images(info)
    } else {
        imgs
    }
}

/// The cover art that a cover-art lookup yields: a record with at least one
/// image; nothing when the lookup failed or the record has no image.
pub open spec fn cover_of(reply: Result<CoverArt, FetchError>) -> Option<CoverArt> {
    match reply {
        Ok(c) => if c.images@.len() > 0 {
            Some(c)
        } else {
            None
        },
        Err(_) => None,
    }
}

/// `a` with its cover art set to `c`.
pub open spec fn with_cover(a: Album, c: Option<CoverArt>) -> Album {
    Album { cover_art: c, ..a }
}

/// The album can be matched to a release: its mbid is not empty.
pub open spec fn has_mbid(a: Album) -> bool {
    a.mbid@.len() > 0
}

/// The position of the first image of `imgs` labelled `large`, if any.
pub fn large_position(imgs: &Vec<Image>) -> (r: Option<usize>)
    ensures
        match r {
            Some(i) => first_large_at(imgs@, i as int),
            None => forall|j: int| 0 <= j < imgs@.len() ==> !is_large(#[trigger] imgs@[j]),
        },
{
    let mut i: usize = 0;
    while i < imgs.len()
        invariant
            i <= imgs@.len(),
            forall|j: int| 0 <= j < i ==> !is_large(#[trigger] imgs@[j]),
        decreases imgs@.len() - i,
    {
        if same_str(imgs[i].size.as_str(), LARGE) {
            return Some(i);
        }
        i = i + 1;
    }
    None
}

/// Whether the image set's `large` variant is the placeholder.
pub fn is_placeholder_set(imgs: &Vec<Image>) -> (r: bool)
    ensures
        r == shows_placeholder(imgs@),
{
    match large_position(imgs) {
        Some(i) => {
            let r = contains_str(imgs[i].text.as_str(), PLACEHOLDER_HASH);
            proof {
                if shows_placeholder(imgs@) {
                    let k = choose|k: int|
                        #[trigger] first_large_at(imgs@, k) && has_substring(
                            imgs@[k].text@,
                            PLACEHOLDER_HASH@,
                        );
                    if k < i {
                        assert(!is_large(imgs@[k]));
                    } else if k > i {
                        assert(!is_large(imgs@[i as int]));
                    }
                }
            }
            r
        },
        None => false,
    }
}

/// Whether `track` needs a track-info lookup: its artwork is the placeholder.
pub fn needs_track_info(track: &TopTrack) -> (r: bool)
    ensures
        r == shows_placeholder(track.image@),
{
    is_placeholder_set(&track.image)
}

/// The image set that the lookup result `info` yields.
pub fn images_from_info(info: Result<TrackInfo, FetchError>) -> (r: Vec<Image>)
    ensures
        r@ == info_images(info),
{
    match info {
        Ok(t) => match t.album_image {
            Some(v) => v,
            None => match t.image {
                Some(v) => v,
                None => Vec::new(),
            },
        },
        Err(_) => Vec::new(),
    }
}

/// Enriches `track` with the lookup result `info`: a track whose artwork is
/// the placeholder takes the looked-up image set; any other is left as it is.
pub fn enrich_track(track: &mut TopTrack, info: Result<TrackInfo, FetchError>)
    ensures
        final(track).image@ == enriched_images(old(track).image@, info),
        final(track).name == old(track).name,
        final(track).artist == old(track).artist,
        final(track).url == old(track).url,
{
    if needs_track_info(track) {
        track.image = images_from_info(info);
    }
}

/// The cover art that the lookup result `reply` yields.
pub fn cover_from_reply(reply: Result<CoverArt, FetchError>) -> (r: Option<CoverArt>)
    ensures
        r == cover_of(reply),
{
    match reply {
        Ok(c) => if c.images.len() > 0 {
            Some(c)
        } else {
            None
        },
        Err(_) => None,
    }
}

/// Sets the album's cover art from the lookup result `reply`: the record
/// when it has images, else none.
pub fn attach_cover(album: &mut Album, reply: Result<CoverArt, FetchError>)
    ensures
        *final(album) == with_cover(*old(album), cover_of(reply)),
{
    album.cover_art = cover_from_reply(reply);
}

/// The albums of `albums` that have an mbid, in their order.
pub fn albums_with_mbid(albums: Vec<Album>) -> (r: Vec<Album>)
    ensures
        r@ == albums@.filter(|a: Album| has_mbid(a)),
        forall|i: int| 0 <= i < r@.len() ==> has_mbid(#[trigger] r@[i]),
{
    let n = albums.len();
    let ghost all = albums@;
    let mut rest = albums;
    let mut kept: Vec<Album> = Vec::new();
    let mut i: usize = 0;
    while rest.len() > 0
        invariant
            i + rest@.len() == all.len(),
            all.len() == n,
            rest@ == all.subrange(i as int, all.len() as int),
            kept@ == all.subrange(0, i as int).filter(|a: Album| has_mbid(a)),
        decreases rest@.len(),
    {
        let a = rest.remove(0);
        proof {
            reveal_with_fuel(Seq::filter, 1);
            assert(all.subrange(0, i + 1).drop_last() =~= all.subrange(0, i as int));
        }
        if a.mbid.as_str().is_empty() {
        } else {
            kept.push(a);
        }
        i = i + 1;
        assert(rest@ =~= all.subrange(i as int, all.len() as int));
    }
    assert(all.subrange(0, all.len() as int) =~= all);
    proof {
        all.filter_lemma(|a: Album| has_mbid(a));
    }
    kept
}

} // verus!
