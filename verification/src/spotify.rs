//! The conversion of Spotify's tracks into Harmony's own `Track`.

use vstd::prelude::*;
use crate::calendar::{date_timestamp, parse_date_to_timestamp};
use crate::clock::{max_utc_timestamp, now_timestamp};
use crate::ids::{is_v4, TrackId};
use crate::text::{copy_opt_string, copy_string, copy_strings, str_equal};
use crate::types::Track;

verus! {

/// What the conversion reads of a Spotify track.
#[derive(Debug, Clone)]
pub struct SpotifyTrack {
    /// The track's Spotify URI ("spotify:track:..."); local tracks have none.
    pub uri: Option<String>,
    pub name: String,
    /// The names of the track's artists, in Spotify's order.
    pub artist_names: Vec<String>,
    pub album_name: String,
    /// The track's duration in milliseconds.
    pub duration_ms: i64,
    pub preview_url: Option<String>,
    /// The track's external URLs, by kind ("spotify", ...); the conversion
    /// requires each kind to occur once (`distinct_keys`).
    pub external_urls: Vec<(String, String)>,
    /// The URLs of the album's images, largest first.
    pub album_image_urls: Vec<String>,
    /// The album's release date as Spotify gives it.
    pub album_release_date: Option<String>,
}

/// The value of the first pair of `pairs` whose key is `key`.
pub open spec fn lookup(pairs: Seq<(String, String)>, key: Seq<char>) -> Option<String>
    decreases pairs.len(),
{
    if pairs.len() == 0 {
        None
    } else if pairs[0].0@ == key {
        Some(pairs[0].1)
    } else {
        lookup(pairs.drop_first(), key)
    }
}

/// No two pairs of `pairs` have the same key, as in a map.
pub open spec fn distinct_keys(pairs: Seq<(String, String)>) -> bool {
    forall|i: int, j: int| 0 <= i < j < pairs.len() ==> pairs[i].0@ != pairs[j].0@
}

/// Whether no two pairs have the same key.
pub fn has_distinct_keys(pairs: &Vec<(String, String)>) -> (r: bool)
    ensures
        r == distinct_keys(pairs@),
{
    let n: usize = pairs.len();
    let mut i: usize = 0;
    while i < n
        invariant
            n == pairs@.len(),
            i <= n,
            forall|a: int, b: int| 0 <= a < i && a < b < n ==> pairs@[a].0@ != pairs@[b].0@,
        decreases n - i,
    {
        let mut j: usize = i + 1;
        while j < n
            invariant
                n == pairs@.len(),
                i < n,
                i < j <= n,
                forall|a: int, b: int| 0 <= a < i && a < b < n ==> pairs@[a].0@ != pairs@[b].0@,
                forall|b: int| i < b < j ==> pairs@[i as int].0@ != pairs@[b].0@,
            decreases n - j,
        {
            if str_equal(pairs[i].0.as_str(), pairs[j].0.as_str()) {
                return false;
            }
            j = j + 1;
        }
        i = i + 1;
    }
    true
}

/// The release timestamp of an optional release date.
pub open spec fn release_timestamp(date: Option<String>) -> Option<i64> {
    match date {
        Some(d) => date_timestamp(d@),
        None => None,
    }
}

/// `t` is the conversion of the Spotify track `s`, apart from its identifier
/// and upload date.
pub open spec fn converts(s: SpotifyTrack, t: Track) -> bool {
    &&& s.uri == Some(t.provider_id)
    &&& t.provider@ == "spotify"@
    &&& t.title == s.name
    &&& t.artist@ == s.artist_names@
    &&& t.album == Some(s.album_name)
    &&& t.duration_ms == s.duration_ms
    &&& t.preview_url == s.preview_url
    &&& t.full_url == lookup(s.external_urls@, "spotify"@)
    &&& t.artwork_url == (if s.album_image_urls@.len() > 0 {
        Some(s.album_image_urls@[0])
    } else {
        None
    })
    &&& t.release_date == release_timestamp(s.album_release_date)
    &&& t.tags is None
}

/// In pairs with distinct keys, the lookup of a key gives the value paired
/// with that key, and nothing where no pair has the key.
pub proof fn lemma_lookup_finds(pairs: Seq<(String, String)>, key: Seq<char>)
    requires
        distinct_keys(pairs),
    ensures
        forall|i: int|
            0 <= i < pairs.len() && #[trigger] pairs[i].0@ == key ==> lookup(pairs, key) == Some(
                pairs[i].1,
            ),
        (forall|i: int| 0 <= i < pairs.len() ==> #[trigger] pairs[i].0@ != key) ==> lookup(
            pairs,
            key,
        ) is None,
    decreases pairs.len(),
{
    if pairs.len() > 0 {
        let rest = pairs.drop_first();
        assert(distinct_keys(rest)) by {
            assert forall|i: int, j: int| 0 <= i < j < rest.len() implies rest[i].0@ != rest[j].0@ by {
                assert(rest[i] == pairs[i + 1] && rest[j] == pairs[j + 1]);
            }
        }
        lemma_lookup_finds(rest, key);
        assert forall|i: int|
            0 <= i < pairs.len() && #[trigger] pairs[i].0@ == key implies lookup(pairs, key) == Some(
                pairs[i].1,
            ) by {
            if i > 0 {
                assert(rest[i - 1] == pairs[i]);
                assert(pairs[0].0@ != pairs[i].0@);
            }
        }
        if forall|i: int| 0 <= i < pairs.len() ==> #[trigger] pairs[i].0@ != key {
            assert forall|i: int| 0 <= i < rest.len() implies #[trigger] rest[i].0@ != key by {
                assert(rest[i] == pairs[i + 1]);
            }
            assert(pairs[0].0@ != key);
        }
    }
}

/// A track that `converts` relates to a Spotify track has the Spotify track's
/// URI, its name as title, all its artist names in the same order, its album,
/// duration and preview, the album's first image as artwork, and no tags.
pub proof fn lemma_conversion_fields(s: SpotifyTrack, t: Track)
    requires
        converts(s, t),
    ensures
        s.uri == Some(t.provider_id),
        t.provider@ == "spotify"@,
        t.title == s.name,
        t.artist@ == s.artist_names@,
        t.artist@.len() == s.artist_names@.len(),
        forall|i: int| 0 <= i < s.artist_names@.len() ==> t.artist@[i] == s.artist_names@[i],
        t.album == Some(s.album_name),
        t.duration_ms == s.duration_ms,
        t.preview_url == s.preview_url,
        s.album_image_urls@.len() > 0 ==> t.artwork_url == Some(s.album_image_urls@[0]),
        s.album_image_urls@.len() == 0 ==> t.artwork_url is None,
        t.tags is None,
{
}

/// The value of the first pair whose key is `key`.
fn lookup_value(pairs: &Vec<(String, String)>, key: &str) -> (r: Option<String>)
    ensures
        r == lookup(pairs@, key@),
{
    let mut i: usize = 0;
    assert(pairs@.skip(0) =~= pairs@);
    while i < pairs.len()
        invariant
            i <= pairs@.len(),
            lookup(pairs@, key@) == lookup(pairs@.skip(i as int), key@),
        decreases pairs.len() - i,
    {
        let ghost rest = pairs@.skip(i as int);
        assert(rest[0] == pairs@[i as int]);
        if str_equal(pairs[i].0.as_str(), key) {
            return Some(copy_string(&pairs[i].1));
        }
        assert(rest.drop_first() =~= pairs@.skip(i + 1));
        i = i + 1;
    }
    None
}

/// Converts a Spotify track, stamped with the identifier `harmony_id` and the
/// upload time `now`; `None` for a track without a Spotify URI.
pub fn convert_track_with(track: &SpotifyTrack, harmony_id: TrackId, now: i64) -> (r: Option<Track>)
    requires
        distinct_keys(track.external_urls@),
    ensures
        track.uri is None <==> r is None,
        r matches Some(t) ==> converts(*track, t) && t.harmony_id == harmony_id && t.upload_date
            == now,
        r matches Some(t) ==> {
            &&& track.uri == Some(t.provider_id)
            &&& t.provider@ == "spotify"@
            &&& t.title == track.name
            &&& t.artist@ == track.artist_names@
            &&& t.album == Some(track.album_name)
            &&& t.duration_ms == track.duration_ms
            &&& t.preview_url == track.preview_url
            &&& forall|i: int|
                0 <= i < track.external_urls@.len() && #[trigger] track.external_urls@[i].0@
                    == "spotify"@ ==> t.full_url == Some(track.external_urls@[i].1)
            &&& (forall|i: int|
                0 <= i < track.external_urls@.len() ==> #[trigger] track.external_urls@[i].0@
                    != "spotify"@) ==> t.full_url is None
            &&& track.album_image_urls@.len() > 0 ==> t.artwork_url == Some(track.album_image_urls@[0])
            &&& track.album_image_urls@.len() == 0 ==> t.artwork_url is None
            &&& track.album_release_date is None ==> t.release_date is None
            &&& track.album_release_date matches Some(d) ==> t.release_date == date_timestamp(d@)
            &&& t.tags is None
        },
{
    let provider_id = match &track.uri {
        Some(uri) => copy_string(uri),
        None => return None,
    };
    proof {
        reveal_strlit("spotify");
    }
    let artwork_url = if track.album_image_urls.len() > 0 {
        Some(copy_string(&track.album_image_urls[0]))
    } else {
        None
    };
    let release_date = match &track.album_release_date {
        Some(date) => parse_date_to_timestamp(date.as_str()),
        None => None,
    };
    proof {
        lemma_lookup_finds(track.external_urls@, "spotify"@);
    }
    Some(
        Track {
            harmony_id,
            provider_id,
            provider: String::from_str("spotify"),
            title: copy_string(&track.name),
            artist: copy_strings(&track.artist_names),
            album: Some(copy_string(&track.album_name)),
            duration_ms: track.duration_ms,
            preview_url: copy_opt_string(&track.preview_url),
            full_url: lookup_value(&track.external_urls, "spotify"),
            artwork_url,
            release_date,
            upload_date: now,
            tags: None,
        },
    )
}

/// Converts a Spotify track into a `Track` with a new random identifier,
/// uploaded now; `None` for a track without a Spotify URI.
pub fn convert_track(track: &SpotifyTrack) -> (r: Option<Track>)
    requires
        distinct_keys(track.external_urls@),
    ensures
        track.uri is None <==> r is None,
        r matches Some(t) ==> converts(*track, t) && is_v4(t.harmony_id.0) && 0 <= t.upload_date
            <= max_utc_timestamp(),
        r matches Some(t) ==> {
            &&& track.uri == Some(t.provider_id)
            &&& t.provider@ == "spotify"@
            &&& t.title == track.name
            &&& t.artist@ == track.artist_names@
            &&& t.album == Some(track.album_name)
            &&& t.duration_ms == track.duration_ms
            &&& t.preview_url == track.preview_url
            &&& forall|i: int|
                0 <= i < track.external_urls@.len() && #[trigger] track.external_urls@[i].0@
                    == "spotify"@ ==> t.full_url == Some(track.external_urls@[i].1)
            &&& (forall|i: int|
                0 <= i < track.external_urls@.len() ==> #[trigger] track.external_urls@[i].0@
                    != "spotify"@) ==> t.full_url is None
            &&& track.album_image_urls@.len() > 0 ==> t.artwork_url == Some(track.album_image_urls@[0])
            &&& track.album_image_urls@.len() == 0 ==> t.artwork_url is None
            &&& track.album_release_date is None ==> t.release_date is None
            &&& track.album_release_date matches Some(d) ==> t.release_date == date_timestamp(d@)
            &&& t.tags is None
        },
{
    if track.uri.is_none() {
        return None;
    }
    let id = TrackId::new();
    let now: i64 = now_timestamp();
    convert_track_with(track, id, now)
}

} // verus!
