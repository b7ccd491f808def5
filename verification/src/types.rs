//! Harmony's provider-agnostic library types: tracks, track groups and
//! playlists, and the lightweight references to them.

use vstd::prelude::*;
use crate::clock::{max_utc_timestamp, now_timestamp};
use crate::ids::{is_v4, GroupId, PlaylistId, TrackId};
use crate::text::{copy_opt_string, copy_string, copy_strings, str_equal};

verus! {

/// Spotify OAuth state of a session: the access token, the refresh token if
/// any, and the Unix time at which the access token expires.
#[derive(Debug, Clone)]
pub struct SpotifyAuthState {
    pub access_token: String,
    pub refresh_token: Option<String>,
    pub expires_at: i64,
}

/// A lightweight reference to a track, for display and queueing.
#[derive(Debug, Clone)]
pub struct TrackRef {
    /// Harmony's identifier, once the track has been converted to a `Track`.
    pub harmony_id: Option<TrackId>,
    /// The provider's identifier of the track.
    pub provider_id: String,
    /// The provider's name ("spotify", "local", ...).
    pub provider: String,
    pub name: String,
    /// Artist names, primary artist first.
    pub artists: Vec<String>,
    pub duration_ms: u32,
    pub artwork_url: Option<String>,
}

/// A track with its full metadata, in Harmony's own format.
#[derive(Debug, Clone)]
pub struct Track {
    pub harmony_id: TrackId,
    pub provider_id: String,
    pub provider: String,
    pub title: String,
    /// Artist names, primary artist first.
    pub artist: Vec<String>,
    pub album: Option<String>,
    /// The duration in whole milliseconds.
    pub duration_ms: i64,
    pub preview_url: Option<String>,
    pub full_url: Option<String>,
    pub artwork_url: Option<String>,
    /// Release date as a Unix timestamp.
    pub release_date: Option<i64>,
    /// When the track was added to Harmony, as a Unix timestamp.
    pub upload_date: i64,
    pub tags: Option<Vec<String>>,
}

/// A copy of an optional list of strings.
fn copy_opt_strings(v: &Option<Vec<String>>) -> (r: Option<Vec<String>>)
    ensures
        r is Some <==> v is Some,
        r is Some ==> r->0@ == v->0@,
{
    match v {
        Some(list) => Some(copy_strings(list)),
        None => None,
    }
}

/// A duration in milliseconds as a `u32`, saturating at both ends of its
/// range as a cast of a float to `u32` does.
pub open spec fn clamp_ms(ms: i64) -> u32 {
    if ms < 0 {
        0
    } else if ms > u32::MAX {
        u32::MAX
    } else {
        ms as u32
    }
}

impl Track {
    /// The track with the given title and artist, its remaining metadata
    /// empty, and the identifier `harmony_id`.
    pub fn minimal_with_id(harmony_id: TrackId, title: String, artist: String) -> (t: Track)
        ensures
            t.harmony_id == harmony_id,
            t.provider_id@ == Seq::<char>::empty(),
            t.provider@ == "unknown"@,
            t.title == title,
            t.artist@ == seq![artist],
            t.album is None,
            t.duration_ms == 0,
            t.preview_url is None,
            t.full_url is None,
            t.artwork_url is None,
            t.release_date is None,
            t.upload_date == 0,
            t.tags is None,
    {
        Track {
            harmony_id,
            provider_id: String::new(),
            provider: String::from_str("unknown"),
            title,
            artist: vec![artist],
            album: None,
            duration_ms: 0,
            preview_url: None,
            full_url: None,
            artwork_url: None,
            release_date: None,
            upload_date: 0,
            tags: None,
        }
    }

    /// The track with the given title and artist, a new random identifier
    /// and its remaining metadata empty.
    pub fn minimal(title: String, artist: String) -> (t: Track)
        ensures
            is_v4(t.harmony_id.0),
            t.provider_id@ == Seq::<char>::empty(),
            t.provider@ == "unknown"@,
            t.title == title,
            t.artist@ == seq![artist],
            t.album is None,
            t.duration_ms == 0,
            t.preview_url is None,
            t.full_url is None,
            t.artwork_url is None,
            t.release_date is None,
            t.upload_date == 0,
            t.tags is None,
    {
        Track::minimal_with_id(TrackId::new(), title, artist)
    }

    /// The lightweight reference to this track.
    pub fn to_ref(&self) -> (r: TrackRef)
        ensures
            r.harmony_id == Some(self.harmony_id),
            r.provider_id == self.provider_id,
            r.provider == self.provider,
            r.name == self.title,
            r.artists@ == self.artist@,
            r.duration_ms == clamp_ms(self.duration_ms),
            r.artwork_url == self.artwork_url,
    {
        let duration_ms: u32 = if self.duration_ms < 0 {
            0
        } else if self.duration_ms > 0xffff_ffff {
            0xffff_ffff
        } else {
            self.duration_ms as u32
        };
        TrackRef {
            harmony_id: Some(self.harmony_id),
            provider_id: copy_string(&self.provider_id),
            provider: copy_string(&self.provider),
            name: copy_string(&self.title),
            artists: copy_strings(&self.artist),
            duration_ms: duration_ms,
            artwork_url: copy_opt_string(&self.artwork_url),
        }
    }
}

/// A lightweight reference to a track group.
#[derive(Debug, Clone)]
pub struct GroupRef {
    pub harmony_id: GroupId,
    pub name: String,
    /// Number of tracks in the group.
    pub track_count: usize,
    /// Combined duration of the group's tracks in milliseconds.
    pub total_duration_ms: u32,
    pub artwork_url: Option<String>,
}

/// A reusable, ordered collection of tracks that plays as a unit.
#[derive(Debug, Clone)]
pub struct TrackGroup {
    pub harmony_id: GroupId,
    pub name: String,
    pub description: Option<String>,
    /// The tracks, in playing order.
    pub tracks: Vec<TrackRef>,
    /// Whether the tracks may be shuffled within the group.
    pub allow_shuffle: bool,
    /// Custom artwork; without it the first track's artwork stands in.
    pub artwork_url: Option<String>,
    pub created_at: i64,
    /// Updated whenever the group changes.
    pub updated_at: i64,
    pub owner: String,
    pub tags: Option<Vec<String>>,
}

/// The sum of the durations of `tracks`, in milliseconds.
pub open spec fn total_duration(tracks: Seq<TrackRef>) -> int
    decreases tracks.len(),
{
    if tracks.len() == 0 {
        0
    } else {
        total_duration(tracks.drop_last()) + tracks.last().duration_ms
    }
}

/// The artwork of a group: its own if set, else the first track's.
pub open spec fn group_artwork(g: TrackGroup) -> Option<String> {
    if g.artwork_url is Some {
        g.artwork_url
    } else if g.tracks@.len() > 0 {
        g.tracks@[0].artwork_url
    } else {
        None
    }
}

impl TrackGroup {
    /// The empty group named `name`, owned by `owner`, with the identifier
    /// `harmony_id`, created and updated at the Unix time `now`.
    pub fn new_with(harmony_id: GroupId, name: String, owner: String, now: i64) -> (g: TrackGroup)
        ensures
            g.harmony_id == harmony_id,
            g.name == name,
            g.description is None,
            g.tracks@.len() == 0,
            !g.allow_shuffle,
            g.artwork_url is None,
            g.created_at == now,
            g.updated_at == now,
            g.owner == owner,
            g.tags is None,
    {
        TrackGroup {
            harmony_id,
            name,
            description: None,
            tracks: Vec::new(),
            allow_shuffle: false,
            artwork_url: None,
            created_at: now,
            updated_at: now,
            owner,
            tags: None,
        }
    }

    /// The empty group named `name`, owned by `owner`, with a new random
    /// identifier, created and updated now.
    pub fn new(name: String, owner: String) -> (g: TrackGroup)
        ensures
            is_v4(g.harmony_id.0),
            g.name == name,
            g.description is None,
            g.tracks@.len() == 0,
            !g.allow_shuffle,
            g.artwork_url is None,
            g.created_at == g.updated_at,
            0 <= g.created_at <= max_utc_timestamp(),
            g.owner == owner,
            g.tags is None,
    {
        let now: i64 = now_timestamp();
        TrackGroup::new_with(GroupId::new(), name, owner, now)
    }

    /// Appends `track` to the end of the group and records `now` as the time
    /// of the change.
    pub fn add_track_at(&mut self, track: TrackRef, now: i64)
        ensures
            final(self).tracks@ == old(self).tracks@.push(track),
            *final(self) == (TrackGroup { tracks: final(self).tracks, updated_at: now, ..*old(self) }),
    {
        self.tracks.push(track);
        self.updated_at = now;
    }

    /// Appends `track` to the end of the group and records the time of the change.
    pub fn add_track(&mut self, track: TrackRef)
        ensures
            final(self).tracks@ == old(self).tracks@.push(track),
            0 <= final(self).updated_at <= max_utc_timestamp(),
            *final(self) == (TrackGroup {
                tracks: final(self).tracks,
                updated_at: final(self).updated_at,
                ..*old(self)
            }),
    {
        let now: i64 = now_timestamp();
        self.add_track_at(track, now);
    }

    /// The combined duration of the tracks in milliseconds.
    pub fn total_duration_ms(&self) -> (total: u32)
        requires
            total_duration(self.tracks@) <= u32::MAX,
        ensures
            total == total_duration(self.tracks@),
    {
        let mut total: u32 = 0;
        let mut i: usize = 0;
        while i < self.tracks.len()
            invariant
                i <= self.tracks@.len(),
                total_duration(self.tracks@) <= u32::MAX,
                total == total_duration(self.tracks@.take(i as int)),
            decreases self.tracks.len() - i,
        {
            proof {
                lemma_total_duration_prefix(self.tracks@, i + 1);
                assert(self.tracks@.take(i + 1).drop_last() =~= self.tracks@.take(i as int));
            }
            total = total + self.tracks[i].duration_ms;
            i = i + 1;
        }
        assert(self.tracks@.take(self.tracks.len() as int) =~= self.tracks@);
        total
    }

    /// The number of tracks.
    pub fn track_count(&self) -> (n: usize)
        ensures
            n == self.tracks@.len(),
    {
        self.tracks.len()
    }

    /// The group's artwork: its own if set, else the first track's.
    pub fn get_artwork(&self) -> (r: Option<String>)
        ensures
            r == group_artwork(*self),
    {
        match &self.artwork_url {
            Some(url) => Some(copy_string(url)),
            None => if self.tracks.len() > 0 {
                copy_opt_string(&self.tracks[0].artwork_url)
            } else {
                None
            },
        }
    }

    /// The lightweight reference to this group.
    pub fn to_ref(&self) -> (r: GroupRef)
        requires
            total_duration(self.tracks@) <= u32::MAX,
        ensures
            r.harmony_id == self.harmony_id,
            r.name == self.name,
            r.track_count == self.tracks@.len(),
            r.total_duration_ms == total_duration(self.tracks@),
            r.artwork_url == group_artwork(*self),
    {
        GroupRef {
            harmony_id: self.harmony_id,
            name: copy_string(&self.name),
            track_count: self.track_count(),
            total_duration_ms: self.total_duration_ms(),
            artwork_url: self.get_artwork(),
        }
    }
}

/// The duration of a prefix of the tracks is at most the whole duration.
pub proof fn lemma_total_duration_prefix(tracks: Seq<TrackRef>, k: int)
    requires
        0 <= k <= tracks.len(),
    ensures
        0 <= total_duration(tracks.take(k)) <= total_duration(tracks),
    decreases tracks.len(),
{
    if tracks.len() > 0 {
        if k < tracks.len() {
            assert(tracks.drop_last().take(k) =~= tracks.take(k));
            lemma_total_duration_prefix(tracks.drop_last(), k);
        } else {
            assert(tracks.take(k) =~= tracks);
            lemma_total_duration_prefix(tracks.drop_last(), k - 1);
            assert(tracks.drop_last().take(k - 1) =~= tracks.drop_last());
        }
    }
}

/// Adding a track to a group adds its duration to the group's total.
pub proof fn lemma_total_duration_push(tracks: Seq<TrackRef>, track: TrackRef)
    ensures
        total_duration(tracks.push(track)) == total_duration(tracks) + track.duration_ms,
{
    assert(tracks.push(track).drop_last() =~= tracks);
}

/// A group's artwork is its own where it has one; without one it is the
/// first track's artwork, whatever else that track carries; an empty group
/// without artwork has none.
pub proof fn lemma_group_artwork_fallback(g: TrackGroup)
    ensures
        g.artwork_url is Some ==> group_artwork(g) == g.artwork_url,
        g.artwork_url is None && g.tracks@.len() > 0 ==> group_artwork(g) == g.tracks@[0].artwork_url,
        g.artwork_url is None && g.tracks@.len() == 0 ==> group_artwork(g) is None,
{
}

/// Adding a track to a group that already shows artwork (its own, or its
/// first track's) leaves that artwork as it was.
pub proof fn lemma_add_track_keeps_artwork(g: TrackGroup, h: TrackGroup, track: TrackRef)
    requires
        h.tracks@ == g.tracks@.push(track),
        h.artwork_url == g.artwork_url,
        g.artwork_url is Some || g.tracks@.len() > 0,
    ensures
        group_artwork(h) == group_artwork(g),
{
}

/// An item of a playlist: a single track or a whole track group.
#[derive(Debug, Clone)]
pub enum PlaylistItem {
    Track(TrackRef),
    Group(GroupRef),
}

/// A playlist from any provider, or native to Harmony.
#[derive(Debug, Clone)]
pub struct Playlist {
    pub harmony_id: PlaylistId,
    /// Where the playlist comes from: "harmony", "spotify", ...
    pub provider: String,
    /// The provider's identifier; `None` for native playlists.
    pub provider_id: Option<String>,
    pub name: String,
    pub description: Option<String>,
    pub image_url: Option<String>,
    /// Number of tracks, those within groups included.
    pub track_count: u32,
    pub owner: String,
    pub created_at: i64,
    /// Unix time of the last sync from the provider; `None` if never synced.
    pub last_synced: Option<i64>,
    /// Whether the playlist can be edited in Harmony.
    pub is_editable: bool,
    pub tags: Option<Vec<String>>,
    /// The items; `None` while not loaded yet.
    pub items: Option<Vec<PlaylistItem>>,
}

/// Whether playlist `p` needs syncing at Unix time `now`, given the maximal
/// age `max_age_seconds`: never for Harmony's own playlists, always for
/// those never synced, else when the last sync is more than `max_age_seconds` old.
pub open spec fn needs_sync_at_time(p: Playlist, max_age_seconds: i64, now: int) -> bool {
    if p.provider@ == "harmony"@ {
        false
    } else {
        match p.last_synced {
            Some(synced) => now - synced > max_age_seconds,
            None => true,
        }
    }
}

/// A playlist of a provider that was synced at `synced` needs syncing at
/// `now` exactly when more than `max_age_seconds` have passed since.
pub proof fn lemma_sync_need_by_age(p: Playlist, max_age_seconds: i64, now: int, synced: i64)
    requires
        p.provider@ != "harmony"@,
        p.last_synced == Some(synced),
    ensures
        needs_sync_at_time(p, max_age_seconds, now) <==> now - synced > max_age_seconds,
        now - synced <= max_age_seconds ==> !needs_sync_at_time(p, max_age_seconds, now),
{
}

/// Harmony's own playlists never need syncing, whatever the time and the
/// maximal age.
pub proof fn lemma_native_playlists_never_need_sync(p: Playlist, max_age_seconds: i64, now: int)
    requires
        p.provider@ == "harmony"@,
    ensures
        !needs_sync_at_time(p, max_age_seconds, now),
{
}

/// A provider's playlist that was never synced always needs syncing.
pub proof fn lemma_unsynced_playlists_need_sync(p: Playlist, max_age_seconds: i64, now: int)
    requires
        p.provider@ != "harmony"@,
        p.last_synced is None,
    ensures
        needs_sync_at_time(p, max_age_seconds, now),
{
}

/// Once a playlist needs syncing, it needs syncing at every later time.
pub proof fn lemma_sync_need_persists(p: Playlist, max_age_seconds: i64, now: int, later: int)
    requires
        now <= later,
        needs_sync_at_time(p, max_age_seconds, now),
    ensures
        needs_sync_at_time(p, max_age_seconds, later),
{
}

/// A smaller maximal age never makes a needed sync unneeded.
pub proof fn lemma_smaller_max_age_still_needs_sync(p: Playlist, max_age: i64, smaller: i64, now: int)
    requires
        smaller <= max_age,
        needs_sync_at_time(p, max_age, now),
    ensures
        needs_sync_at_time(p, smaller, now),
{
}

impl Playlist {
    /// The empty, editable Harmony-native playlist named `name`, owned by
    /// `owner`, with the identifier `harmony_id`, created at the Unix time `now`.
    pub fn new_native_with(harmony_id: PlaylistId, name: String, owner: String, now: i64) -> (p: Playlist)
        ensures
            p.harmony_id == harmony_id,
            p.provider@ == "harmony"@,
            p.provider_id is None,
            p.name == name,
            p.description is None,
            p.image_url is None,
            p.track_count == 0,
            p.owner == owner,
            p.created_at == now,
            p.last_synced is None,
            p.is_editable,
            p.tags is None,
            p.items is Some,
            p.items->0@.len() == 0,
    {
        Playlist {
            harmony_id,
            provider: String::from_str("harmony"),
            provider_id: None,
            name,
            description: None,
            image_url: None,
            track_count: 0,
            owner,
            created_at: now,
            last_synced: None,
            items: Some(Vec::new()),
            is_editable: true,
            tags: None,
        }
    }

    /// The empty, editable Harmony-native playlist named `name`, owned by
    /// `owner`, with a new random identifier, created now.
    pub fn new_native(name: String, owner: String) -> (p: Playlist)
        ensures
            is_v4(p.harmony_id.0),
            p.provider@ == "harmony"@,
            p.provider_id is None,
            p.name == name,
            p.description is None,
            p.image_url is None,
            p.track_count == 0,
            p.owner == owner,
            0 <= p.created_at <= max_utc_timestamp(),
            p.last_synced is None,
            p.is_editable,
            p.tags is None,
            p.items is Some,
            p.items->0@.len() == 0,
    {
        let now: i64 = now_timestamp();
        Playlist::new_native_with(PlaylistId::new(), name, owner, now)
    }

    /// Whether the items have been loaded.
    pub fn items_loaded(&self) -> (r: bool)
        ensures
            r == self.items is Some,
    {
        self.items.is_some()
    }

    /// Whether the playlist needs syncing from its provider at the Unix time
    /// `now`, given the maximal age `max_age_seconds`.
    pub fn needs_sync_at(&self, max_age_seconds: i64, now: i64) -> (r: bool)
        requires
            self.provider@ != "harmony"@ ==> (self.last_synced matches Some(synced) ==> i64::MIN
                <= now - synced <= i64::MAX),
        ensures
            r == needs_sync_at_time(*self, max_age_seconds, now as int),
            self.provider@ == "harmony"@ ==> !r,
            self.provider@ != "harmony"@ && self.last_synced is None ==> r,
            self.provider@ != "harmony"@ ==> (self.last_synced matches Some(synced) ==> r == (now
                - synced > max_age_seconds)),
    {
        proof {
            reveal_strlit("harmony");
        }
        if str_equal(self.provider.as_str(), "harmony") {
            return false;
        }
        match self.last_synced {
            Some(synced) => {
                let age: i64 = now - synced;
                age > max_age_seconds
            },
            None => true,
        }
    }

    /// Whether the playlist needs syncing from its provider now, given the
    /// maximal age `max_age_seconds`.
    pub fn needs_sync(&self, max_age_seconds: i64) -> (r: bool)
        requires
            self.provider@ != "harmony"@ ==> (self.last_synced matches Some(synced) ==> synced
                >= max_utc_timestamp() - i64::MAX),
        ensures
            exists|now: int|
                0 <= now <= max_utc_timestamp() && r == #[trigger] needs_sync_at_time(
                    *self,
                    max_age_seconds,
                    now,
                ),
            self.provider@ == "harmony"@ ==> !r,
            self.provider@ != "harmony"@ && self.last_synced is None ==> r,
    {
        let now: i64 = now_timestamp();
        self.needs_sync_at(max_age_seconds, now)
    }
}

} // verus!
