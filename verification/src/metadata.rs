//! The "now playing" record: how it is put together from what the catalogue
//! says of a track or an episode, and how it is written as JSON.

use crate::encoding::{base62_text, spec_hex, FileId, SpotifyAudioType, SpotifyId};
use crate::json::{decimal, json_string, json_string_text, spec_decimal, spec_string_array};
use crate::json::{spec_texts, string_array};
use vstd::prelude::*;
use vstd::string::StringExecFns;

verus! {

/// What the catalogue says of a track.
#[derive(Clone, Debug, PartialEq, Eq)]
pub struct Track {
    pub id: SpotifyId,
    pub name: String,
    /// Length in milliseconds.
    pub duration: i32,
    /// Position on its album.
    pub number: i32,
    pub album: SpotifyId,
    pub artists: Vec<SpotifyId>,
}

/// What the catalogue says of an album.
#[derive(Clone, Debug, PartialEq, Eq)]
pub struct Album {
    pub id: SpotifyId,
    pub name: String,
    pub covers: Vec<FileId>,
    /// Release date, in the catalogue's own writing.
    pub date: String,
}

/// What the catalogue says of an artist.
#[derive(Clone, Debug, PartialEq, Eq)]
pub struct Artist {
    pub id: SpotifyId,
    pub name: String,
}

/// What the catalogue says of a podcast episode.
#[derive(Clone, Debug, PartialEq, Eq)]
pub struct Episode {
    pub id: SpotifyId,
    pub name: String,
    /// Length in milliseconds.
    pub duration: i32,
    pub show: SpotifyId,
    pub covers: Vec<FileId>,
}

/// What the catalogue says of a podcast show.
#[derive(Clone, Debug, PartialEq, Eq)]
pub struct Show {
    pub id: SpotifyId,
    pub name: String,
    pub publisher: String,
}

/// Which lookups an id calls for.
#[derive(Clone, Copy, Debug, PartialEq, Eq, Structural)]
pub enum MetadataKind {
    /// The track, then its album and each of its artists, in order.
    Track,
    /// The episode, then its show.
    Episode,
}

/// One lookup in the catalogue that follows the lookup of the item itself.
#[derive(Clone, Copy, Debug, PartialEq, Eq, Structural)]
pub enum Lookup {
    Album(SpotifyId),
    Artist(SpotifyId),
    Show(SpotifyId),
}

/// What the lookups for one id brought.
#[derive(Clone, Debug, PartialEq, Eq)]
pub enum Fetched {
    Track { track: Track, album: Album, artists: Vec<Artist> },
    Episode { episode: Episode, show: Show },
    /// A lookup failed.
    Failed,
}

/// The "now playing" record. An episode has no artist ids, no release date
/// and no track number.
#[derive(Clone, Debug, PartialEq, Eq)]
pub struct TrackMeta {
    pub track_id: String,
    pub track_name: String,
    pub artist_id: Option<Vec<String>>,
    pub artist_name: Vec<String>,
    pub album_id: String,
    pub album_name: String,
    pub duration_ms: i32,
    pub albumart_id: Vec<String>,
    pub position_ms: u32,
    pub album_release_date: Option<String>,
    pub track_number: Option<i32>,
}

/// What a record holds.
pub struct TrackMetaView {
    pub track_id: Seq<char>,
    pub track_name: Seq<char>,
    pub artist_id: Option<Seq<Seq<char>>>,
    pub artist_name: Seq<Seq<char>>,
    pub album_id: Seq<char>,
    pub album_name: Seq<char>,
    pub duration_ms: int,
    pub albumart_id: Seq<Seq<char>>,
    pub position_ms: int,
    pub album_release_date: Option<Seq<char>>,
    pub track_number: Option<int>,
}

impl View for TrackMeta {
    type V = TrackMetaView;

    open spec fn view(&self) -> TrackMetaView {
        TrackMetaView {
            track_id: self.track_id@,
            track_name: self.track_name@,
            artist_id: match self.artist_id {
                Some(ids) => Some(spec_texts(ids@)),
                None => None,
            },
            artist_name: spec_texts(self.artist_name@),
            album_id: self.album_id@,
            album_name: self.album_name@,
            duration_ms: self.duration_ms as int,
            albumart_id: spec_texts(self.albumart_id@),
            position_ms: self.position_ms as int,
            album_release_date: match self.album_release_date {
                Some(date) => Some(date@),
                None => None,
            },
            track_number: match self.track_number {
                Some(number) => Some(number as int),
                None => None,
            },
        }
    }
}

/// The lookups that `id` calls for: those of a track for a track, those of
/// an episode for anything else.
pub open spec fn spec_metadata_kind(id: SpotifyId) -> MetadataKind {
    if id.audio_type == SpotifyAudioType::Track {
        MetadataKind::Track
    } else {
        MetadataKind::Episode
    }
}

/// The lookups that follow that of a track: its album, then each of its
/// artists, in the track's order.
pub open spec fn spec_track_lookups(track: Track) -> Seq<Lookup> {
    seq![Lookup::Album(track.album)] + track.artists@.map_values(|id: SpotifyId| Lookup::Artist(id))
}

/// The lookup that follows that of an episode: its show.
pub open spec fn spec_episode_lookups(episode: Episode) -> Seq<Lookup> {
    seq![Lookup::Show(episode.show)]
}

/// The ids of `covers`, each in hexadecimal.
pub open spec fn spec_cover_ids(covers: Seq<FileId>) -> Seq<Seq<char>> {
    covers.map_values(|c: FileId| spec_hex(c.0@))
}

/// The position to publish: the one given, or the start.
pub open spec fn spec_position(position_ms: Option<u32>) -> int {
    match position_ms {
        Some(p) => p as int,
        None => 0,
    }
}

/// The record of a track: the artists' ids and names in the order given, the
/// album's covers in the order given.
pub open spec fn spec_track_meta(
    id: SpotifyId,
    track: Track,
    album: Album,
    artists: Seq<Artist>,
    position_ms: Option<u32>,
) -> TrackMetaView {
    TrackMetaView {
        track_id: base62_text(id.id),
        track_name: track.name@,
        artist_id: Some(artists.map_values(|a: Artist| base62_text(a.id.id))),
        artist_name: artists.map_values(|a: Artist| a.name@),
        album_id: base62_text(album.id.id),
        album_name: album.name@,
        duration_ms: track.duration as int,
        albumart_id: spec_cover_ids(album.covers@),
        position_ms: spec_position(position_ms),
        album_release_date: Some(album.date@),
        track_number: Some(track.number as int),
    }
}

/// The record of an episode: the show stands for the album, and its
/// publisher is the one artist name.
pub open spec fn spec_episode_meta(
    id: SpotifyId,
    episode: Episode,
    show: Show,
    position_ms: Option<u32>,
) -> TrackMetaView {
    TrackMetaView {
        track_id: base62_text(id.id),
        track_name: episode.name@,
        artist_id: None,
        artist_name: seq![show.publisher@],
        album_id: base62_text(show.id.id),
        album_name: show.name@,
        duration_ms: episode.duration as int,
        albumart_id: spec_cover_ids(episode.covers@),
        position_ms: spec_position(position_ms),
        album_release_date: None,
        track_number: None,
    }
}

/// The record for `id`, if the lookups brought what `id` calls for.
pub open spec fn spec_get_metadata(
    id: SpotifyId,
    fetched: Fetched,
    position_ms: Option<u32>,
) -> Option<TrackMetaView> {
    match fetched {
        Fetched::Track { track, album, artists } => if spec_metadata_kind(id)
            == MetadataKind::Track {
            Some(spec_track_meta(id, track, album, artists@, position_ms))
        } else {
            None
        },
        Fetched::Episode { episode, show } => if spec_metadata_kind(id) == MetadataKind::Episode {
            Some(spec_episode_meta(id, episode, show, position_ms))
        } else {
            None
        },
        Fetched::Failed => None,
    }
}

/// The member `"artist_id":[..],` of a record that has artist ids.
pub open spec fn spec_artist_id_member(ids: Option<Seq<Seq<char>>>) -> Seq<char> {
    match ids {
        Some(ids) => "\"artist_id\":"@ + spec_string_array(ids) + ","@,
        None => Seq::empty(),
    }
}

/// The member `"album_release_date":"..",` of a record that has a release
/// date.
pub open spec fn spec_release_date_member(date: Option<Seq<char>>) -> Seq<char> {
    match date {
        Some(date) => "\"album_release_date\":"@ + json_string_text(date) + ","@,
        None => Seq::empty(),
    }
}

/// The member `,"track_number":n` of a record that has a track number.
pub open spec fn spec_track_number_member(number: Option<int>) -> Seq<char> {
    match number {
        Some(number) => ",\"track_number\":"@ + spec_decimal(number),
        None => Seq::empty(),
    }
}

/// The JSON text of a record: one object under the key `metadata`, its
/// members in the order of their keys, without blanks.
pub open spec fn spec_meta_json(m: TrackMetaView) -> Seq<char> {
    "{\"metadata\":{\"album_id\":"@ + json_string_text(m.album_id) + ",\"album_name\":"@
        + json_string_text(m.album_name) + ","@ + spec_release_date_member(m.album_release_date)
        + "\"albumartId\":"@ + spec_string_array(m.albumart_id) + ","@ + spec_artist_id_member(
        m.artist_id,
    ) + "\"artist_name\":"@ + spec_string_array(m.artist_name) + ",\"duration_ms\":"@
        + spec_decimal(m.duration_ms) + ",\"position_ms\":"@ + spec_decimal(m.position_ms)
        + ",\"track_id\":"@ + json_string_text(m.track_id) + ",\"track_name\":"@
        + json_string_text(m.track_name) + spec_track_number_member(m.track_number) + "}}"@
}

/// The record of a track names as many artists as were given, each with its
/// id and its name and in the order given, and as many covers as the album
/// has, in the album's order.
pub proof fn lemma_track_record(
    id: SpotifyId,
    track: Track,
    album: Album,
    artists: Seq<Artist>,
    position_ms: Option<u32>,
)
    ensures
        spec_track_meta(id, track, album, artists, position_ms).artist_id matches Some(ids)
            && ids.len() == artists.len() && forall|i: int|
            0 <= i < artists.len() ==> #[trigger] ids[i] == base62_text(artists[i].id.id),
        spec_track_meta(id, track, album, artists, position_ms).artist_name.len()
            == artists.len(),
        forall|i: int|
            0 <= i < artists.len() ==> #[trigger] spec_track_meta(
                id,
                track,
                album,
                artists,
                position_ms,
            ).artist_name[i] == artists[i].name@,
        spec_track_meta(id, track, album, artists, position_ms).albumart_id.len()
            == album.covers@.len(),
        forall|i: int|
            0 <= i < album.covers@.len() ==> #[trigger] spec_track_meta(
                id,
                track,
                album,
                artists,
                position_ms,
            ).albumart_id[i] == spec_hex(album.covers@[i].0@),
        spec_track_meta(id, track, album, artists, position_ms).track_number is Some,
{
}

/// The record of an episode has neither artist ids nor a track number, in
/// its JSON text as little as in the record, and the show's publisher is its
/// one artist name.
pub proof fn lemma_episode_record(
    id: SpotifyId,
    episode: Episode,
    show: Show,
    position_ms: Option<u32>,
)
    ensures
        spec_episode_meta(id, episode, show, position_ms).artist_id is None,
        spec_episode_meta(id, episode, show, position_ms).track_number is None,
        spec_episode_meta(id, episode, show, position_ms).artist_name.len() == 1,
        spec_episode_meta(id, episode, show, position_ms).artist_name[0] == show.publisher@,
        spec_artist_id_member(spec_episode_meta(id, episode, show, position_ms).artist_id)
            == Seq::<char>::empty(),
        spec_track_number_member(spec_episode_meta(id, episode, show, position_ms).track_number)
            == Seq::<char>::empty(),
{
}

/// The lookups that `id` calls for.
pub fn metadata_kind(id: SpotifyId) -> (kind: MetadataKind)
    ensures
        kind == spec_metadata_kind(id),
{
    match id.audio_type {
        SpotifyAudioType::Track => MetadataKind::Track,
        _ => MetadataKind::Episode,
    }
}

/// The lookups that follow that of `track`.
pub fn track_lookups(track: &Track) -> (lookups: Vec<Lookup>)
    ensures
        lookups@ == spec_track_lookups(*track),
{
    let mut lookups: Vec<Lookup> = Vec::new();
    lookups.push(Lookup::Album(track.album));
    let mut i: usize = 0;
    while i < track.artists.len()
        invariant
            i <= track.artists@.len(),
            lookups@.len() == i + 1,
            lookups@[0] == Lookup::Album(track.album),
            forall|k: int|
                1 <= k <= i ==> #[trigger] lookups@[k] == Lookup::Artist(track.artists@[k - 1]),
        decreases track.artists@.len() - i,
    {
        lookups.push(Lookup::Artist(track.artists[i]));
        i = i + 1;
    }
    assert(lookups@ =~= spec_track_lookups(*track));
    lookups
}

/// The lookup that follows that of `episode`.
pub fn episode_lookups(episode: &Episode) -> (lookups: Vec<Lookup>)
    ensures
        lookups@ == spec_episode_lookups(*episode),
{
    let mut lookups: Vec<Lookup> = Vec::new();
    lookups.push(Lookup::Show(episode.show));
    lookups
}

/// The ids of `covers`, each in hexadecimal, in the order given.
pub fn cover_ids(covers: &Vec<FileId>) -> (ids: Vec<String>)
    ensures
        spec_texts(ids@) == spec_cover_ids(covers@),
{
    let mut ids: Vec<String> = Vec::new();
    let mut i: usize = 0;
    while i < covers.len()
        invariant
            i <= covers@.len(),
            ids@.len() == i,
            forall|j: int| 0 <= j < i ==> (#[trigger] ids@[j])@ == spec_hex(covers@[j].0@),
        decreases covers@.len() - i,
    {
        let id = covers[i].to_base16();
        ids.push(id);
        i = i + 1;
    }
    ids
}

/// The ids of `artists`, each in base 62, in the order given.
pub fn artist_ids(artists: &Vec<Artist>) -> (ids: Vec<String>)
    ensures
        spec_texts(ids@) == artists@.map_values(|a: Artist| base62_text(a.id.id)),
{
    let mut ids: Vec<String> = Vec::new();
    let mut i: usize = 0;
    while i < artists.len()
        invariant
            i <= artists@.len(),
            ids@.len() == i,
            forall|j: int| 0 <= j < i ==> (#[trigger] ids@[j])@ == base62_text(artists@[j].id.id),
        decreases artists@.len() - i,
    {
        let id = artists[i].id.to_base62();
        ids.push(id);
        i = i + 1;
    }
    ids
}

/// The names of `artists`, in the order given.
pub fn artist_names(artists: &Vec<Artist>) -> (names: Vec<String>)
    ensures
        spec_texts(names@) == artists@.map_values(|a: Artist| a.name@),
{
    let mut names: Vec<String> = Vec::new();
    let mut i: usize = 0;
    while i < artists.len()
        invariant
            i <= artists@.len(),
            names@.len() == i,
            forall|j: int| 0 <= j < i ==> (#[trigger] names@[j])@ == artists@[j].name@,
        decreases artists@.len() - i,
    {
        let name = artists[i].name.clone();
        names.push(name);
        i = i + 1;
    }
    names
}

/// The position to publish: the one given, or the start.
pub fn position_or_start(position_ms: Option<u32>) -> (p: u32)
    ensures
        p as int == spec_position(position_ms),
{
    match position_ms {
        Some(p) => p,
        None => 0,
    }
}

/// Puts the record of a track together.
pub fn track_meta(
    id: SpotifyId,
    track: &Track,
    album: &Album,
    artists: &Vec<Artist>,
    position_ms: Option<u32>,
) -> (meta: TrackMeta)
    ensures
        meta@ == spec_track_meta(id, *track, *album, artists@, position_ms),
{
    TrackMeta {
        track_id: id.to_base62(),
        track_name: track.name.clone(),
        artist_id: Some(artist_ids(artists)),
        artist_name: artist_names(artists),
        album_id: album.id.to_base62(),
        album_name: album.name.clone(),
        duration_ms: track.duration,
        albumart_id: cover_ids(&album.covers),
        position_ms: position_or_start(position_ms),
        album_release_date: Some(album.date.clone()),
        track_number: Some(track.number),
    }
}

/// Puts the record of an episode together.
pub fn episode_meta(id: SpotifyId, episode: &Episode, show: &Show, position_ms: Option<u32>) -> (meta:
    TrackMeta)
    ensures
        meta@ == spec_episode_meta(id, *episode, *show, position_ms),
{
    let mut publisher: Vec<String> = Vec::new();
    publisher.push(show.publisher.clone());
    assert(spec_texts(publisher@) =~= seq![show.publisher@]);
    TrackMeta {
        track_id: id.to_base62(),
        track_name: episode.name.clone(),
        artist_id: None,
        artist_name: publisher,
        album_id: show.id.to_base62(),
        album_name: show.name.clone(),
        duration_ms: episode.duration,
        albumart_id: cover_ids(&episode.covers),
        position_ms: position_or_start(position_ms),
        album_release_date: None,
        track_number: None,
    }
}

/// The record for `id`, from what the lookups brought. There is none where a
/// lookup failed, or where the lookups are not those that `id` calls for.
pub fn get_metadata(id: SpotifyId, fetched: &Fetched, position_ms: Option<u32>) -> (meta: Option<
    TrackMeta,
>)
    ensures
        meta is Some <==> spec_get_metadata(id, *fetched, position_ms) is Some,
        meta matches Some(m) ==> Some(m@) == spec_get_metadata(id, *fetched, position_ms),
{
    match fetched {
        Fetched::Track { track, album, artists } => {
            match metadata_kind(id) {
                MetadataKind::Track => Some(track_meta(id, track, album, artists, position_ms)),
                MetadataKind::Episode => None,
            }
        },
        Fetched::Episode { episode, show } => {
            match metadata_kind(id) {
                MetadataKind::Track => None,
                MetadataKind::Episode => Some(episode_meta(id, episode, show, position_ms)),
            }
        },
        Fetched::Failed => None,
    }
}

impl TrackMeta {
    /// The record as JSON text.
    pub fn json(&self) -> (text: String)
        ensures
            text@ == spec_meta_json(self@),
    {
        let mut text = String::from_str("{\"metadata\":{\"album_id\":");
        text.append(json_string(self.album_id.as_str()).as_str());
        text.append(",\"album_name\":");
        text.append(json_string(self.album_name.as_str()).as_str());
        text.append(",");
        match &self.album_release_date {
            Some(date) => {
                text.append("\"album_release_date\":");
                text.append(json_string(date.as_str()).as_str());
                text.append(",");
            },
            None => {},
        }
        text.append("\"albumartId\":");
        text.append(string_array(&self.albumart_id).as_str());
        text.append(",");
        match &self.artist_id {
            Some(ids) => {
                text.append("\"artist_id\":");
                text.append(string_array(ids).as_str());
                text.append(",");
            },
            None => {},
        }
        text.append("\"artist_name\":");
        text.append(string_array(&self.artist_name).as_str());
        text.append(",\"duration_ms\":");
        text.append(decimal(self.duration_ms as i64).as_str());
        text.append(",\"position_ms\":");
        text.append(decimal(self.position_ms as i64).as_str());
        text.append(",\"track_id\":");
        text.append(json_string(self.track_id.as_str()).as_str());
        text.append(",\"track_name\":");
        text.append(json_string(self.track_name.as_str()).as_str());
        match self.track_number {
            Some(number) => {
                text.append(",\"track_number\":");
                text.append(decimal(number as i64).as_str());
            },
            None => {},
        }
        text.append("}}");
        text
    }
}

} // verus!
