//! The handlers: what each kind of bus message asks for.
//!
//! A handler reads its envelope and answers with an [`Outcome`]: a command
//! for the playback engine, or a question to the catalog. The caller asks
//! the catalog and hands what it got to [`search_response`] or
//! [`start_album`], which finish the work.

use crate::envelope::{data_text, framed, BusEnvelope};
use crate::json::{json_model, members_model, object_value, text_value, JsonModel};
use crate::player::{
    CommandModel, NormalizationLevel, PlaybackCommand, PlaybackItem, PlaybackItemModel,
};
use vstd::prelude::*;

verus! {

/// A track as the catalog lists it.
#[derive(Clone, Debug, PartialEq, Eq)]
pub struct Track {
    pub id: String,
}

/// An album as the catalog lists it, its tracks in catalog order.
#[derive(Clone, Debug, PartialEq, Eq)]
pub struct Album {
    pub id: String,
    pub name: String,
    pub tracks: Vec<Track>,
}

/// The payload of a search response.
#[derive(Clone, Debug, PartialEq, Eq)]
pub struct SearchData {
    pub id: String,
    pub name: String,
    pub media_type: String,
}

/// Why a handler gave up on a message.
#[derive(Clone, Copy, Debug, PartialEq, Eq, Structural)]
pub enum HandlerError {
    /// The field that the handler reads is absent from `data`, or no string.
    MissingField,
    /// The catalog returned an empty list.
    NoMatch,
}

/// What a handler asks its caller to do.
#[derive(Clone, Debug, PartialEq, Eq)]
pub enum Outcome {
    /// Put the command on the playback engine's channel.
    Enqueue(PlaybackCommand),
    /// Ask the catalog for the albums that match the query, then call
    /// [`search_response`].
    Search(String),
    /// Ask the catalog for the album of this id, then call [`start_album`].
    Resolve(String),
}

/// An outcome as mathematics.
pub enum OutcomeModel {
    Enqueue(CommandModel),
    Search(Seq<char>),
    Resolve(Seq<char>),
}

impl View for Outcome {
    type V = OutcomeModel;

    open spec fn view(&self) -> OutcomeModel {
        match self {
            Outcome::Enqueue(c) => OutcomeModel::Enqueue(c@),
            Outcome::Search(q) => OutcomeModel::Search(q@),
            Outcome::Resolve(a) => OutcomeModel::Resolve(a@),
        }
    }
}

/// The view of a handler's result.
pub open spec fn result_model(r: Result<Outcome, HandlerError>) -> Result<
    OutcomeModel,
    HandlerError,
> {
    match r {
        Ok(o) => Ok(o@),
        Err(e) => Err(e),
    }
}

/// The JSON object `{ "id": .., "name": .., "media_type": .. }`.
pub open spec fn search_data_model(
    id: Seq<char>,
    name: Seq<char>,
    media_type: Seq<char>,
) -> JsonModel {
    JsonModel::Object(
        Map::<Seq<char>, JsonModel>::empty().insert("id"@, JsonModel::Text(id)).insert(
            "name"@,
            JsonModel::Text(name),
        ).insert("media_type"@, JsonModel::Text(media_type)),
    )
}

/// The queue entries for a list of tracks: one per track, in the same order,
/// each normalised by track.
pub open spec fn playlist(tracks: Seq<Track>) -> Seq<PlaybackItemModel> {
    Seq::new(
        tracks.len(),
        |i: int|
            PlaybackItemModel { item_id: tracks[i].id@, norm_level: NormalizationLevel::Track },
    )
}

/// What the search handler answers to a message.
pub open spec fn search_outcome(message: JsonModel) -> Result<OutcomeModel, HandlerError> {
    match data_text(message, "query"@) {
        Some(q) => Ok(OutcomeModel::Search(q)),
        None => Err(HandlerError::MissingField),
    }
}

/// What the play handler answers to a message.
pub open spec fn play_outcome(message: JsonModel) -> Result<OutcomeModel, HandlerError> {
    match data_text(message, "album"@) {
        Some(a) => Ok(OutcomeModel::Resolve(a)),
        None => Err(HandlerError::MissingField),
    }
}

impl SearchData {
    /// The payload for an album: its id and name, and the media type `album`.
    pub fn for_album(album: &Album) -> (r: SearchData)
        ensures
            r.id@ == album.id@,
            r.name@ == album.name@,
            r.media_type@ == "album"@,
    {
        SearchData {
            id: album.id.clone(),
            name: album.name.clone(),
            media_type: "album".to_owned(),
        }
    }

    /// The payload as a JSON object of three string members.
    pub fn to_value(&self) -> (r: serde_json::Value)
        ensures
            json_model(r) == search_data_model(self.id@, self.name@, self.media_type@),
    {
        let mut fields: Vec<(String, serde_json::Value)> = Vec::new();
        fields.push(("id".to_owned(), text_value(self.id.as_str())));
        fields.push(("name".to_owned(), text_value(self.name.as_str())));
        fields.push(("media_type".to_owned(), text_value(self.media_type.as_str())));
        proof {
            reveal_strlit("id");
            reveal_strlit("name");
            reveal_strlit("media_type");
            assert("id"@[0] == 'i' && "name"@[0] == 'n' && "media_type"@[0] == 'm');
            let f = fields@;
            assert(f.drop_last().drop_last().drop_last().len() == 0);
            reveal_with_fuel(members_model, 4);
            assert(members_model(f) =~= Map::<Seq<char>, JsonModel>::empty().insert(
                "id"@,
                JsonModel::Text(self.id@),
            ).insert("name"@, JsonModel::Text(self.name@)).insert(
                "media_type"@,
                JsonModel::Text(self.media_type@),
            ));
        }
        object_value(fields)
    }
}

/// The best match of a search: the first album of the catalog's list. An
/// empty list is an error.
pub fn search_album(albums: &Vec<Album>) -> (r: Result<&Album, HandlerError>)
    ensures
        match r {
            Ok(best) => albums.len() > 0 && *best == albums[0],
            Err(e) => albums.len() == 0 && e == HandlerError::NoMatch,
        },
{
    if albums.len() == 0 {
        Err(HandlerError::NoMatch)
    } else {
        Ok(&albums[0])
    }
}

/// Handles `search`: asks for a catalog search with the string in
/// `data.query`.
pub fn search_handler(message: &BusEnvelope) -> (r: Result<Outcome, HandlerError>)
    ensures
        result_model(r) == search_outcome(message@.message),
{
    match message.data_str("query") {
        Some(q) => Ok(Outcome::Search(q.to_owned())),
        None => Err(HandlerError::MissingField),
    }
}

/// Finishes a search: the response envelope for the first album of the
/// catalog's list, or `NoMatch` where the list is empty.
pub fn search_response(albums: &Vec<Album>) -> (r: Result<BusEnvelope, HandlerError>)
    ensures
        match r {
            Ok(response) => albums.len() > 0 && response@.msg_type == "spotify.search.response"@
                && response@.message == framed(
                "spotify.search.response"@,
                search_data_model(albums[0].id@, albums[0].name@, "album"@),
            ),
            Err(e) => albums.len() == 0 && e == HandlerError::NoMatch,
        },
{
    match search_album(albums) {
        Ok(best) => {
            let search_result = SearchData::for_album(best);
            Ok(BusEnvelope::new("spotify.search.response", search_result.to_value()))
        },
        Err(e) => Err(e),
    }
}

/// Handles `play`: asks for the album whose id is the string in
/// `data.album`.
pub fn play_handler(message: &BusEnvelope) -> (r: Result<Outcome, HandlerError>)
    ensures
        result_model(r) == play_outcome(message@.message),
{
    match message.data_str("album") {
        Some(a) => Ok(Outcome::Resolve(a.to_owned())),
        None => Err(HandlerError::MissingField),
    }
}

/// Handles `prev`: the engine goes back one track.
pub fn prev_track_handler(message: &BusEnvelope) -> (r: Result<Outcome, HandlerError>)
    ensures
        result_model(r) == Ok::<OutcomeModel, HandlerError>(
            OutcomeModel::Enqueue(CommandModel::Previous),
        ),
{
    Ok(Outcome::Enqueue(PlaybackCommand::Previous))
}

/// Handles `next`: the engine skips to the next track.
pub fn next_track_handler(message: &BusEnvelope) -> (r: Result<Outcome, HandlerError>)
    ensures
        result_model(r) == Ok::<OutcomeModel, HandlerError>(
            OutcomeModel::Enqueue(CommandModel::Next),
        ),
{
    Ok(Outcome::Enqueue(PlaybackCommand::Next))
}

/// Handles `pause`.
pub fn pause_handler(message: &BusEnvelope) -> (r: Result<Outcome, HandlerError>)
    ensures
        result_model(r) == Ok::<OutcomeModel, HandlerError>(
            OutcomeModel::Enqueue(CommandModel::Pause),
        ),
{
    Ok(Outcome::Enqueue(PlaybackCommand::Pause))
}

/// Handles `resume`.
pub fn resume_handler(message: &BusEnvelope) -> (r: Result<Outcome, HandlerError>)
    ensures
        result_model(r) == Ok::<OutcomeModel, HandlerError>(
            OutcomeModel::Enqueue(CommandModel::Resume),
        ),
{
    Ok(Outcome::Enqueue(PlaybackCommand::Resume))
}

/// Finishes `play`: one queue entry per track of the album, in catalog
/// order, loaded to start at the first.
pub fn start_album(album: &Album) -> (r: PlaybackCommand)
    ensures
        r@ == (CommandModel::LoadQueue { items: playlist(album.tracks@), position: 0 }),
        r@.valid(),
{
    let mut items: Vec<PlaybackItem> = Vec::new();
    let n: usize = album.tracks.len();
    let mut i: usize = 0;
    while i < n
        invariant
            n == album.tracks.len(),
            i <= n,
            items.len() == i,
            forall|k: int|
                0 <= k < i ==> (#[trigger] items[k])@ == playlist(album.tracks@)[k],
        decreases n - i,
    {
        let item = PlaybackItem {
            item_id: album.tracks[i].id.clone(),
            norm_level: NormalizationLevel::Track,
        };
        items.push(item);
        i = i + 1;
    }
    assert(crate::player::item_models(items@) =~= playlist(album.tracks@));
    play_items(items)
}

/// The command that loads a queue and starts at its first entry.
pub fn play_items(items: Vec<PlaybackItem>) -> (r: PlaybackCommand)
    ensures
        r@ == (CommandModel::LoadQueue {
            items: crate::player::item_models(items@),
            position: 0,
        }),
        r@.valid(),
{
    PlaybackCommand::LoadQueue { items, position: 0 }
}

} // verus!
