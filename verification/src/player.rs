//! The commands that the bridge hands to the playback engine.

use vstd::prelude::*;

verus! {

/// How loud an item is played relative to the others.
#[derive(Clone, Copy, Debug, PartialEq, Eq, Structural)]
pub enum NormalizationLevel {
    Off,
    Track,
    Album,
}

/// One entry of a playback queue, made from a catalog track.
#[derive(Clone, Debug, PartialEq, Eq)]
pub struct PlaybackItem {
    pub item_id: String,
    pub norm_level: NormalizationLevel,
}

/// A queue entry as mathematics.
pub struct PlaybackItemModel {
    pub item_id: Seq<char>,
    pub norm_level: NormalizationLevel,
}

impl View for PlaybackItem {
    type V = PlaybackItemModel;

    open spec fn view(&self) -> PlaybackItemModel {
        PlaybackItemModel { item_id: self.item_id@, norm_level: self.norm_level }
    }
}

/// The views of a list of queue entries, in the same order.
pub open spec fn item_models(items: Seq<PlaybackItem>) -> Seq<PlaybackItemModel> {
    Seq::new(items.len(), |i: int| items[i]@)
}

/// What the playback engine can be told to do.
#[derive(Clone, Debug, PartialEq, Eq)]
pub enum PlaybackCommand {
    LoadQueue { items: Vec<PlaybackItem>, position: usize },
    Play,
    Pause,
    Resume,
    Stop,
    Next,
    Previous,
}

/// A command as mathematics.
pub enum CommandModel {
    LoadQueue { items: Seq<PlaybackItemModel>, position: nat },
    Play,
    Pause,
    Resume,
    Stop,
    Next,
    Previous,
}

impl CommandModel {
    /// The position of a queue that has items is the index of one of them.
    pub open spec fn valid(self) -> bool {
        match self {
            CommandModel::LoadQueue { items, position } => items.len() > 0 ==> position
                < items.len(),
            _ => true,
        }
    }
}

impl View for PlaybackCommand {
    type V = CommandModel;

    open spec fn view(&self) -> CommandModel {
        match self {
            PlaybackCommand::LoadQueue { items, position } => CommandModel::LoadQueue {
                items: item_models(items@),
                position: *position as nat,
            },
            PlaybackCommand::Play => CommandModel::Play,
            PlaybackCommand::Pause => CommandModel::Pause,
            PlaybackCommand::Resume => CommandModel::Resume,
            PlaybackCommand::Stop => CommandModel::Stop,
            PlaybackCommand::Next => CommandModel::Next,
            PlaybackCommand::Previous => CommandModel::Previous,
        }
    }
}

impl PlaybackCommand {
    /// Whether the command may be handed to the engine: a queue that has
    /// items starts at one of them.
    pub fn is_valid(&self) -> (r: bool)
        ensures
            r == self@.valid(),
    {
        match self {
            PlaybackCommand::LoadQueue { items, position } => items.len() == 0 || *position
                < items.len(),
            _ => true,
        }
    }
}

} // verus!
