//! The handler registry and the dispatch of inbound frames.

use crate::envelope::{decoded, BusEnvelope, DecodeError};
use crate::handlers::{
    next_track_handler, pause_handler, play_handler, play_outcome, prev_track_handler,
    resume_handler, search_handler, search_outcome, HandlerError, Outcome, OutcomeModel,
    result_model,
};
use crate::json::JsonModel;
use crate::player::CommandModel;
use vstd::prelude::*;

verus! {

/// The handlers that can be registered for a message type.
#[derive(Clone, Copy, Debug, PartialEq, Eq, Structural)]
pub enum MsgHandler {
    Search,
    Play,
    Next,
    Previous,
    Pause,
    Resume,
}

/// What a handler answers to a message.
pub open spec fn handler_outcome(handler: MsgHandler, message: JsonModel) -> Result<
    OutcomeModel,
    HandlerError,
> {
    match handler {
        MsgHandler::Search => search_outcome(message),
        MsgHandler::Play => play_outcome(message),
        MsgHandler::Next => Ok(OutcomeModel::Enqueue(CommandModel::Next)),
        MsgHandler::Previous => Ok(OutcomeModel::Enqueue(CommandModel::Previous)),
        MsgHandler::Pause => Ok(OutcomeModel::Enqueue(CommandModel::Pause)),
        MsgHandler::Resume => Ok(OutcomeModel::Enqueue(CommandModel::Resume)),
    }
}

impl MsgHandler {
    /// Runs the handler on a message.
    pub fn run(&self, message: &BusEnvelope) -> (r: Result<Outcome, HandlerError>)
        ensures
            result_model(r) == handler_outcome(*self, message@.message),
    {
        match self {
            MsgHandler::Search => search_handler(message),
            MsgHandler::Play => play_handler(message),
            MsgHandler::Next => next_track_handler(message),
            MsgHandler::Previous => prev_track_handler(message),
            MsgHandler::Pause => pause_handler(message),
            MsgHandler::Resume => resume_handler(message),
        }
    }
}

/// Why a frame led to no outcome.
#[derive(Clone, Debug, PartialEq, Eq)]
pub enum DispatchError {
    /// The frame is malformed.
    Decode(DecodeError),
    /// No handler is registered for the type, which is named.
    HandlerNotFound(String),
    /// The handler gave up.
    Handler(HandlerError),
    /// The outcome touches playback and the player's channel is closed.
    ChannelClosed,
}

/// A dispatch error as mathematics.
pub enum DispatchErrorModel {
    Decode(DecodeError),
    HandlerNotFound(Seq<char>),
    Handler(HandlerError),
    ChannelClosed,
}

impl View for DispatchError {
    type V = DispatchErrorModel;

    open spec fn view(&self) -> DispatchErrorModel {
        match self {
            DispatchError::Decode(e) => DispatchErrorModel::Decode(*e),
            DispatchError::HandlerNotFound(t) => DispatchErrorModel::HandlerNotFound(t@),
            DispatchError::Handler(e) => DispatchErrorModel::Handler(*e),
            DispatchError::ChannelClosed => DispatchErrorModel::ChannelClosed,
        }
    }
}

/// The view of a dispatch result.
pub open spec fn dispatch_model(r: Result<Outcome, DispatchError>) -> Result<
    OutcomeModel,
    DispatchErrorModel,
> {
    match r {
        Ok(o) => Ok(o@),
        Err(e) => Err(e@),
    }
}

/// The registry that a list of registrations makes: each later one is put
/// over what the earlier ones made.
pub open spec fn table(entries: Seq<(String, MsgHandler)>) -> Map<Seq<char>, MsgHandler>
    decreases entries.len(),
{
    if entries.len() == 0 {
        Map::empty()
    } else {
        table(entries.drop_last()).insert(entries.last().0@, entries.last().1)
    }
}

/// No two entries have the same key.
pub open spec fn distinct_keys(entries: Seq<(String, MsgHandler)>) -> bool {
    forall|i: int, j: int| 0 <= i < j < entries.len() ==> entries[i].0@ != entries[j].0@
}

/// A key that no entry has is not in the registry.
proof fn lemma_table_absent(entries: Seq<(String, MsgHandler)>, key: Seq<char>)
    requires
        forall|i: int| 0 <= i < entries.len() ==> entries[i].0@ != key,
    ensures
        !table(entries).contains_key(key),
    decreases entries.len(),
{
    if entries.len() > 0 {
        lemma_table_absent(entries.drop_last(), key);
    }
}

/// With distinct keys, each entry's key leads to that entry's handler.
proof fn lemma_table_entry(entries: Seq<(String, MsgHandler)>, i: int)
    requires
        distinct_keys(entries),
        0 <= i < entries.len(),
    ensures
        table(entries).contains_key(entries[i].0@),
        table(entries)[entries[i].0@] == entries[i].1,
    decreases entries.len(),
{
    if i < entries.len() - 1 {
        lemma_table_entry(entries.drop_last(), i);
    }
}

/// With distinct keys, a new handler for the key of entry `i`, written in
/// its place, is the registry with that key registered anew.
proof fn lemma_table_replace(entries: Seq<(String, MsgHandler)>, i: int, e: (String, MsgHandler))
    requires
        distinct_keys(entries),
        0 <= i < entries.len(),
        e.0@ == entries[i].0@,
    ensures
        distinct_keys(entries.update(i, e)),
        table(entries.update(i, e)) =~= table(entries).insert(e.0@, e.1),
    decreases entries.len(),
{
    let updated = entries.update(i, e);
    if i < entries.len() - 1 {
        lemma_table_replace(entries.drop_last(), i, e);
        assert(updated.drop_last() =~= entries.drop_last().update(i, e));
    } else {
        assert(updated.drop_last() =~= entries.drop_last());
    }
}

/// The registry and what is known of the player, as mathematics.
pub struct EventHandlerModel {
    pub handlers: Map<Seq<char>, MsgHandler>,
    pub player_gone: bool,
}

/// Whether an outcome needs the player's channel.
pub open spec fn touches_playback(o: OutcomeModel) -> bool {
    o is Enqueue || o is Resolve
}

/// What dispatching a message under a name gives: the answer of the handler
/// registered for the name, unless it needs a player that is gone.
pub open spec fn dispatched(state: EventHandlerModel, name: Seq<char>, message: JsonModel) -> Result<
    OutcomeModel,
    DispatchErrorModel,
> {
    if !state.handlers.contains_key(name) {
        Err(DispatchErrorModel::HandlerNotFound(name))
    } else {
        match handler_outcome(state.handlers[name], message) {
            Err(e) => Err(DispatchErrorModel::Handler(e)),
            Ok(o) => if state.player_gone && touches_playback(o) {
                Err(DispatchErrorModel::ChannelClosed)
            } else {
                Ok(o)
            },
        }
    }
}

/// What handling a frame gives: a decode error, or the dispatch of the
/// envelope under its type.
pub open spec fn handled(state: EventHandlerModel, raw: Seq<u8>) -> Result<
    OutcomeModel,
    DispatchErrorModel,
> {
    match decoded(raw) {
        Err(e) => Err(DispatchErrorModel::Decode(e)),
        Ok(envelope) => dispatched(state, envelope.msg_type, envelope.message),
    }
}

/// The registry of handlers by message type, and whether the player's
/// channel is known to be closed.
#[derive(Debug)]
pub struct EventHandler {
    handlers: Vec<(String, MsgHandler)>,
    player_gone: bool,
}

impl View for EventHandler {
    type V = EventHandlerModel;

    closed spec fn view(&self) -> EventHandlerModel {
        EventHandlerModel { handlers: table(self.handlers@), player_gone: self.player_gone }
    }
}

impl EventHandler {
    #[verifier::type_invariant]
    spec fn keys_unique(&self) -> bool {
        distinct_keys(self.handlers@)
    }

    /// The index of the entry for `name`, if there is one.
    fn position(&self, name: &String) -> (r: Option<usize>)
        ensures
            match r {
                Some(i) => i < self.handlers.len() && self.handlers[i as int].0@ == name@,
                None => forall|i: int| 0 <= i < self.handlers.len() ==> self.handlers[i].0@ != name@,
            },
    {
        let n: usize = self.handlers.len();
        let mut i: usize = 0;
        while i < n
            invariant
                n == self.handlers.len(),
                i <= n,
                forall|k: int| 0 <= k < i ==> self.handlers[k].0@ != name@,
            decreases n - i,
        {
            if self.handlers[i].0 == *name {
                return Some(i);
            }
            i = i + 1;
        }
        None
    }

    /// Registers `func` for the message type `name`. An earlier registration
    /// for the same type is replaced.
    pub fn add(&mut self, name: &str, func: MsgHandler)
        ensures
            final(self)@.handlers == old(self)@.handlers.insert(name@, func),
            final(self)@.player_gone == old(self)@.player_gone,
    {
        proof {
            use_type_invariant(&*self);
        }
        let key = name.to_owned();
        let found = self.position(&key);
        // The entries are taken out, changed and put back whole.
        let mut taken = EventHandler { handlers: Vec::new(), player_gone: false };
        std::mem::swap(self, &mut taken);
        let EventHandler { handlers: mut entries, player_gone } = taken;
        match found {
            Some(i) => {
                proof {
                    lemma_table_replace(entries@, i as int, (key, func));
                }
                entries.set(i, (key, func));
            },
            None => {
                assert(entries@.push((key, func)).drop_last() =~= entries@);
                entries.push((key, func));
            },
        }
        *self = EventHandler { handlers: entries, player_gone };
    }

    /// The handler registered for the message type `name`, if there is one.
    pub fn handler_for(&self, name: &str) -> (r: Option<MsgHandler>)
        ensures
            match r {
                Some(h) => self@.handlers.contains_key(name@) && self@.handlers[name@] == h,
                None => !self@.handlers.contains_key(name@),
            },
    {
        proof {
            use_type_invariant(self);
        }
        let key = name.to_owned();
        match self.position(&key) {
            None => {
                proof {
                    lemma_table_absent(self.handlers@, name@);
                }
                None
            },
            Some(i) => {
                proof {
                    lemma_table_entry(self.handlers@, i as int);
                }
                Some(self.handlers[i].1)
            },
        }
    }

    /// Dispatches a message under `name`: runs the handler registered for
    /// it, or reports that there is none.
    pub fn call(&self, name: &str, msg: &BusEnvelope) -> (r: Result<Outcome, DispatchError>)
        ensures
            dispatch_model(r) == dispatched(self@, name@, msg@.message),
    {
        let handler = match self.handler_for(name) {
            Some(h) => h,
            None => { return Err(DispatchError::HandlerNotFound(name.to_owned())); },
        };
        match handler.run(msg) {
            Err(e) => Err(DispatchError::Handler(e)),
            Ok(o) => {
                let playback = match &o {
                    Outcome::Search(_) => false,
                    _ => true,
                };
                if self.player_gone && playback {
                    Err(DispatchError::ChannelClosed)
                } else {
                    Ok(o)
                }
            },
        }
    }

    /// Handles one inbound frame: decodes it and dispatches the envelope
    /// under its type. A malformed frame is an error like any other.
    pub fn handle_msg(&self, data: &[u8]) -> (r: Result<Outcome, DispatchError>)
        ensures
            dispatch_model(r) == handled(self@, data@),
    {
        match BusEnvelope::decode(data) {
            Err(e) => Err(DispatchError::Decode(e)),
            Ok(msg) => self.call(msg.msg_type(), &msg),
        }
    }

    /// A registry of the given registrations, made in their order, with the
    /// player taken to be there.
    pub fn new(handlers: Vec<(String, MsgHandler)>) -> (r: EventHandler)
        ensures
            r@.handlers == table(handlers@),
            !r@.player_gone,
    {
        let mut made = EventHandler { handlers: Vec::new(), player_gone: false };
        let n: usize = handlers.len();
        let mut i: usize = 0;
        while i < n
            invariant
                n == handlers.len(),
                i <= n,
                made@.handlers == table(handlers@.take(i as int)),
                !made@.player_gone,
            decreases n - i,
        {
            assert(handlers@.take(i + 1).drop_last() =~= handlers@.take(i as int));
            made.add(handlers[i].0.as_str(), handlers[i].1);
            i = i + 1;
        }
        assert(handlers@.take(n as int) =~= handlers@);
        made
    }

    /// Records that the player's channel is closed. From then on outcomes
    /// that touch playback are refused.
    pub fn player_lost(&mut self)
        ensures
            final(self)@.handlers == old(self)@.handlers,
            final(self)@.player_gone,
    {
        proof {
            use_type_invariant(&*self);
        }
        self.player_gone = true;
    }

    /// Whether the player's channel is known to be closed.
    pub fn player_gone(&self) -> (r: bool)
        ensures
            r == self@.player_gone,
    {
        self.player_gone
    }
}

} // verus!
