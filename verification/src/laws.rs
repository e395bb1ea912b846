//! What holds of dispatch whatever the registry and the frame.

use crate::bus_connection::{
    dispatched, handled, handler_outcome, touches_playback, DispatchErrorModel,
    EventHandlerModel, MsgHandler,
};
use crate::envelope::decoded;
use crate::handlers::OutcomeModel;
use crate::json::JsonModel;
use vstd::prelude::*;

verus! {

/// A message under a registered type gets the answer of the handler
/// registered for that type and of no other: the result is that handler's
/// answer (refused where it needs a player that is gone), and two registries
/// that agree on the type give the same result, whatever else they hold.
pub proof fn lemma_dispatch_runs_the_registered_handler(
    state: EventHandlerModel,
    other: EventHandlerModel,
    key: Seq<char>,
    message: JsonModel,
)
    requires
        state.handlers.contains_key(key),
        other.handlers.contains_key(key),
        other.handlers[key] == state.handlers[key],
        other.player_gone == state.player_gone,
    ensures
        dispatched(other, key, message) == dispatched(state, key, message),
        match handler_outcome(state.handlers[key], message) {
            Err(e) => dispatched(state, key, message) == Err::<
                OutcomeModel,
                DispatchErrorModel,
            >(DispatchErrorModel::Handler(e)),
            Ok(o) => if state.player_gone && touches_playback(o) {
                dispatched(state, key, message) == Err::<OutcomeModel, DispatchErrorModel>(
                    DispatchErrorModel::ChannelClosed,
                )
            } else {
                dispatched(state, key, message) == Ok::<OutcomeModel, DispatchErrorModel>(o)
            },
        },
{
}

/// A message under a type that has no handler gets no outcome: nothing for
/// the bus, nothing for the player, only the error that names the type.
pub proof fn lemma_unregistered_type_gives_no_outcome(
    state: EventHandlerModel,
    name: Seq<char>,
    message: JsonModel,
)
    requires
        !state.handlers.contains_key(name),
    ensures
        dispatched(state, name, message) == Err::<OutcomeModel, DispatchErrorModel>(
            DispatchErrorModel::HandlerNotFound(name),
        ),
{
}

/// Of two registrations under one key only the second counts: the registry
/// is the one that the second alone would have made, and dispatch under the
/// key runs the second handler.
pub proof fn lemma_last_registration_wins(
    state: EventHandlerModel,
    key: Seq<char>,
    first: MsgHandler,
    second: MsgHandler,
    message: JsonModel,
)
    ensures
        state.handlers.insert(key, first).insert(key, second) == state.handlers.insert(
            key,
            second,
        ),
        dispatched(
            EventHandlerModel {
                handlers: state.handlers.insert(key, first).insert(key, second),
                player_gone: state.player_gone,
            },
            key,
            message,
        ) == dispatched(
            EventHandlerModel {
                handlers: Map::<Seq<char>, MsgHandler>::empty().insert(key, second),
                player_gone: state.player_gone,
            },
            key,
            message,
        ),
{
    assert(state.handlers.insert(key, first).insert(key, second) =~= state.handlers.insert(
        key,
        second,
    ));
}

/// A malformed frame gets a decode error and nothing else, whatever the
/// registry holds. Handling reads the registry and never writes it, so the
/// frame that follows is handled as if the malformed one had not arrived.
pub proof fn lemma_malformed_frame_is_dropped(state: EventHandlerModel, raw: Seq<u8>)
    requires
        decoded(raw) is Err,
    ensures
        handled(state, raw) == Err::<OutcomeModel, DispatchErrorModel>(
            DispatchErrorModel::Decode(decoded(raw)->Err_0),
        ),
{
}

} // verus!
