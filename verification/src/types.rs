//! Core data types of the coordinator: session identifiers, the decoded
//! inbound event union, internal commands, and the events published to the
//! downstream consumer, together with their mathematical views.

use vstd::prelude::*;

verus! {

/// Opaque identifier of one remote game session; equality is by value.
#[derive(Debug, Hash, Clone, PartialEq, Eq)]
pub struct GameId(pub String);

impl View for GameId {
    type V = Seq<char>;

    open spec fn view(&self) -> Seq<char> {
        self.0@
    }
}

impl DeepView for GameId {
    type V = Seq<char>;

    open spec fn deep_view(&self) -> Seq<char> {
        self.0@
    }
}

/// A decoded inbound stream event.
#[derive(Debug, Clone, PartialEq, Eq)]
pub enum LichessWebsocketEvent {
    /// A watched session has ended, with an optional result string.
    Finish { id: GameId, win: Option<String> },
    /// A watched session advanced: last move, board state, and both clocks.
    Fen { id: GameId, lm: String, fen: String, wc: u32, bc: u32 },
}

/// The mathematical view of a decoded inbound event.
#[verifier::ext_equal]
pub enum WsEventView {
    Finish { id: Seq<char>, win: Option<Seq<char>> },
    Fen { id: Seq<char>, lm: Seq<char>, fen: Seq<char>, wc: u32, bc: u32 },
}

impl DeepView for LichessWebsocketEvent {
    type V = WsEventView;

    open spec fn deep_view(&self) -> WsEventView {
        match self {
            LichessWebsocketEvent::Finish { id, win } => WsEventView::Finish {
                id: id@,
                win: match win {
                    Some(w) => Some(w@),
                    None => None,
                },
            },
            LichessWebsocketEvent::Fen { id, lm, fen, wc, bc } => WsEventView::Fen {
                id: id@,
                lm: lm@,
                fen: fen@,
                wc: *wc,
                bc: *bc,
            },
        }
    }
}

/// An event published to the downstream consumer.  A list update carries a
/// point-in-time snapshot of the watch set, never a live reference.
#[derive(Debug, Clone, PartialEq, Eq)]
pub enum GameEvent {
    GameListUpdate(Vec<GameId>),
    GameEvent(LichessWebsocketEvent),
}

/// The mathematical view of a published event.
#[verifier::ext_equal]
pub enum GameEventView {
    GameListUpdate(Seq<Seq<char>>),
    GameEvent(WsEventView),
}

impl DeepView for GameEvent {
    type V = GameEventView;

    open spec fn deep_view(&self) -> GameEventView {
        match self {
            GameEvent::GameListUpdate(ids) => GameEventView::GameListUpdate(ids.deep_view()),
            GameEvent::GameEvent(ev) => GameEventView::GameEvent(ev.deep_view()),
        }
    }
}

/// An internal command of the coordinator; it never crosses the wire.
#[derive(Debug, Clone, PartialEq, Eq)]
pub enum WatcherCommand {
    /// Swap the named expired watch-set entry for a fresh replacement.
    ReplaceGame(GameId),
}

impl DeepView for WatcherCommand {
    type V = Seq<char>;

    open spec fn deep_view(&self) -> Seq<char> {
        match self {
            WatcherCommand::ReplaceGame(id) => id@,
        }
    }
}

} // verus!
