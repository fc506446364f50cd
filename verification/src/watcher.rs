//! The watch-set coordinator.
//!
//! A [`Watcher`] owns the ordered list of watched session identifiers and
//! three queues of pending effects: encoded text frames for the streaming
//! connection (`outbox`), events for the downstream consumer (`published`),
//! and internal commands to be delivered after the replacement cool-down
//! (`scheduled`).  The host application drives the multiplexed loop: it
//! receives frames, performs directory fetches and timed deliveries, calls
//! the coordinator's verified transition methods, and drains the queues.
//! Every transition is specified against the coordinator's mathematical
//! view, a [`WatcherView`].

use vstd::prelude::*;
use vstd::string::StringExecFns;
use crate::codec::decode_frame;
use crate::codec::decoded;
use crate::codec::encode_envelope;
use crate::codec::push_char;
use crate::codec::wire_envelope;
use crate::codec::DecodeError;
use crate::game_list::GameInfo;
use crate::types::GameEvent;
use crate::types::GameEventView;
use crate::types::GameId;
use crate::types::LichessWebsocketEvent;
use crate::types::WatcherCommand;
use crate::types::WsEventView;

verus! {

/// Seconds between two keepalive frames on an idle connection.
pub const KEEPALIVE_INTERVAL_SECS: u64 = 5;

/// Seconds between a session's finish event and the delivery of its
/// replacement command.
pub const REPLACE_COOLDOWN_SECS: u64 = 3;

/// One inbound occurrence on the streaming connection, reduced to what the
/// coordinator decides on: a text frame, a protocol-violating frame kind, a
/// frame kind the protocol ignores, or the end or failure of the stream.
#[derive(Debug, Clone, PartialEq, Eq)]
pub enum InboundMessage {
    /// A text frame with its payload.
    Text(String),
    /// A binary frame: a protocol violation.
    Binary,
    /// An unsolicited close frame: a protocol violation.
    Close,
    /// Any other frame kind; ignored.
    OtherFrame,
    /// The stream reported an error.
    StreamError,
    /// The stream ended.
    StreamEnded,
}

/// A fatal fault of the watch loop, surfaced to the caller instead of
/// ending the process.
#[derive(Debug, Clone, Copy, PartialEq, Eq, Structural)]
pub enum WatcherError {
    /// A binary frame arrived.
    UnexpectedBinary,
    /// An unsolicited close frame arrived.
    UnexpectedClose,
    /// The stream reported an error.
    StreamFailed,
    /// The stream ended.
    StreamEnded,
    /// A text frame other than the heartbeat could not be decoded.
    Decode(DecodeError),
}

/// The mathematical view of a coordinator: the watched identifiers in
/// display order, and the three effect queues in the order their entries
/// were produced.
#[verifier::ext_equal]
pub struct WatcherView {
    /// The watched session identifiers, in insertion order.
    pub watched: Seq<Seq<char>>,
    /// Text frames awaiting transmission on the streaming connection.
    pub outbox: Seq<Seq<char>>,
    /// Events awaiting delivery to the downstream consumer.
    pub published: Seq<GameEventView>,
    /// Identifiers whose replacement command awaits its cool-down delivery.
    pub scheduled: Seq<Seq<char>>,
}

/// The subscribe frame for one payload: a `startWatching` envelope.
pub open spec fn subscribe_frame(payload: Seq<char>) -> Seq<char> {
    wire_envelope("startWatching"@, payload)
}

/// The payload of a combined subscribe command: every identifier followed by
/// one space, in order.
pub open spec fn joined_payload(ids: Seq<Seq<char>>) -> Seq<char>
    decreases ids.len(),
{
    if ids.len() == 0 {
        Seq::empty()
    } else {
        ids[0] + seq![' '] + joined_payload(ids.drop_first())
    }
}

/// The identifiers of a directory snapshot, in fetch order.
pub open spec fn ids_of(games: Seq<GameInfo>) -> Seq<Seq<char>> {
    games.map_values(|g: GameInfo| g.id.0@)
}

/// The effect of watching one more session: one subscribe envelope, the
/// identifier appended, and one snapshot published.
pub open spec fn watch_one_step(w: WatcherView, id: Seq<char>) -> WatcherView {
    WatcherView {
        watched: w.watched.push(id),
        outbox: w.outbox.push(subscribe_frame(id)),
        published: w.published.push(GameEventView::GameListUpdate(w.watched.push(id))),
        scheduled: w.scheduled,
    }
}

/// The effect of subscribing to a whole directory snapshot: one combined
/// subscribe envelope, the identifiers appended in fetch order, and one
/// snapshot published.
pub open spec fn batch_step(w: WatcherView, ids: Seq<Seq<char>>) -> WatcherView {
    WatcherView {
        watched: w.watched + ids,
        outbox: w.outbox.push(subscribe_frame(joined_payload(ids))),
        published: w.published.push(GameEventView::GameListUpdate(w.watched + ids)),
        scheduled: w.scheduled,
    }
}

/// The effect of replacing the first occurrence of `old_id` by `new_id`:
/// where `old_id` is watched, one subscribe envelope for `new_id` and an
/// in-place overwrite of the first matching slot; where it is not, no
/// envelope and no change of the watch set.  Either way the resulting
/// snapshot is published.
pub open spec fn instead_step(w: WatcherView, new_id: Seq<char>, old_id: Seq<char>) -> WatcherView {
    let watched = match w.watched.index_of_first(old_id) {
        Some(p) => w.watched.update(p, new_id),
        None => w.watched,
    };
    let outbox = if w.watched.contains(old_id) {
        w.outbox.push(subscribe_frame(new_id))
    } else {
        w.outbox
    };
    WatcherView {
        watched: watched,
        outbox: outbox,
        published: w.published.push(GameEventView::GameListUpdate(watched)),
        scheduled: w.scheduled,
    }
}

/// The effect of one decoded session event: it is published, and a finish
/// additionally schedules the finished session's replacement command.
pub open spec fn session_event_step(w: WatcherView, ev: WsEventView) -> WatcherView {
    WatcherView {
        watched: w.watched,
        outbox: w.outbox,
        published: w.published.push(GameEventView::GameEvent(ev)),
        scheduled: match ev {
            WsEventView::Finish { id, win: _ } => w.scheduled.push(id),
            WsEventView::Fen { .. } => w.scheduled,
        },
    }
}

/// The watch-set coordinator.  It is the sole mutator of the watch set;
/// consumers only ever receive point-in-time snapshots through the
/// published queue.
pub struct Watcher {
    /// The ordered list of watched session identifiers.
    pub watched_games: Vec<GameId>,
    /// Encoded text frames awaiting transmission, oldest first.
    pub outbox: Vec<String>,
    /// Events awaiting delivery to the downstream consumer, oldest first.
    pub published: Vec<GameEvent>,
    /// Commands awaiting their cool-down delivery, oldest first.
    pub scheduled: Vec<WatcherCommand>,
}

impl View for Watcher {
    type V = WatcherView;

    open spec fn view(&self) -> WatcherView {
        WatcherView {
            watched: self.watched_games.deep_view(),
            outbox: self.outbox.deep_view(),
            published: self.published.deep_view(),
            scheduled: self.scheduled.deep_view(),
        }
    }
}

/// Copies a watch list, entry for entry.
fn clone_watch_list(v: &Vec<GameId>) -> (r: Vec<GameId>)
    ensures
        r@ == v@,
{
    let mut r: Vec<GameId> = Vec::new();
    let mut i: usize = 0;
    while i < v.len()
        invariant
            i <= v@.len(),
            r@ == v@.take(i as int),
        decreases v@.len() - i,
    {
        let id = GameId(v[i].0.clone());
        proof {
            assert(id == v@[i as int]);
            assert(v@.take(i as int + 1) =~= v@.take(i as int).push(v@[i as int]));
        }
        r.push(id);
        i = i + 1;
    }
    proof {
        assert(v@.take(v@.len() as int) =~= v@);
    }
    r
}

/// Copies one decoded event, field for field.
fn clone_event(ev: &LichessWebsocketEvent) -> (r: LichessWebsocketEvent)
    ensures
        r == *ev,
{
    match ev {
        LichessWebsocketEvent::Finish { id, win } => LichessWebsocketEvent::Finish {
            id: GameId(id.0.clone()),
            win: match win {
                Some(w) => Some(w.clone()),
                None => None,
            },
        },
        LichessWebsocketEvent::Fen { id, lm, fen, wc, bc } => LichessWebsocketEvent::Fen {
            id: GameId(id.0.clone()),
            lm: lm.clone(),
            fen: fen.clone(),
            wc: *wc,
            bc: *bc,
        },
    }
}

/// The position of the first entry equal to `needle`, if any.
fn position_of(v: &Vec<GameId>, needle: &GameId) -> (r: Option<usize>)
    ensures
        match r {
            Some(p) => p < v.deep_view().len() && v.deep_view()[p as int] == needle@ && (forall|
                j: int,
            |
                0 <= j < p ==> v.deep_view()[j] != needle@),
            None => !v.deep_view().contains(needle@),
        },
{
    let mut i: usize = 0;
    while i < v.len()
        invariant
            i <= v@.len(),
            forall|j: int| 0 <= j < i ==> v.deep_view()[j] != needle@,
        decreases v@.len() - i,
    {
        if v[i].0 == needle.0 {
            return Some(i);
        }
        i = i + 1;
    }
    None
}

impl Watcher {
    /// A fresh coordinator: nothing watched, every queue empty.
    pub fn new() -> (w: Watcher)
        ensures
            w@.watched == Seq::<Seq<char>>::empty(),
            w@.outbox == Seq::<Seq<char>>::empty(),
            w@.published == Seq::<GameEventView>::empty(),
            w@.scheduled == Seq::<Seq<char>>::empty(),
    {
        let w = Watcher {
            watched_games: Vec::new(),
            outbox: Vec::new(),
            published: Vec::new(),
            scheduled: Vec::new(),
        };
        proof {
            assert(w@.watched =~= Seq::<Seq<char>>::empty());
            assert(w@.outbox =~= Seq::<Seq<char>>::empty());
            assert(w@.published =~= Seq::<GameEventView>::empty());
            assert(w@.scheduled =~= Seq::<Seq<char>>::empty());
        }
        w
    }

    /// Subscribes to one more session: queues one subscribe envelope,
    /// appends the identifier to the watch set, and publishes the updated
    /// snapshot.
    pub fn start_watching_one(&mut self, id: GameId)
        ensures
            final(self)@ == watch_one_step(old(self)@, id@),
    {
        let frame = encode_envelope("startWatching", id.0.as_str());
        self.outbox.push(frame);
        self.watched_games.push(id);
        let snapshot = clone_watch_list(&self.watched_games);
        self.published.push(GameEvent::GameListUpdate(snapshot));
        proof {
            assert(self@ =~~= watch_one_step(old(self)@, id@));
        }
    }

    /// Subscribes to a whole directory snapshot at once: queues exactly one
    /// combined subscribe envelope whose payload is every fetched identifier
    /// followed by one space, in fetch order, extends the watch set with
    /// those identifiers in the same order, and publishes the snapshot.
    pub fn start_watching_current_games(&mut self, current_games: Vec<GameInfo>)
        ensures
            final(self)@ == batch_step(old(self)@, ids_of(current_games@)),
    {
        let ghost w0 = self@;
        let mut payload = String::new();
        let mut i: usize = 0;
        while i < current_games.len()
            invariant
                i <= current_games@.len(),
                payload@ == joined_payload(ids_of(current_games@.take(i as int))),
            decreases current_games@.len() - i,
        {
            let ghost pre = ids_of(current_games@.take(i as int));
            payload.append(current_games[i].id.0.as_str());
            push_char(&mut payload, ' ');
            proof {
                assert(ids_of(current_games@.take(i as int + 1)) =~= pre.push(
                    current_games@[i as int].id.0@,
                ));
                lemma_joined_push(pre, current_games@[i as int].id.0@);
            }
            i = i + 1;
        }
        proof {
            assert(current_games@.take(current_games@.len() as int) =~= current_games@);
        }
        let frame = encode_envelope("startWatching", payload.as_str());
        self.outbox.push(frame);
        let mut i: usize = 0;
        while i < current_games.len()
            invariant
                i <= current_games@.len(),
                self.watched_games.deep_view() == w0.watched + ids_of(
                    current_games@.take(i as int),
                ),
                self.outbox.deep_view() == w0.outbox.push(
                    subscribe_frame(joined_payload(ids_of(current_games@))),
                ),
                self.published.deep_view() == w0.published,
                self.scheduled.deep_view() == w0.scheduled,
            decreases current_games@.len() - i,
        {
            let next = GameId(current_games[i].id.0.clone());
            let ghost prev = self.watched_games.deep_view();
            proof {
                assert(next@ == current_games@[i as int].id.0@);
            }
            self.watched_games.push(next);
            proof {
                assert(self.watched_games.deep_view() =~~= prev.push(next@));
                assert(ids_of(current_games@.take(i as int + 1)) =~~= ids_of(
                    current_games@.take(i as int),
                ).push(next@));
                assert(self.watched_games.deep_view() =~~= w0.watched + ids_of(
                    current_games@.take(i as int + 1),
                ));
            }
            i = i + 1;
        }
        proof {
            assert(current_games@.take(current_games@.len() as int) =~= current_games@);
        }
        let snapshot = clone_watch_list(&self.watched_games);
        self.published.push(GameEvent::GameListUpdate(snapshot));
        proof {
            assert(self@ =~~= batch_step(w0, ids_of(current_games@)));
        }
    }

    /// Replaces the first watch-set entry equal to `instead_of_id` by `id`,
    /// preserving its position, after queueing a subscribe envelope for
    /// `id`; where `instead_of_id` is not watched, changes nothing and sends
    /// nothing.  Either way the resulting snapshot is published, so the
    /// downstream consumer is never left out of sync.
    pub fn start_watching_one_instead(&mut self, id: GameId, instead_of_id: GameId)
        ensures
            final(self)@ == instead_step(old(self)@, id@, instead_of_id@),
            final(self)@.watched.len() == old(self)@.watched.len(),
            old(self)@.watched.contains(instead_of_id@) ==> exists|p: int|
                0 <= p < old(self)@.watched.len() && old(self)@.watched[p] == instead_of_id@ && (
                forall|j: int| 0 <= j < p ==> old(self)@.watched[j] != instead_of_id@)
                    && final(self)@.watched == old(self)@.watched.update(p, id@),
            !old(self)@.watched.contains(instead_of_id@) ==> final(self)@.watched == old(
                self,
            )@.watched && final(self)@.outbox == old(self)@.outbox,
            final(self)@.published == old(self)@.published.push(
                GameEventView::GameListUpdate(final(self)@.watched),
            ),
            final(self)@.scheduled == old(self)@.scheduled,
    {
        let ghost w0 = self@;
        match position_of(&self.watched_games, &instead_of_id) {
            Some(p) => {
                let frame = encode_envelope("startWatching", id.0.as_str());
                self.outbox.push(frame);
                proof {
                    w0.watched.index_of_first_ensures(instead_of_id@);
                    assert(w0.watched.contains(instead_of_id@));
                    let q = w0.watched.index_of_first(instead_of_id@)->0;
                    assert(w0.watched[q] == instead_of_id@);
                    assert(q == p as int);
                }
                self.watched_games.remove(p);
                self.watched_games.insert(p, id);
                proof {
                    assert(self.watched_games.deep_view() =~= w0.watched.update(p as int, id@));
                }
            },
            None => {
                proof {
                    w0.watched.index_of_first_ensures(instead_of_id@);
                }
            },
        }
        let snapshot = clone_watch_list(&self.watched_games);
        self.published.push(GameEvent::GameListUpdate(snapshot));
        proof {
            assert(self@ =~~= instead_step(w0, id@, instead_of_id@));
        }
    }

    /// Whether the watch set is still below the target size, so that the
    /// replacement pump must fetch once more.
    pub fn needs_replacement(&self, target_count: usize) -> (r: bool)
        ensures
            r == (self@.watched.len() < target_count),
    {
        self.watched_games.len() < target_count
    }

    /// Queues one keepalive frame, the literal no-op payload `null`, and
    /// changes nothing else.
    pub fn keepalive_tick(&mut self)
        ensures
            final(self)@.outbox == old(self)@.outbox.push("null"@),
            final(self)@.watched == old(self)@.watched,
            final(self)@.published == old(self)@.published,
            final(self)@.scheduled == old(self)@.scheduled,
    {
        let frame = "null".to_owned();
        self.outbox.push(frame);
        proof {
            assert(self.outbox.deep_view() =~= old(self).outbox.deep_view().push("null"@));
        }
    }

    /// Reacts to one inbound occurrence on the streaming connection.  A
    /// heartbeat text frame yields no event and no effect; any other text
    /// frame decodes exactly as [`decoded`] says, and on success the event
    /// is published, a finish additionally scheduling the finished
    /// session's replacement command.  Violating frames and a failing or
    /// ended stream are fatal, and a fatal outcome leaves the coordinator
    /// unchanged.  Returns the decoded event, if the frame carried one.
    pub fn handle_message(&mut self, msg: InboundMessage) -> (r: Result<
        Option<LichessWebsocketEvent>,
        WatcherError,
    >)
        ensures
            match msg {
                InboundMessage::Text(t) => {
                    &&& (t@ == "0"@ <==> r == Ok::<Option<LichessWebsocketEvent>, WatcherError>(
                        None,
                    ))
                    &&& match decoded(t@) {
                        Ok(evv_opt) => match evv_opt {
                            None => r == Ok::<Option<LichessWebsocketEvent>, WatcherError>(None)
                                && final(self)@ == old(self)@,
                            Some(evv) => (r matches Ok(Some(ev)) && ev.deep_view() == evv)
                                && final(self)@ == session_event_step(old(self)@, evv),
                        },
                        Err(e) => r == Err::<Option<LichessWebsocketEvent>, WatcherError>(
                            WatcherError::Decode(e),
                        ) && final(self)@ == old(self)@,
                    }
                },
                InboundMessage::Binary => r == Err::<Option<LichessWebsocketEvent>, WatcherError>(
                    WatcherError::UnexpectedBinary,
                ) && final(self)@ == old(self)@,
                InboundMessage::Close => r == Err::<Option<LichessWebsocketEvent>, WatcherError>(
                    WatcherError::UnexpectedClose,
                ) && final(self)@ == old(self)@,
                InboundMessage::OtherFrame => r == Ok::<
                    Option<LichessWebsocketEvent>,
                    WatcherError,
                >(None) && final(self)@ == old(self)@,
                InboundMessage::StreamError => r == Err::<
                    Option<LichessWebsocketEvent>,
                    WatcherError,
                >(WatcherError::StreamFailed) && final(self)@ == old(self)@,
                InboundMessage::StreamEnded => r == Err::<
                    Option<LichessWebsocketEvent>,
                    WatcherError,
                >(WatcherError::StreamEnded) && final(self)@ == old(self)@,
            },
    {
        match msg {
            InboundMessage::Text(t) => {
                match decode_frame(t.as_str()) {
                    Ok(None) => Ok(None),
                    Ok(Some(ev)) => {
                        if let LichessWebsocketEvent::Finish { id, win: _ } = &ev {
                            self.scheduled.push(WatcherCommand::ReplaceGame(GameId(id.0.clone())));
                        }
                        let published_copy = clone_event(&ev);
                        self.published.push(GameEvent::GameEvent(published_copy));
                        proof {
                            assert(self@ =~~= session_event_step(old(self)@, ev.deep_view()));
                        }
                        Ok(Some(ev))
                    },
                    Err(e) => Err(WatcherError::Decode(e)),
                }
            },
            InboundMessage::Binary => Err(WatcherError::UnexpectedBinary),
            InboundMessage::Close => Err(WatcherError::UnexpectedClose),
            InboundMessage::OtherFrame => Ok(None),
            InboundMessage::StreamError => Err(WatcherError::StreamFailed),
            InboundMessage::StreamEnded => Err(WatcherError::StreamEnded),
        }
    }

    /// Processes one internal command with the replacement identifier the
    /// directory returned for it: the finished session's slot is handed to
    /// the replacement by exactly one in-place substitution.
    pub fn handle_command(&mut self, cmd: WatcherCommand, replacement: GameId)
        ensures
            final(self)@ == instead_step(old(self)@, replacement@, cmd.deep_view()),
    {
        match cmd {
            WatcherCommand::ReplaceGame(which) => {
                self.start_watching_one_instead(replacement, which);
            },
        }
    }

    /// Hands the queued outbound frames to the caller, oldest first, and
    /// empties the queue.
    pub fn take_outbound(&mut self) -> (r: Vec<String>)
        ensures
            r.deep_view() == old(self)@.outbox,
            final(self)@.outbox == Seq::<Seq<char>>::empty(),
            final(self)@.watched == old(self)@.watched,
            final(self)@.published == old(self)@.published,
            final(self)@.scheduled == old(self)@.scheduled,
    {
        let mut r: Vec<String> = Vec::new();
        core::mem::swap(&mut r, &mut self.outbox);
        proof {
            assert(self.outbox.deep_view() =~= Seq::<Seq<char>>::empty());
        }
        r
    }

    /// Hands the queued downstream events to the caller, oldest first, and
    /// empties the queue.
    pub fn take_published(&mut self) -> (r: Vec<GameEvent>)
        ensures
            r.deep_view() == old(self)@.published,
            final(self)@.published == Seq::<GameEventView>::empty(),
            final(self)@.watched == old(self)@.watched,
            final(self)@.outbox == old(self)@.outbox,
            final(self)@.scheduled == old(self)@.scheduled,
    {
        let mut r: Vec<GameEvent> = Vec::new();
        core::mem::swap(&mut r, &mut self.published);
        proof {
            assert(self.published.deep_view() =~= Seq::<GameEventView>::empty());
        }
        r
    }

    /// Hands the commands awaiting their cool-down to the caller, oldest
    /// first, and empties the queue.
    pub fn take_scheduled(&mut self) -> (r: Vec<WatcherCommand>)
        ensures
            r.deep_view() == old(self)@.scheduled,
            final(self)@.scheduled == Seq::<Seq<char>>::empty(),
            final(self)@.watched == old(self)@.watched,
            final(self)@.outbox == old(self)@.outbox,
            final(self)@.published == old(self)@.published,
    {
        let mut r: Vec<WatcherCommand> = Vec::new();
        core::mem::swap(&mut r, &mut self.scheduled);
        proof {
            assert(self.scheduled.deep_view() =~= Seq::<Seq<char>>::empty());
        }
        r
    }
}

#[verifier::external_type_specification]
#[verifier::external_body]
pub struct ExThreadRng(rand::rngs::ThreadRng);

/// Whether a byte is an ASCII digit or letter.
pub open spec fn is_alphanumeric_byte(b: u8) -> bool {
    (48 <= b && b <= 57) || (65 <= b && b <= 90) || (97 <= b && b <= 122)
}

/// Relies on `Rng::sample` with the `Alphanumeric` distribution: every
/// sample is one byte from `0`-`9`, `A`-`Z` or `a`-`z`.
#[verifier::external_body]
fn sample_alphanumeric(rng: &mut rand::rngs::ThreadRng) -> (b: u8)
    ensures
        is_alphanumeric_byte(b),
{
    rand::Rng::sample(rng, rand::distributions::Alphanumeric)
}

/// Length of a client session token.
pub const SRI_LENGTH: usize = 12;

/// Draws a fresh client session token: twelve alphanumeric characters.  The
/// token only has to be distinctive, not cryptographic.
pub fn make_sri(rng: &mut rand::rngs::ThreadRng) -> (s: String)
    ensures
        s@.len() == SRI_LENGTH,
        forall|i: int| 0 <= i < s@.len() ==> is_alphanumeric_byte(s@[i] as u8),
{
    let mut s = String::new();
    let mut i: usize = 0;
    while i < SRI_LENGTH
        invariant
            i <= SRI_LENGTH,
            s@.len() == i,
            forall|j: int| 0 <= j < s@.len() ==> is_alphanumeric_byte(s@[j] as u8),
        decreases SRI_LENGTH - i,
    {
        let b = sample_alphanumeric(rng);
        push_char(&mut s, b as char);
        proof {
            assert(s@[s@.len() - 1] == b as char);
            assert((b as char) as u8 == b);
        }
        i = i + 1;
    }
    s
}

/// The connection target for one client session token.
pub fn socket_url(sri: &str) -> (u: String)
    ensures
        u@ == "wss://socket2.lichess.org/socket/v5?sri="@ + sri@,
{
    let mut u = "wss://socket2.lichess.org/socket/v5?sri=".to_owned();
    u.append(sri);
    u
}

/// The coordinator state after the replacement pump has taken the given
/// fetched identifiers, one `start_watching_one` step each, in order.
pub open spec fn pump_fold(w: WatcherView, ids: Seq<Seq<char>>) -> WatcherView
    decreases ids.len(),
{
    if ids.len() == 0 {
        w
    } else {
        pump_fold(watch_one_step(w, ids[0]), ids.drop_first())
    }
}

/// Each pump step grows the watch set by exactly one entry.
pub proof fn lemma_pump_fold_len(w: WatcherView, ids: Seq<Seq<char>>)
    ensures
        pump_fold(w, ids).watched.len() == w.watched.len() + ids.len(),
    decreases ids.len(),
{
    if ids.len() > 0 {
        lemma_pump_fold_len(watch_one_step(w, ids[0]), ids.drop_first());
    }
}

/// Pump termination: from a watch set below the target, taking one fetched
/// identifier per step, the pump reaches the target after exactly
/// `target - k` steps, and after no fewer — every proper prefix of the
/// fetches leaves the watch set still below the target, so the pump's
/// guard, `needs_replacement`, keeps it fetching until then and stops it
/// there.  (From a watch set at or above the target the guard is false at
/// once and the pump takes zero steps.)
pub proof fn lemma_pump_termination(w: WatcherView, target: int, ids: Seq<Seq<char>>)
    requires
        w.watched.len() < target,
        ids.len() == target - w.watched.len(),
    ensures
        pump_fold(w, ids).watched.len() == target,
        forall|n: int|
            0 <= n < ids.len() ==> #[trigger] pump_fold(w, ids.take(n)).watched.len() < target,
{
    lemma_pump_fold_len(w, ids);
    assert forall|n: int| 0 <= n < ids.len() implies #[trigger] pump_fold(
        w,
        ids.take(n),
    ).watched.len() < target by {
        lemma_pump_fold_len(w, ids.take(n));
    }
}

/// Finish, cool-down, replace: a finish event for a watched session
/// schedules exactly one replacement command for it, and processing that
/// command with the directory's replacement identifier substitutes the
/// replacement at the finished session's position, queues exactly one
/// subscribe envelope for it, and publishes exactly one snapshot of the
/// resulting watch set, whose length is unchanged.
pub proof fn lemma_finish_then_replace(
    w: WatcherView,
    finished: Seq<char>,
    win: Option<Seq<char>>,
    replacement: Seq<char>,
)
    requires
        w.watched.contains(finished),
    ensures
        ({
            let after_finish = session_event_step(w, WsEventView::Finish { id: finished, win });
            let after_replace = instead_step(after_finish, replacement, finished);
            &&& after_finish.scheduled == w.scheduled.push(finished)
            &&& after_finish.watched == w.watched
            &&& after_finish.outbox == w.outbox
            &&& after_replace.watched.len() == w.watched.len()
            &&& exists|p: int|
                0 <= p < w.watched.len() && w.watched[p] == finished && (forall|j: int|
                    0 <= j < p ==> w.watched[j] != finished) && after_replace.watched
                    == w.watched.update(p, replacement)
            &&& after_replace.outbox == w.outbox.push(subscribe_frame(replacement))
            &&& after_replace.published == w.published.push(
                GameEventView::GameEvent(WsEventView::Finish { id: finished, win }),
            ).push(GameEventView::GameListUpdate(after_replace.watched))
            &&& after_replace.scheduled == w.scheduled.push(finished)
        }),
{
    let after_finish = session_event_step(w, WsEventView::Finish { id: finished, win });
    w.watched.index_of_first_ensures(finished);
    let p = match w.watched.index_of_first(finished) {
        Some(p) => p,
        None => 0,
    };
    assert(0 <= p < w.watched.len() && w.watched[p] == finished && (forall|j: int|
        0 <= j < p ==> w.watched[j] != finished) && instead_step(
        after_finish,
        replacement,
        finished,
    ).watched == w.watched.update(p, replacement));
}

/// Joining one more identifier appends it and one space.
pub proof fn lemma_joined_push(ids: Seq<Seq<char>>, id: Seq<char>)
    ensures
        joined_payload(ids.push(id)) == joined_payload(ids) + id + seq![' '],
    decreases ids.len(),
{
    if ids.len() == 0 {
        assert(joined_payload(ids) == Seq::<char>::empty());
        assert(ids.push(id)[0] == id);
        assert(ids.push(id).drop_first() =~= ids);
        assert(joined_payload(ids.push(id)) == id + seq![' '] + joined_payload(ids));
        assert(joined_payload(ids.push(id)) =~= joined_payload(ids) + id + seq![' ']);
    } else {
        lemma_joined_push(ids.drop_first(), id);
        assert(joined_payload(ids.push(id)) == ids[0] + seq![' '] + joined_payload(
            ids.drop_first().push(id),
        )) by {
            assert(ids.push(id).len() != 0);
            assert(ids.push(id)[0] == ids[0]);
            assert(ids.push(id).drop_first() =~= ids.drop_first().push(id));
        }
        assert(joined_payload(ids) == ids[0] + seq![' '] + joined_payload(ids.drop_first()));
        assert(joined_payload(ids.push(id)) =~= joined_payload(ids) + id + seq![' ']);
    }
}

} // verus!
