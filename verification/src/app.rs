//! The chat session: what the node shows and how it reacts to keys, to peers
//! found on the local network and to messages of the channel.

use vstd::prelude::*;
use crate::error::{AfriMeshError, error_label};
use crate::network::{
    self, CHAT_TOPIC, subscribed_topics, publish_effect, subscribe_effect, peered_topics,
    ids_from_state, publish_accepted, setup_kept, max_transmit_size,
};
use crate::text::{lossy_text, pop_char, push_char, utf8_lossy};

verus! {

#[verifier::external_type_specification]
#[verifier::external_body]
#[verifier::reject_recursive_types(T)]
pub struct ExUnboundedSender<T>(tokio::sync::mpsc::UnboundedSender<T>);

/// Whether keys go to commands (`Normal`) or into the input line (`Editing`).
#[derive(Debug, Clone, Copy, PartialEq, Eq, Structural)]
pub enum InputMode {
    Normal,
    Editing,
}

/// A key of the keyboard, as far as the session tells keys apart.
#[derive(Debug, Clone, Copy, PartialEq, Eq, Structural)]
pub enum KeyInput {
    Char(char),
    Enter,
    Backspace,
    Esc,
    Other,
}

/// Whether a key event is a press, a repeat or a release.
#[derive(Debug, Clone, Copy, PartialEq, Eq, Structural)]
pub enum KeyKind {
    Press,
    Repeat,
    Release,
}

/// The state of a chat session.
pub struct App {
    pub should_quit: bool,
    pub input_mode: InputMode,
    pub input_buffer: String,
    pub messages: Vec<String>,
    pub peers: Vec<String>,
    pub my_id: String,
    pub tx: tokio::sync::mpsc::UnboundedSender<String>,
}

/// The session as plain values (the outgoing channel left aside).
pub struct AppView {
    pub should_quit: bool,
    pub input_mode: InputMode,
    pub input_buffer: Seq<char>,
    pub messages: Seq<Seq<char>>,
    pub peers: Seq<Seq<char>>,
    pub my_id: Seq<char>,
}

/// The texts of a sequence of strings.
pub open spec fn texts(v: Seq<String>) -> Seq<Seq<char>> {
    v.map_values(|s: String| s@)
}

impl View for App {
    type V = AppView;

    open spec fn view(&self) -> AppView {
        AppView {
            should_quit: self.should_quit,
            input_mode: self.input_mode,
            input_buffer: self.input_buffer@,
            messages: texts(self.messages@),
            peers: texts(self.peers@),
            my_id: self.my_id@,
        }
    }
}

/// A fresh session of the node `my_id`.
pub open spec fn initial(my_id: Seq<char>) -> AppView {
    AppView {
        should_quit: false,
        input_mode: InputMode::Normal,
        input_buffer: Seq::empty(),
        messages: Seq::empty(),
        peers: Seq::empty(),
        my_id,
    }
}

/// The history line of a message the user sent.
pub open spec fn own_line(text: Seq<char>) -> Seq<char> {
    "Me: "@ + text
}

/// The history line shown when the network side no longer takes messages.
pub open spec fn disconnected_notice() -> Seq<char> {
    "SYSTEM ERROR: Network thread disconnected."@
}

/// The history line of a message received from `peer`.
pub open spec fn received_line(peer: Seq<char>, text: Seq<char>) -> Seq<char> {
    peer + ": "@ + text
}

/// The session after `line` is added to the history.
pub open spec fn with_line(s: AppView, line: Seq<char>) -> AppView {
    AppView { messages: s.messages.push(line), ..s }
}

/// The session after the input line is sent: it is recorded in the history
/// (followed by a notice when the network side did not take it), the input
/// is emptied and the mode goes back to `Normal`.
pub open spec fn submitted(s: AppView, delivered: bool) -> AppView {
    let recorded = s.messages.push(own_line(s.input_buffer));
    AppView {
        messages: if delivered {
            recorded
        } else {
            recorded.push(disconnected_notice())
        },
        input_buffer: Seq::empty(),
        input_mode: InputMode::Normal,
        ..s
    }
}

/// Whether a key event sends the input line.
pub open spec fn is_submit(s: AppView, kind: KeyKind, code: KeyInput) -> bool {
    kind is Press && s.input_mode is Editing && code is Enter
}

/// The session after a key press; `delivered` tells, for a press of Enter
/// while editing, whether the network side took the message.
pub open spec fn press_key(s: AppView, code: KeyInput, delivered: bool) -> AppView {
    match s.input_mode {
        InputMode::Normal => match code {
            KeyInput::Char('q') => AppView { should_quit: true, ..s },
            KeyInput::Char('i') => AppView { input_mode: InputMode::Editing, ..s },
            _ => s,
        },
        InputMode::Editing => match code {
            KeyInput::Enter => submitted(s, delivered),
            KeyInput::Char(c) => AppView { input_buffer: s.input_buffer.push(c), ..s },
            KeyInput::Backspace => if s.input_buffer.len() > 0 {
                AppView { input_buffer: s.input_buffer.drop_last(), ..s }
            } else {
                s
            },
            KeyInput::Esc => AppView { input_mode: InputMode::Normal, ..s },
            KeyInput::Other => s,
        },
    }
}

/// The session after a key event: only presses have an effect.
pub open spec fn key_step(s: AppView, kind: KeyKind, code: KeyInput, delivered: bool) -> AppView {
    if kind is Press {
        press_key(s, code, delivered)
    } else {
        s
    }
}

/// The session after `peer` was found on the local network: it joins the
/// list of peers unless it is already there.
pub open spec fn peer_found(s: AppView, peer: Seq<char>) -> AppView {
    if s.peers.contains(peer) {
        s
    } else {
        AppView { peers: s.peers.push(peer), ..s }
    }
}

/// No peer is listed twice.
pub open spec fn peers_distinct(s: AppView) -> bool {
    forall|i: int, j: int| 0 <= i < j < s.peers.len() ==> s.peers[i] != s.peers[j]
}

/// The session `new_s` is `old_s` with one more line in the history, and
/// that line starts with `lead`.
pub open spec fn noted(old_s: AppView, new_s: AppView, lead: Seq<char>) -> bool {
    &&& new_s.messages.len() == old_s.messages.len() + 1
    &&& new_s == with_line(old_s, new_s.messages.last())
    &&& lead.is_prefix_of(new_s.messages.last())
}

/// How the report of a failed publication starts.
pub open spec fn send_failure_lead() -> Seq<char> {
    "SYSTEM ERROR: Message failed to send: "@
}

/// How the report of a failed subscription starts.
pub open spec fn join_failure_lead() -> Seq<char> {
    "SYSTEM ERROR: Failed to join channel: "@
}

proof fn lemma_texts_push(v: Seq<String>, s: String)
    ensures
        texts(v.push(s)) == texts(v).push(s@),
{
    assert(texts(v.push(s)) =~= texts(v).push(s@));
}

impl App {
    /// A fresh session of the node `my_id`, sending through `tx`.
    pub fn new(my_id: String, tx: tokio::sync::mpsc::UnboundedSender<String>) -> (app: Self)
        ensures
            app@ == initial(my_id@),
            app.tx == tx,
    {
        let app = Self {
            should_quit: false,
            input_mode: InputMode::Normal,
            input_buffer: String::new(),
            messages: Vec::new(),
            peers: Vec::new(),
            my_id,
            tx,
        };
        assert(texts(app.messages@) =~= Seq::<Seq<char>>::empty());
        assert(texts(app.peers@) =~= Seq::<Seq<char>>::empty());
        app
    }

    /// Periodic work: there is none, the session is unchanged.
    pub fn on_tick(&mut self)
        ensures
            *final(self) == *old(self),
    {
    }

    /// Adds `line` to the history.
    fn push_line(&mut self, line: String)
        ensures
            final(self)@ == with_line(old(self)@, line@),
            final(self).tx == old(self).tx,
    {
        proof {
            lemma_texts_push(self.messages@, line);
        }
        self.messages.push(line);
    }

    /// Notes that the network side did not take the line just sent.
    pub fn note_undelivered(&mut self)
        ensures
            final(self)@ == with_line(old(self)@, disconnected_notice()),
            final(self).tx == old(self).tx,
    {
        self.push_line("SYSTEM ERROR: Network thread disconnected.".to_owned());
    }

    /// Reacts to a key event. Enter while editing records the input line in
    /// the history, empties it, returns to command mode and gives back the
    /// line, which is then to be handed to the network side (see
    /// `note_undelivered` for when it does not take it).
    pub fn handle_key(&mut self, kind: KeyKind, code: KeyInput) -> (outgoing: Option<String>)
        ensures
            final(self)@ == key_step(old(self)@, kind, code, true),
            is_submit(old(self)@, kind, code) <==> outgoing is Some,
            outgoing is Some ==> outgoing->0@ == old(self)@.input_buffer,
            final(self).tx == old(self).tx,
    {
        match kind {
            KeyKind::Press => {},
            _ => {
                return None;
            },
        }
        match self.input_mode {
            InputMode::Normal => match code {
                KeyInput::Char('q') => {
                    self.should_quit = true;
                },
                KeyInput::Char('i') => {
                    self.input_mode = InputMode::Editing;
                },
                _ => {},
            },
            InputMode::Editing => match code {
                KeyInput::Enter => {
                    let msg = self.input_buffer.clone();
                    let mut line = "Me: ".to_owned();
                    line.append(msg.as_str());
                    self.push_line(line);
                    self.input_buffer = String::new();
                    self.input_mode = InputMode::Normal;
                    return Some(msg);
                },
                KeyInput::Char(c) => {
                    push_char(&mut self.input_buffer, c);
                },
                KeyInput::Backspace => {
                    let _ = pop_char(&mut self.input_buffer);
                },
                KeyInput::Esc => {
                    self.input_mode = InputMode::Normal;
                },
                KeyInput::Other => {},
            },
        }
        None
    }

    /// Notes that `peer` was found on the local network.
    pub fn add_peer(&mut self, peer: String)
        ensures
            final(self)@ == peer_found(old(self)@, peer@),
            final(self).tx == old(self).tx,
    {
        let n = self.peers.len();
        let mut i: usize = 0;
        while i < n
            invariant
                n == self.peers.len(),
                0 <= i <= n,
                forall|j: int| 0 <= j < i ==> texts(self.peers@)[j] != peer@,
            decreases n - i,
        {
            if self.peers[i] == peer {
                assert(texts(self.peers@)[i as int] == peer@);
                return;
            }
            i = i + 1;
        }
        assert(!texts(self.peers@).contains(peer@));
        proof {
            lemma_texts_push(self.peers@, peer);
        }
        self.peers.push(peer);
    }

    /// Records a message of the channel, received through `peer`, whose
    /// bytes are `data`.
    pub fn receive_message(&mut self, peer: String, data: &[u8])
        ensures
            final(self)@ == with_line(old(self)@, received_line(peer@, lossy_text(data@))),
            final(self).tx == old(self).tx,
    {
        let text = utf8_lossy(data);
        let mut line = peer;
        line.append(": ");
        line.append(text.as_str());
        self.push_line(line);
    }

    /// Reports that a message could not be published.
    pub fn report_publish_error(&mut self, e: &AfriMeshError)
        ensures
            noted(old(self)@, final(self)@, send_failure_lead() + error_label(*e)),
            final(self).tx == old(self).tx,
    {
        let mut line = "SYSTEM ERROR: Message failed to send: ".to_owned();
        line.append(e.message().as_str());
        self.push_line(line);
    }

    /// Reports that the chat channel could not be joined.
    pub fn report_subscribe_error(&mut self, e: &AfriMeshError)
        ensures
            noted(old(self)@, final(self)@, join_failure_lead() + error_label(*e)),
            final(self).tx == old(self).tx,
    {
        let mut line = "SYSTEM ERROR: Failed to join channel: ".to_owned();
        line.append(e.message().as_str());
        self.push_line(line);
    }

    /// Joins the chat channel; a failure is reported in the history.
    pub fn join_chat(&mut self, gossip: &mut libp2p::gossipsub::Behaviour)
        ensures
            final(self)@ == old(self)@,
            final(self).tx == old(self).tx,
            subscribe_effect(*old(gossip), *final(gossip), CHAT_TOPIC@),
    {
        if let Err(e) = network::subscribe(gossip, CHAT_TOPIC) {
            self.report_subscribe_error(&e);
        }
    }

    /// Records the answer of a publication: nothing on success, a report of
    /// the refusal otherwise.
    pub fn record_publish_result(&mut self, r: &crate::error::AfriMeshResult<libp2p::gossipsub::MessageId>)
        ensures
            r is Ok ==> final(self)@ == old(self)@,
            r is Err ==> noted(old(self)@, final(self)@, send_failure_lead() + error_label(r->Err_0)),
            final(self).tx == old(self).tx,
    {
        if let Err(e) = r {
            self.report_publish_error(e);
        }
    }

    /// Publishes a line the user sent on the chat channel; a refusal is
    /// reported in the history. It is refused when no peer is known on the
    /// channel and when its UTF-8 bytes exceed the configured transmit size; a
    /// signing behaviour with the default message-id function accepts it
    /// exactly when `publish_accepted` holds of its state, the channel and the
    /// line's UTF-8 bytes.
    pub fn publish_outgoing(&mut self, gossip: &mut libp2p::gossipsub::Behaviour, msg: String)
        ensures
            outgoing_published(old(self)@, final(self)@, *old(gossip), *final(gossip), msg@)
                || outgoing_refused(old(self)@, final(self)@, *old(gossip), *final(gossip), msg@),
            !peered_topics(*old(gossip)).contains(CHAT_TOPIC@) ==> outgoing_refused(
                old(self)@,
                final(self)@,
                *old(gossip),
                *final(gossip),
                msg@,
            ),
            vstd::utf8::encode_utf8(msg@).len() > max_transmit_size(*old(gossip)) ==> outgoing_refused(
                old(self)@,
                final(self)@,
                *old(gossip),
                *final(gossip),
                msg@,
            ),
            ids_from_state(*old(gossip)) && publish_accepted(
                *old(gossip),
                CHAT_TOPIC@,
                vstd::utf8::encode_utf8(msg@),
            ) ==> outgoing_published(old(self)@, final(self)@, *old(gossip), *final(gossip), msg@),
            ids_from_state(*old(gossip)) && !publish_accepted(
                *old(gossip),
                CHAT_TOPIC@,
                vstd::utf8::encode_utf8(msg@),
            ) ==> outgoing_refused(old(self)@, final(self)@, *old(gossip), *final(gossip), msg@),
            final(self).tx == old(self).tx,
            subscribed_topics(*final(gossip)) == subscribed_topics(*old(gossip)),
            setup_kept(*old(gossip), *final(gossip)),
    {
        let answer = network::publish(gossip, CHAT_TOPIC, msg);
        self.record_publish_result(&answer);
    }
}

/// A line of the user went out on the chat channel: the session is as it was,
/// and the behaviour queued the line's bytes on the channel for at least one
/// peer (`publish_effect` of a success).
pub open spec fn outgoing_published(
    s_old: AppView,
    s_new: AppView,
    g_old: libp2p::gossipsub::Behaviour,
    g_new: libp2p::gossipsub::Behaviour,
    msg: Seq<char>,
) -> bool {
    &&& s_new == s_old
    &&& publish_effect(g_old, g_new, CHAT_TOPIC@, vstd::utf8::encode_utf8(msg), true)
}

/// A line of the user was refused: the refusal is reported in the history
/// and the behaviour queued and cached nothing (`publish_effect` of a
/// failure).
pub open spec fn outgoing_refused(
    s_old: AppView,
    s_new: AppView,
    g_old: libp2p::gossipsub::Behaviour,
    g_new: libp2p::gossipsub::Behaviour,
    msg: Seq<char>,
) -> bool {
    &&& noted(s_old, s_new, send_failure_lead() + "Failed to publish message: "@)
    &&& publish_effect(g_old, g_new, CHAT_TOPIC@, vstd::utf8::encode_utf8(msg), false)
}

/// Only key presses count: a repeat or a release leaves the session as it is.
pub proof fn lemma_non_press_ignored(s: AppView, kind: KeyKind, code: KeyInput, delivered: bool)
    requires
        !(kind is Press),
    ensures
        key_step(s, kind, code, delivered) == s,
{
}

/// The history is append-only: no key, found peer or received line removes
/// or changes a line already there.
pub proof fn lemma_history_append_only(
    s: AppView,
    kind: KeyKind,
    code: KeyInput,
    delivered: bool,
    peer: Seq<char>,
    line: Seq<char>,
)
    ensures
        s.messages.is_prefix_of(key_step(s, kind, code, delivered).messages),
        s.messages.is_prefix_of(peer_found(s, peer).messages),
        s.messages.is_prefix_of(with_line(s, line).messages),
{
    let r = key_step(s, kind, code, delivered);
    if is_submit(s, kind, code) {
        let recorded = s.messages.push(own_line(s.input_buffer));
        assert(s.messages.is_prefix_of(recorded));
        if !delivered {
            assert(recorded.is_prefix_of(recorded.push(disconnected_notice())));
        }
    }
    assert(s.messages.is_prefix_of(s.messages.push(line)));
}

/// No peer is ever listed twice: a fresh session lists none, and neither
/// keys, nor found peers, nor received lines break that.
pub proof fn lemma_peers_stay_distinct(
    s: AppView,
    kind: KeyKind,
    code: KeyInput,
    delivered: bool,
    peer: Seq<char>,
    line: Seq<char>,
    my_id: Seq<char>,
)
    requires
        peers_distinct(s),
    ensures
        peers_distinct(initial(my_id)),
        peers_distinct(key_step(s, kind, code, delivered)),
        peers_distinct(peer_found(s, peer)),
        peers_distinct(with_line(s, line)),
{
    if !s.peers.contains(peer) {
        let p = s.peers.push(peer);
        assert forall|i: int, j: int| 0 <= i < j < p.len() implies p[i] != p[j] by {
            if j == s.peers.len() {
                assert(s.peers[i] == p[i]);
            }
        }
    }
}

/// Finding a peer twice is the same as finding it once, and afterwards the
/// peer is listed.
pub proof fn lemma_peer_found_idempotent(s: AppView, peer: Seq<char>)
    ensures
        peer_found(peer_found(s, peer), peer) == peer_found(s, peer),
        peer_found(s, peer).peers.contains(peer),
{
    if !s.peers.contains(peer) {
        assert(s.peers.push(peer)[s.peers.len() as int] == peer);
    }
}

/// While editing, typing a character and then Backspace gives back the
/// session as it was.
pub proof fn lemma_type_then_erase(s: AppView, c: char, delivered: bool)
    requires
        s.input_mode is Editing,
    ensures
        key_step(
            key_step(s, KeyKind::Press, KeyInput::Char(c), delivered),
            KeyKind::Press,
            KeyInput::Backspace,
            delivered,
        ) == s,
{
    assert(s.input_buffer.push(c).drop_last() =~= s.input_buffer);
}

/// Pressing `i` and then Esc leaves a session in command mode as it was.
pub proof fn lemma_edit_then_escape(s: AppView, delivered: bool)
    requires
        s.input_mode is Normal,
    ensures
        key_step(
            key_step(s, KeyKind::Press, KeyInput::Char('i'), delivered),
            KeyKind::Press,
            KeyInput::Esc,
            delivered,
        ) == s,
{
}

/// Sending the input line records it as the user's own line right after the
/// earlier history, empties the input and returns to command mode; the
/// notice of a lost message can only follow it.
pub proof fn lemma_submission_records_line(s: AppView, delivered: bool)
    ensures
        submitted(s, delivered).messages[s.messages.len() as int] == own_line(s.input_buffer),
        submitted(s, delivered).messages.len() == s.messages.len() + if delivered {
            1int
        } else {
            2int
        },
        submitted(s, delivered).input_buffer.len() == 0,
        submitted(s, delivered).input_mode is Normal,
        !delivered ==> submitted(s, delivered).messages.last() == disconnected_notice(),
{
}

/// Sending the input line and then learning that the network side did not
/// take it gives the session of an undelivered submission.
pub proof fn lemma_undelivered_submission(s: AppView)
    ensures
        with_line(submitted(s, true), disconnected_notice()) == submitted(s, false),
{
}

/// Once the session is asked to quit it stays so, and the node's name never
/// changes.
pub proof fn lemma_quit_and_name_stay(s: AppView, kind: KeyKind, code: KeyInput, delivered: bool)
    ensures
        s.should_quit ==> key_step(s, kind, code, delivered).should_quit,
        key_step(s, kind, code, delivered).my_id == s.my_id,
{
}

/// In command mode only `q` and `i` do anything: any other key press leaves
/// the session exactly as it was.
pub proof fn lemma_command_mode_other_keys(s: AppView, code: KeyInput, delivered: bool)
    requires
        s.input_mode is Normal,
        code != KeyInput::Char('q'),
        code != KeyInput::Char('i'),
    ensures
        key_step(s, KeyKind::Press, code, delivered) == s,
{
}

/// The session is asked to quit only by a press of `q` in command mode, and
/// that press does ask it to quit.
pub proof fn lemma_only_q_quits(s: AppView, kind: KeyKind, code: KeyInput, delivered: bool)
    ensures
        !s.should_quit && key_step(s, kind, code, delivered).should_quit ==> kind is Press
            && s.input_mode is Normal && code == KeyInput::Char('q'),
        kind is Press && s.input_mode is Normal && code == KeyInput::Char('q') ==> key_step(
            s,
            kind,
            code,
            delivered,
        ).should_quit,
{
}

/// While editing, a press of a key that is not a character, Enter,
/// Backspace or Esc leaves the session, the input line included, exactly as
/// it was; and the input line changes only by a character, Backspace or
/// Enter.
pub proof fn lemma_editing_other_keys(s: AppView, kind: KeyKind, code: KeyInput, delivered: bool)
    requires
        s.input_mode is Editing,
    ensures
        code is Other ==> key_step(s, kind, code, delivered) == s,
        code is Esc || code is Other ==> key_step(s, kind, code, delivered).input_buffer
            == s.input_buffer,
{
}

/// Sending while editing adds, right after the earlier history, the line
/// "Me: " followed by the whole input line, and nothing else before it: its
/// length is four more than the input's, it starts with "Me: " and the rest
/// is the input, character for character.
pub proof fn lemma_sent_line_is_whole(s: AppView, delivered: bool)
    requires
        s.input_mode is Editing,
    ensures
        ({
            let line = key_step(s, KeyKind::Press, KeyInput::Enter, delivered).messages[s.messages.len() as int];
            &&& line.len() == s.input_buffer.len() + 4
            &&& line.subrange(0, 4) == seq!['M', 'e', ':', ' ']
            &&& line.subrange(4, line.len() as int) == s.input_buffer
        }),
        key_step(s, KeyKind::Press, KeyInput::Enter, delivered).messages.subrange(
            0,
            s.messages.len() as int,
        ) == s.messages,
{
    reveal_strlit("Me: ");
    let line = own_line(s.input_buffer);
    assert(line.subrange(0, 4) =~= seq!['M', 'e', ':', ' ']);
    assert(line.subrange(4, line.len() as int) =~= s.input_buffer);
    let r = key_step(s, KeyKind::Press, KeyInput::Enter, delivered);
    assert(r.messages.subrange(0, s.messages.len() as int) =~= s.messages);
}

/// A received message is recorded as one more history line, after the
/// earlier ones: the peer, then ": ", then the whole decoded text, so that
/// its length is the peer's plus two plus the text's.
pub proof fn lemma_received_line_is_whole(s: AppView, peer: Seq<char>, text: Seq<char>)
    ensures
        ({
            let after = with_line(s, received_line(peer, text));
            let line = after.messages.last();
            &&& after.messages.len() == s.messages.len() + 1
            &&& after.messages.subrange(0, s.messages.len() as int) == s.messages
            &&& line.len() == peer.len() + 2 + text.len()
            &&& line.subrange(0, peer.len() as int) == peer
            &&& line.subrange(peer.len() as int, (peer.len() + 2) as int) == seq![':', ' ']
            &&& line.subrange((peer.len() + 2) as int, line.len() as int) == text
        }),
{
    reveal_strlit(": ");
    let after = with_line(s, received_line(peer, text));
    let line = received_line(peer, text);
    assert(line.subrange(0, peer.len() as int) =~= peer);
    assert(line.subrange(peer.len() as int, (peer.len() + 2) as int) =~= seq![':', ' ']);
    assert(line.subrange((peer.len() + 2) as int, line.len() as int) =~= text);
    assert(after.messages.subrange(0, s.messages.len() as int) =~= s.messages);
}

/// While editing, a typed character goes at the end of the input line and
/// nothing else changes; Backspace removes exactly the last character (and
/// does nothing to an empty line); Esc returns to command mode keeping the
/// input line and the history.
pub proof fn lemma_editing_keys(s: AppView, c: char, delivered: bool)
    requires
        s.input_mode is Editing,
    ensures
        ({
            let t = key_step(s, KeyKind::Press, KeyInput::Char(c), delivered);
            &&& t.input_buffer.len() == s.input_buffer.len() + 1
            &&& t.input_buffer[s.input_buffer.len() as int] == c
            &&& t.input_buffer.subrange(0, s.input_buffer.len() as int) == s.input_buffer
            &&& t.input_mode is Editing
            &&& t.messages == s.messages && t.peers == s.peers && t.should_quit == s.should_quit
        }),
        ({
            let e = key_step(s, KeyKind::Press, KeyInput::Backspace, delivered);
            &&& s.input_buffer.len() == 0 ==> e == s
            &&& s.input_buffer.len() > 0 ==> e.input_buffer.len() + 1 == s.input_buffer.len()
                && e.input_buffer == s.input_buffer.subrange(0, e.input_buffer.len() as int)
            &&& e.input_mode is Editing && e.messages == s.messages
        }),
        ({
            let x = key_step(s, KeyKind::Press, KeyInput::Esc, delivered);
            &&& x.input_mode is Normal
            &&& x.input_buffer == s.input_buffer
            &&& x.messages == s.messages && x.peers == s.peers && x.should_quit == s.should_quit
        }),
{
    let t = key_step(s, KeyKind::Press, KeyInput::Char(c), delivered);
    assert(t.input_buffer.subrange(0, s.input_buffer.len() as int) =~= s.input_buffer);
    let e = key_step(s, KeyKind::Press, KeyInput::Backspace, delivered);
    if s.input_buffer.len() > 0 {
        assert(e.input_buffer =~= s.input_buffer.subrange(0, e.input_buffer.len() as int));
    }
}

/// After Enter while editing the input line is empty, the session is back in
/// command mode, and the history grew by one line (two when the network side
/// did not take the line, the second being the notice); peers and the quit
/// flag are untouched.
pub proof fn lemma_enter_resets_input(s: AppView, delivered: bool)
    requires
        s.input_mode is Editing,
    ensures
        ({
            let r = key_step(s, KeyKind::Press, KeyInput::Enter, delivered);
            &&& r.input_buffer.len() == 0
            &&& r.input_mode is Normal
            &&& r.messages.len() == s.messages.len() + (if delivered { 1int } else { 2int })
            &&& r.peers == s.peers && r.should_quit == s.should_quit && r.my_id == s.my_id
        }),
{
}

/// After a peer is found it is listed, the earlier peers keep their places,
/// and at most that one peer was added.
pub proof fn lemma_peer_found_listed(s: AppView, peer: Seq<char>)
    ensures
        ({
            let r = peer_found(s, peer);
            &&& r.peers.contains(peer)
            &&& r.peers.subrange(0, s.peers.len() as int) == s.peers
            &&& r.peers.len() == s.peers.len() + (if s.peers.contains(peer) { 0int } else { 1int })
            &&& r.messages == s.messages && r.input_buffer == s.input_buffer
        }),
{
    let r = peer_found(s, peer);
    assert(r.peers.subrange(0, s.peers.len() as int) =~= s.peers);
    if !s.peers.contains(peer) {
        assert(r.peers[s.peers.len() as int] == peer);
    }
}

/// In command mode `q` asks the session to quit and changes nothing else,
/// and `i` starts editing and changes nothing else: the input line, the
/// history and the peers stay as they were.
pub proof fn lemma_command_mode_keys(s: AppView, delivered: bool)
    requires
        s.input_mode is Normal,
    ensures
        ({
            let q = key_step(s, KeyKind::Press, KeyInput::Char('q'), delivered);
            &&& q.should_quit
            &&& q.input_mode is Normal
            &&& q.input_buffer == s.input_buffer && q.messages == s.messages
            &&& q.peers == s.peers && q.my_id == s.my_id
        }),
        ({
            let e = key_step(s, KeyKind::Press, KeyInput::Char('i'), delivered);
            &&& e.input_mode is Editing
            &&& e.should_quit == s.should_quit
            &&& e.input_buffer == s.input_buffer && e.messages == s.messages
            &&& e.peers == s.peers && e.my_id == s.my_id
        }),
{
}

} // verus!
