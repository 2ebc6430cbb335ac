//! Chat state: a bounded, chronological message history together with the
//! text being composed and the flags of the input field, and the steps that
//! fold inbound messages into it.

pub use crate::render::render_chat_ui;

use crate::keys::{just_pressed_keys, key_events, read_keys, KeyEvents};
use crate::text::{blank, is_blank};
use bevy::input::keyboard::KeyCode;
use bevy::input::ButtonInput;
use vstd::prelude::*;

verus! {

/// Largest number of messages the history keeps while broadcasts are appended.
pub const MAX_MESSAGES: usize = 100;

/// Mathematical value of a [`ChatEntry`].
pub struct ChatEntryView {
    pub sender_name: Seq<char>,
    pub sender_steam_id: Option<u64>,
    pub text: Seq<char>,
}

/// One delivered chat message: who sent it, the sender's numeric identity
/// where the sender has one, and the message body.
pub struct ChatEntry {
    pub sender_name: String,
    pub sender_steam_id: Option<u64>,
    pub text: String,
}

impl View for ChatEntry {
    type V = ChatEntryView;

    open spec fn view(&self) -> ChatEntryView {
        ChatEntryView {
            sender_name: self.sender_name@,
            sender_steam_id: self.sender_steam_id,
            text: self.text@,
        }
    }
}

impl Clone for ChatEntry {
    fn clone(&self) -> (copy: Self)
        ensures
            copy@ == self@,
    {
        ChatEntry {
            sender_name: self.sender_name.clone(),
            sender_steam_id: self.sender_steam_id,
            text: self.text.clone(),
        }
    }
}

/// The values of a sequence of entries, in the same order.
pub open spec fn entry_views(entries: Seq<ChatEntry>) -> Seq<ChatEntryView> {
    entries.map_values(|e: ChatEntry| e@)
}

/// Mathematical value of a [`ChatState`].
pub struct ChatStateView {
    pub messages: Seq<ChatEntryView>,
    pub input: Seq<char>,
    pub is_open: bool,
    pub has_focus: bool,
    pub history_loaded: bool,
}

/// The state of the local chat: the history, oldest message first, the text
/// composed and not yet sent, whether the input field is shown, whether it
/// claims the keyboard, and whether a history response has been applied
/// since history was last requested.
pub struct ChatState {
    pub messages: Vec<ChatEntry>,
    pub input: String,
    pub is_open: bool,
    pub has_focus: bool,
    pub history_loaded: bool,
}

impl View for ChatState {
    type V = ChatStateView;

    open spec fn view(&self) -> ChatStateView {
        ChatStateView {
            messages: entry_views(self.messages@),
            input: self.input@,
            is_open: self.is_open,
            has_focus: self.has_focus,
            history_loaded: self.history_loaded,
        }
    }
}

/// The history after one more message: the message goes to the end, and if
/// that makes the history longer than [`MAX_MESSAGES`], the oldest message
/// leaves. Never more than one message leaves.
pub open spec fn append_bounded(messages: Seq<ChatEntryView>, entry: ChatEntryView) -> Seq<
    ChatEntryView,
> {
    let all = messages.push(entry);
    if all.len() > MAX_MESSAGES {
        all.drop_first()
    } else {
        all
    }
}

/// The history after the messages of `entries` were appended one by one, in
/// their order.
pub open spec fn append_all(messages: Seq<ChatEntryView>, entries: Seq<ChatEntryView>) -> Seq<
    ChatEntryView,
>
    decreases entries.len(),
{
    if entries.len() == 0 {
        messages
    } else {
        append_bounded(append_all(messages, entries.drop_last()), entries.last())
    }
}

/// The last `n` items of `s`, or all of `s` where it has no more than `n`.
pub open spec fn newest(s: Seq<ChatEntryView>, n: nat) -> Seq<ChatEntryView> {
    if s.len() <= n {
        s
    } else {
        s.subrange(s.len() - n, s.len() as int)
    }
}

/// The state after one history response: while no response has been applied
/// since the last request, the response's entries replace the history and
/// the latch is set; afterwards a response changes nothing.
pub open spec fn apply_history(state: ChatStateView, history: Seq<ChatEntryView>) -> ChatStateView {
    if state.history_loaded {
        state
    } else {
        ChatStateView { messages: history, history_loaded: true, ..state }
    }
}

/// The state after the history responses of one frame, in their order. Only
/// the first can take effect: it sets the latch that shuts out the others.
pub open spec fn apply_histories(
    state: ChatStateView,
    responses: Seq<Seq<ChatEntryView>>,
) -> ChatStateView
    decreases responses.len(),
{
    if responses.len() == 0 {
        state
    } else {
        apply_history(apply_histories(state, responses.drop_last()), responses.last())
    }
}

/// The state after one frame's inbound messages: first the history
/// responses, then the broadcasts.
pub open spec fn receive(
    state: ChatStateView,
    responses: Seq<Seq<ChatEntryView>>,
    broadcasts: Seq<ChatEntryView>,
) -> ChatStateView {
    let loaded = apply_histories(state, responses);
    ChatStateView { messages: append_all(loaded.messages, broadcasts), ..loaded }
}

/// The state in which history has been asked for anew: the latch is open,
/// everything else is as before.
pub open spec fn history_requested(state: ChatStateView) -> ChatStateView {
    ChatStateView { history_loaded: false, ..state }
}

/// A bulk history response: the server's record of the conversation so far,
/// oldest message first.
pub struct ChatHistory {
    pub history: Vec<ChatEntry>,
}

impl View for ChatHistory {
    type V = Seq<ChatEntryView>;

    open spec fn view(&self) -> Seq<ChatEntryView> {
        entry_views(self.history@)
    }
}

/// The values of a sequence of history responses, in the same order.
pub open spec fn history_views(responses: Seq<ChatHistory>) -> Seq<Seq<ChatEntryView>> {
    responses.map_values(|h: ChatHistory| h@)
}

/// The request for the current chat history. It carries nothing.
pub struct HistoryRequest;

/// A chat message on its way out: the text as it was composed.
pub struct OutgoingChat {
    pub text: String,
}

/// The announcement of the local player's identity to the chat.
pub struct ChatIdentity {
    pub name: String,
    pub steam_id: Option<u64>,
}

/// The state after one frame's key events, where `input_is_blank` says
/// whether the composed text is blank.
///
/// A closed field is opened and focused by confirm or open-chat, and
/// nothing else happens in that frame. An open field is closed and loses
/// focus on cancel. Otherwise confirm, on a focused field whose text is not
/// blank, sends the text and empties the input; the field stays open and
/// focused.
pub open spec fn keys_applied(
    state: ChatStateView,
    keys: KeyEvents,
    input_is_blank: bool,
) -> ChatStateView {
    if !state.is_open {
        if keys.confirm || keys.open_chat {
            ChatStateView { is_open: true, has_focus: true, ..state }
        } else {
            state
        }
    } else if keys.cancel {
        ChatStateView { is_open: false, has_focus: false, ..state }
    } else if sends(state, keys, input_is_blank) {
        ChatStateView { input: Seq::<char>::empty(), ..state }
    } else {
        state
    }
}

/// The steady state of the flags: a field that is closed does not claim the
/// keyboard.
pub open spec fn focus_follows_open(state: ChatStateView) -> bool {
    state.has_focus ==> state.is_open
}

/// Whether one frame's key events send the composed text.
pub open spec fn sends(state: ChatStateView, keys: KeyEvents, input_is_blank: bool) -> bool {
    state.is_open && !keys.cancel && keys.confirm && state.has_focus && !input_is_blank
}

/// The text that one frame's key events send, if they send any: the input
/// as it stands, with its whitespace.
pub open spec fn keys_sent(state: ChatStateView, keys: KeyEvents, input_is_blank: bool) -> Option<
    Seq<char>,
> {
    if sends(state, keys, input_is_blank) {
        Some(state.input)
    } else {
        None
    }
}

/// The text of an outgoing message, where there is one.
pub open spec fn sent_text(sent: Option<OutgoingChat>) -> Option<Seq<char>> {
    match sent {
        Some(message) => Some(message.text@),
        None => None,
    }
}

/// The name announced where the local player has none.
pub open spec fn fallback_name() -> Seq<char> {
    "Player"@
}

impl ChatState {
    /// Whether the history is within [`MAX_MESSAGES`].
    pub open spec fn within_bound(&self) -> bool {
        self.messages@.len() <= MAX_MESSAGES
    }

    /// The state at start-up: no messages, no input, field closed, nothing
    /// loaded.
    pub fn new() -> (state: ChatState)
        ensures
            state@.messages == Seq::<ChatEntryView>::empty(),
            state@.input == Seq::<char>::empty(),
            !state@.is_open,
            !state@.has_focus,
            !state@.history_loaded,
            state.within_bound(),
    {
        ChatState {
            messages: Vec::new(),
            input: String::new(),
            is_open: false,
            has_focus: false,
            history_loaded: false,
        }
    }

    /// Appends one broadcast message, and evicts the oldest message if the
    /// history has thereby grown past [`MAX_MESSAGES`].
    pub fn push_message(&mut self, entry: ChatEntry)
        ensures
            final(self)@ == (ChatStateView {
                messages: append_bounded(old(self)@.messages, entry@),
                ..old(self)@
            }),
            old(self).within_bound() ==> final(self).within_bound(),
    {
        self.messages.push(entry);
        if self.messages.len() > MAX_MESSAGES {
            self.messages.remove(0);
        }
        assert(entry_views(self.messages@) =~= append_bounded(
            entry_views(old(self).messages@),
            entry@,
        ));
    }

    /// Applies one history response: if none was applied since history was
    /// last requested, the response's entries become the history, in their
    /// order, and the latch is set. Otherwise nothing changes.
    pub fn load_history(&mut self, response: &ChatHistory)
        ensures
            final(self)@ == apply_history(old(self)@, response@),
    {
        if !self.history_loaded {
            self.messages.clear();
            let n: usize = response.history.len();
            let mut i: usize = 0;
            while i < n
                invariant
                    n == response.history@.len(),
                    i <= n,
                    entry_views(self.messages@) =~= entry_views(response.history@).take(i as int),
                    self.input == old(self).input,
                    self.is_open == old(self).is_open,
                    self.has_focus == old(self).has_focus,
                    !self.history_loaded,
                decreases n - i,
            {
                let entry = response.history[i].clone();
                self.messages.push(entry);
                assert(entry_views(self.messages@) =~= entry_views(response.history@).take(
                    i as int,
                ).push(entry@));
                i += 1;
            }
            assert(entry_views(response.history@).take(n as int) =~= entry_views(
                response.history@,
            ));
            self.history_loaded = true;
        }
    }

    /// Applies one frame's key events, given whether the composed text is
    /// blank, and hands back the message to send, if any.
    pub fn apply_keys(&mut self, keys: KeyEvents, input_is_blank: bool) -> (sent: Option<
        OutgoingChat,
    >)
        ensures
            final(self)@ == keys_applied(old(self)@, keys, input_is_blank),
            sent_text(sent) == keys_sent(old(self)@, keys, input_is_blank),
    {
        if !self.is_open {
            if keys.confirm || keys.open_chat {
                self.is_open = true;
                self.has_focus = true;
            }
            return None;
        }
        if keys.cancel {
            self.is_open = false;
            self.has_focus = false;
            return None;
        }
        if keys.confirm && self.has_focus && !input_is_blank {
            let mut text = String::new();
            std::mem::swap(&mut self.input, &mut text);
            return Some(OutgoingChat { text });
        }
        None
    }
}

impl Default for ChatState {
    fn default() -> (state: ChatState)
        ensures
            state@.messages == Seq::<ChatEntryView>::empty(),
            state@.input == Seq::<char>::empty(),
            !state@.is_open,
            !state@.has_focus,
            !state@.history_loaded,
    {
        ChatState::new()
    }
}

/// Folds one frame's inbound messages into the state: the history responses
/// first, of which at most the first takes effect, then every broadcast, in
/// arrival order, each with its eviction.
pub fn receive_chat_messages(
    chat_state: &mut ChatState,
    chat_history_events: &[ChatHistory],
    chat_events: &[ChatEntry],
)
    ensures
        final(chat_state)@ == receive(
            old(chat_state)@,
            history_views(chat_history_events@),
            entry_views(chat_events@),
        ),
{
    let responses: usize = chat_history_events.len();
    let mut i: usize = 0;
    while i < responses
        invariant
            responses == chat_history_events@.len(),
            i <= responses,
            chat_state@ == apply_histories(
                old(chat_state)@,
                history_views(chat_history_events@).take(i as int),
            ),
        decreases responses - i,
    {
        chat_state.load_history(&chat_history_events[i]);
        proof {
            let all = history_views(chat_history_events@);
            assert(all.take(i + 1).drop_last() =~= all.take(i as int));
        }
        i += 1;
    }
    proof {
        let all = history_views(chat_history_events@);
        assert(all.take(responses as int) =~= all);
    }
    let ghost loaded = chat_state@;
    let broadcasts: usize = chat_events.len();
    let mut j: usize = 0;
    while j < broadcasts
        invariant
            broadcasts == chat_events@.len(),
            j <= broadcasts,
            chat_state@ == (ChatStateView {
                messages: append_all(loaded.messages, entry_views(chat_events@).take(j as int)),
                ..loaded
            }),
        decreases broadcasts - j,
    {
        chat_state.push_message(chat_events[j].clone());
        proof {
            let all = entry_views(chat_events@);
            assert(all.take(j + 1).drop_last() =~= all.take(j as int));
        }
        j += 1;
    }
    proof {
        let all = entry_views(chat_events@);
        assert(all.take(broadcasts as int) =~= all);
    }
}

/// Opens the latch so that the next history response is applied, and hands
/// back the request to send.
pub fn request_chat_history(chat_state: &mut ChatState) -> (request: HistoryRequest)
    ensures
        final(chat_state)@ == history_requested(old(chat_state)@),
{
    chat_state.history_loaded = false;
    HistoryRequest
}

/// Handles one frame of keyboard input: reads the chat's keys from the
/// keyboard and applies them to the state. The message to send, if any, is
/// handed back; it carries the input as composed, untrimmed.
pub fn handle_chat_input(chat_state: &mut ChatState, keyboard: &ButtonInput<KeyCode>) -> (sent:
    Option<OutgoingChat>)
    ensures
        final(chat_state)@ == keys_applied(
            old(chat_state)@,
            key_events(just_pressed_keys(*keyboard)),
            is_blank(old(chat_state)@.input),
        ),
        sent_text(sent) == keys_sent(
            old(chat_state)@,
            key_events(just_pressed_keys(*keyboard)),
            is_blank(old(chat_state)@.input),
        ),
{
    let keys = read_keys(keyboard);
    let input_is_blank = blank(chat_state.input.as_str());
    chat_state.apply_keys(keys, input_is_blank)
}

/// The identity to announce when a session becomes active: the local
/// player's name where there is one, the fallback name otherwise, and never
/// a numeric identity, which is not the client's to assign.
pub fn send_chat_identity(local_name: Option<String>) -> (identity: ChatIdentity)
    ensures
        identity.name@ == (match local_name {
            Some(name) => name@,
            None => fallback_name(),
        }),
        identity.steam_id is None,
{
    let name = match local_name {
        Some(name) => name,
        None => "Player".to_owned(),
    };
    ChatIdentity { name, steam_id: None }
}

/// One append to a history within the bound leaves it within the bound,
/// holding the newest of what was there and the new message.
pub proof fn lemma_append_keeps_newest(messages: Seq<ChatEntryView>, entry: ChatEntryView)
    requires
        messages.len() <= MAX_MESSAGES,
    ensures
        append_bounded(messages, entry).len() <= MAX_MESSAGES,
        append_bounded(messages, entry) == newest(messages.push(entry), MAX_MESSAGES as nat),
{
    assert(append_bounded(messages, entry) =~= newest(
        messages.push(entry),
        MAX_MESSAGES as nat,
    ));
}

/// However many broadcasts are appended to a history within the bound, the
/// history stays within the bound and holds exactly the newest messages of
/// all that were there or were appended, in their order: the oldest leave
/// first.
pub proof fn lemma_append_all_keeps_newest(
    messages: Seq<ChatEntryView>,
    entries: Seq<ChatEntryView>,
)
    requires
        messages.len() <= MAX_MESSAGES,
    ensures
        append_all(messages, entries).len() <= MAX_MESSAGES,
        append_all(messages, entries) == newest(messages + entries, MAX_MESSAGES as nat),
    decreases entries.len(),
{
    if entries.len() == 0 {
        assert(messages + entries =~= messages);
    } else {
        let before = entries.drop_last();
        lemma_append_all_keeps_newest(messages, before);
        assert((messages + before).push(entries.last()) =~= messages + entries);
        assert(append_all(messages, entries) =~= newest(
            messages + entries,
            MAX_MESSAGES as nat,
        ));
    }
}

/// Appending the broadcasts of two frames, one frame after the other, gives
/// the history that appending them all in one frame gives.
pub proof fn lemma_append_all_split(
    messages: Seq<ChatEntryView>,
    first: Seq<ChatEntryView>,
    second: Seq<ChatEntryView>,
)
    ensures
        append_all(append_all(messages, first), second) == append_all(messages, first + second),
    decreases second.len(),
{
    if second.len() == 0 {
        assert(first + second =~= first);
    } else {
        lemma_append_all_split(messages, first, second.drop_last());
        assert((first + second).drop_last() =~= first + second.drop_last());
    }
}

/// A history response that arrives while none has been applied replaces the
/// history by exactly its entries, in their order, and sets the latch.
pub proof fn lemma_history_replaces(state: ChatStateView, history: Seq<ChatEntryView>)
    requires
        !state.history_loaded,
    ensures
        apply_history(state, history).messages == history,
        apply_history(state, history).history_loaded,
        apply_history(state, history) == (ChatStateView {
            messages: history,
            history_loaded: true,
            ..state
        }),
{
}

/// A history response that arrives while the latch is set changes nothing.
pub proof fn lemma_late_history_ignored(state: ChatStateView, history: Seq<ChatEntryView>)
    requires
        state.history_loaded,
    ensures
        apply_history(state, history) == state,
{
}

/// Of the history responses of one frame only the first can take effect,
/// and only while the latch is open.
pub proof fn lemma_first_history_wins(state: ChatStateView, responses: Seq<Seq<ChatEntryView>>)
    ensures
        apply_histories(state, responses) == if state.history_loaded || responses.len() == 0 {
            state
        } else {
            apply_history(state, responses[0])
        },
    decreases responses.len(),
{
    if responses.len() > 0 {
        lemma_first_history_wins(state, responses.drop_last());
    }
}

/// Requesting history anew opens the latch for exactly one response: the
/// next response replaces the history, and the one after it is ignored.
pub proof fn lemma_request_admits_one_history(
    state: ChatStateView,
    first: Seq<ChatEntryView>,
    second: Seq<ChatEntryView>,
)
    ensures
        !history_requested(state).history_loaded,
        apply_history(history_requested(state), first).messages == first,
        apply_history(history_requested(state), first).history_loaded,
        apply_history(apply_history(history_requested(state), first), second) == apply_history(
            history_requested(state),
            first,
        ),
{
}

/// While the composed text is blank, no key event sends a message, and
/// none changes the composed text.
pub proof fn lemma_blank_input_not_sent(state: ChatStateView, keys: KeyEvents)
    ensures
        keys_sent(state, keys, true) is None,
        keys_applied(state, keys, true).input == state.input,
        keys_applied(state, keys, true).messages == state.messages,
{
}

/// Where a closed field claims no keyboard before a frame's key events, it
/// claims none after them.
pub proof fn lemma_keys_keep_focus_with_open(
    state: ChatStateView,
    keys: KeyEvents,
    input_is_blank: bool,
)
    requires
        focus_follows_open(state),
    ensures
        focus_follows_open(keys_applied(state, keys, input_is_blank)),
{
}

} // verus!
