//! What the chat panel shows: the lines of the history and, while the field
//! is open, the input field. Painting it is left to the caller.

use crate::chat::{ChatEntryView, ChatState, ChatStateView};
use vstd::prelude::*;
use vstd::string::StringExecFns;

verus! {

/// Mathematical value of a [`ChatLine`].
pub struct ChatLineView {
    pub heading: Seq<char>,
    pub body: Seq<char>,
}

/// One line of the history as it is shown: the heading, set off from the
/// body, and the body.
pub struct ChatLine {
    pub heading: String,
    pub body: String,
}

impl View for ChatLine {
    type V = ChatLineView;

    open spec fn view(&self) -> ChatLineView {
        ChatLineView { heading: self.heading@, body: self.body@ }
    }
}

/// Mathematical value of a [`ChatPanel`].
pub struct ChatPanelView {
    pub lines: Seq<ChatLineView>,
    pub input_shown: bool,
    pub focus_requested: bool,
}

/// The content of the chat panel in one frame.
pub struct ChatPanel {
    /// The history, oldest message first.
    pub lines: Vec<ChatLine>,
    /// Whether the input field is drawn below the history.
    pub input_shown: bool,
    /// Whether the input field claims the keyboard in this frame.
    pub focus_requested: bool,
}

/// The values of a sequence of lines, in the same order.
pub open spec fn line_views(lines: Seq<ChatLine>) -> Seq<ChatLineView> {
    lines.map_values(|l: ChatLine| l@)
}

impl View for ChatPanel {
    type V = ChatPanelView;

    open spec fn view(&self) -> ChatPanelView {
        ChatPanelView {
            lines: line_views(self.lines@),
            input_shown: self.input_shown,
            focus_requested: self.focus_requested,
        }
    }
}

/// How one message is shown: the sender's name with a colon behind it, then
/// the text.
pub open spec fn chat_line(entry: ChatEntryView) -> ChatLineView {
    ChatLineView { heading: entry.sender_name + ":"@, body: entry.text }
}

/// What the panel shows of a state: every message of the history, in order;
/// the input field exactly while the field is open; and a claim to the
/// keyboard exactly while the field is open and has focus.
pub open spec fn chat_panel(state: ChatStateView) -> ChatPanelView {
    ChatPanelView {
        lines: state.messages.map_values(|e: ChatEntryView| chat_line(e)),
        input_shown: state.is_open,
        focus_requested: state.is_open && state.has_focus,
    }
}

/// Lays out the chat panel for the current frame. The state is only read.
pub fn render_chat_ui(chat_state: &ChatState) -> (panel: ChatPanel)
    ensures
        panel@ == chat_panel(chat_state@),
{
    let mut lines: Vec<ChatLine> = Vec::new();
    let n: usize = chat_state.messages.len();
    let mut i: usize = 0;
    while i < n
        invariant
            n == chat_state.messages@.len(),
            i <= n,
            line_views(lines@) =~= chat_panel(chat_state@).lines.take(i as int),
        decreases n - i,
    {
        let entry = &chat_state.messages[i];
        let line = ChatLine {
            heading: entry.sender_name.clone().concat(":"),
            body: entry.text.clone(),
        };
        assert(line@ == chat_line(entry@));
        lines.push(line);
        assert(line_views(lines@) =~= chat_panel(chat_state@).lines.take(i as int).push(line@));
        i += 1;
    }
    assert(chat_panel(chat_state@).lines.take(n as int) =~= chat_panel(chat_state@).lines);
    ChatPanel {
        lines,
        input_shown: chat_state.is_open,
        focus_requested: chat_state.is_open && chat_state.has_focus,
    }
}

} // verus!
