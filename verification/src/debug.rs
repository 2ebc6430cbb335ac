//! The state inspector: which lines it shows for a snapshot of the client's
//! states. Every state may be absent; the inspector only reads.

use vstd::prelude::*;
use vstd::string::StringExecFns;

verus! {

/// Mathematical value of a [`StateSnapshot`].
pub struct StateSnapshotView {
    pub app_scope: Option<Seq<char>>,
    pub menu_context: Option<Seq<char>>,
    pub mp_setup: Option<Seq<char>>,
    pub sp_setup: Option<Seq<char>>,
    pub host_new_game_screen: Option<Seq<char>>,
    pub host_saved_game_screen: Option<Seq<char>>,
    pub join_game_screen: Option<Seq<char>>,
    pub new_game_screen: Option<Seq<char>>,
    pub saved_game_screen: Option<Seq<char>>,
    pub session_type: Option<Seq<char>>,
    pub session_state: Option<Seq<char>>,
    pub client_status: Option<Seq<char>>,
    pub sp_status: Option<Seq<char>>,
    pub server_visibility: Option<Seq<char>>,
}

/// The current value of each state, by its name, taken once per frame. A
/// state that does not exist at the moment is `None`.
pub struct StateSnapshot {
    /// The global scope of the application.
    pub app_scope: Option<String>,
    /// Where in the main menu the player is.
    pub menu_context: Option<String>,
    /// The multiplayer branch of the menu.
    pub mp_setup: Option<String>,
    /// The singleplayer branch of the menu.
    pub sp_setup: Option<String>,
    /// Multiplayer: the screen for hosting a new game.
    pub host_new_game_screen: Option<String>,
    /// Multiplayer: the screen for hosting a saved game.
    pub host_saved_game_screen: Option<String>,
    /// Multiplayer: the screen for joining a game.
    pub join_game_screen: Option<String>,
    /// Singleplayer: the screen for a new game.
    pub new_game_screen: Option<String>,
    /// Singleplayer: the screen for a saved game.
    pub saved_game_screen: Option<String>,
    /// The kind of session.
    pub session_type: Option<String>,
    /// The stage of the session's life.
    pub session_state: Option<String>,
    /// Whether the client is running.
    pub client_status: Option<String>,
    /// Whether the singleplayer game is running.
    pub sp_status: Option<String>,
    /// Whether the server is open to others.
    pub server_visibility: Option<String>,
}

/// The characters of a text that may be absent.
pub open spec fn text_of(value: Option<String>) -> Option<Seq<char>> {
    match value {
        Some(text) => Some(text@),
        None => None,
    }
}

impl View for StateSnapshot {
    type V = StateSnapshotView;

    open spec fn view(&self) -> StateSnapshotView {
        StateSnapshotView {
            app_scope: text_of(self.app_scope),
            menu_context: text_of(self.menu_context),
            mp_setup: text_of(self.mp_setup),
            sp_setup: text_of(self.sp_setup),
            host_new_game_screen: text_of(self.host_new_game_screen),
            host_saved_game_screen: text_of(self.host_saved_game_screen),
            join_game_screen: text_of(self.join_game_screen),
            new_game_screen: text_of(self.new_game_screen),
            saved_game_screen: text_of(self.saved_game_screen),
            session_type: text_of(self.session_type),
            session_state: text_of(self.session_state),
            client_status: text_of(self.client_status),
            sp_status: text_of(self.sp_status),
            server_visibility: text_of(self.server_visibility),
        }
    }
}

/// The characters of each text of a sequence, in the same order.
pub open spec fn line_views(lines: Seq<String>) -> Seq<Seq<char>> {
    lines.map_values(|l: String| l@)
}

/// Mathematical value of a [`DebugBranch`].
pub struct DebugBranchView {
    pub heading: Seq<char>,
    pub screens: Seq<Seq<char>>,
}

/// One branch of the menu: the line of the branch itself, and below it, one
/// step in, the lines of its screens.
pub struct DebugBranch {
    pub heading: String,
    pub screens: Vec<String>,
}

impl View for DebugBranch {
    type V = DebugBranchView;

    open spec fn view(&self) -> DebugBranchView {
        DebugBranchView { heading: self.heading@, screens: line_views(self.screens@) }
    }
}

/// The value of a branch that may be absent.
pub open spec fn branch_of(branch: Option<DebugBranch>) -> Option<DebugBranchView> {
    match branch {
        Some(b) => Some(b@),
        None => None,
    }
}

/// Mathematical value of a [`DebugOverlay`].
pub struct DebugOverlayView {
    pub global_scope: Seq<char>,
    pub menu: Option<Seq<char>>,
    pub multiplayer: Option<DebugBranchView>,
    pub singleplayer: Option<DebugBranchView>,
    pub session: Seq<Seq<char>>,
    pub logic: Seq<Seq<char>>,
}

/// The content of the inspector in one frame: the global scope on top, then
/// the group of the menu states with its two branches, then the group of
/// the session states, in which a rule parts the session's kind and stage
/// from the running states.
pub struct DebugOverlay {
    /// The global scope, or the marker that there is none.
    pub global_scope: String,
    /// Menu group: the line of the main menu.
    pub menu: Option<String>,
    /// Menu group: the multiplayer branch.
    pub multiplayer: Option<DebugBranch>,
    /// Menu group: the singleplayer branch.
    pub singleplayer: Option<DebugBranch>,
    /// Session group: the lines above the rule.
    pub session: Vec<String>,
    /// Session group: the lines below the rule.
    pub logic: Vec<String>,
}

impl View for DebugOverlay {
    type V = DebugOverlayView;

    open spec fn view(&self) -> DebugOverlayView {
        DebugOverlayView {
            global_scope: self.global_scope@,
            menu: text_of(self.menu),
            multiplayer: branch_of(self.multiplayer),
            singleplayer: branch_of(self.singleplayer),
            session: line_views(self.session@),
            logic: line_views(self.logic@),
        }
    }
}

/// The line of one state: the caption in front of the state's value, or no
/// line where the state is absent.
pub open spec fn labelled(caption: Seq<char>, value: Option<Seq<char>>) -> Option<Seq<char>> {
    match value {
        Some(text) => Some(caption + text),
        None => None,
    }
}

/// The line of one state as a list: one line, or none where the state is
/// absent.
pub open spec fn line_of(caption: Seq<char>, value: Option<Seq<char>>) -> Seq<Seq<char>> {
    match value {
        Some(text) => seq![caption + text],
        None => Seq::empty(),
    }
}

/// What stands for the global scope: its value, or the marker where there
/// is none.
pub open spec fn global_scope_text(snapshot: StateSnapshotView) -> Seq<char> {
    match snapshot.app_scope {
        Some(text) => text,
        None => "None"@,
    }
}

/// The multiplayer branch: shown only while the branch's state exists, with
/// those of its three screens that exist, in their fixed order.
pub open spec fn multiplayer_branch(snapshot: StateSnapshotView) -> Option<DebugBranchView> {
    match snapshot.mp_setup {
        Some(text) => Some(
            DebugBranchView {
                heading: "Multiplayer: "@ + text,
                screens: line_of("HostNew: "@, snapshot.host_new_game_screen) + line_of(
                    "HostSaved: "@,
                    snapshot.host_saved_game_screen,
                ) + line_of("Join: "@, snapshot.join_game_screen),
            },
        ),
        None => None,
    }
}

/// The singleplayer branch: shown only while the branch's state exists,
/// with those of its two screens that exist, in their fixed order.
pub open spec fn singleplayer_branch(snapshot: StateSnapshotView) -> Option<DebugBranchView> {
    match snapshot.sp_setup {
        Some(text) => Some(
            DebugBranchView {
                heading: "Singleplayer: "@ + text,
                screens: line_of("NewGame: "@, snapshot.new_game_screen) + line_of(
                    "SavedGame: "@,
                    snapshot.saved_game_screen,
                ),
            },
        ),
        None => None,
    }
}

/// The lines of the session group above the rule.
pub open spec fn session_lines(snapshot: StateSnapshotView) -> Seq<Seq<char>> {
    line_of("Type: "@, snapshot.session_type) + line_of("State: "@, snapshot.session_state)
}

/// The lines of the session group below the rule.
pub open spec fn logic_lines(snapshot: StateSnapshotView) -> Seq<Seq<char>> {
    line_of("Client Status: "@, snapshot.client_status) + line_of(
        "Singleplayer Status: "@,
        snapshot.sp_status,
    ) + line_of("Server Visibility: "@, snapshot.server_visibility)
}

/// What the inspector shows of a snapshot.
pub open spec fn debug_overlay(snapshot: StateSnapshotView) -> DebugOverlayView {
    DebugOverlayView {
        global_scope: global_scope_text(snapshot),
        menu: labelled("Main: "@, snapshot.menu_context),
        multiplayer: multiplayer_branch(snapshot),
        singleplayer: singleplayer_branch(snapshot),
        session: session_lines(snapshot),
        logic: logic_lines(snapshot),
    }
}

/// The caption in front of the value.
fn label(caption: &str, value: &String) -> (line: String)
    ensures
        line@ == caption@ + value@,
{
    String::from_str(caption).concat(value.as_str())
}

/// Adds the line of one state to `lines`, if the state exists.
fn push_line(lines: &mut Vec<String>, caption: &str, value: &Option<String>)
    ensures
        line_views(final(lines)@) == line_views(old(lines)@) + line_of(caption@, text_of(*value)),
{
    match value {
        Some(text) => {
            let line = label(caption, text);
            lines.push(line);
            assert(line_views(lines@) =~= line_views(old(lines)@) + seq![line@]);
        },
        None => {
            assert(line_views(lines@) =~= line_views(old(lines)@) + Seq::<Seq<char>>::empty());
        },
    }
}

/// A list of lines with nothing in it.
fn no_lines() -> (lines: Vec<String>)
    ensures
        line_views(lines@) == Seq::<Seq<char>>::empty(),
{
    let lines: Vec<String> = Vec::new();
    assert(line_views(lines@) =~= Seq::<Seq<char>>::empty());
    lines
}

/// Lays out the inspector for one snapshot of the states. Nothing is
/// changed; an absent state leaves its line out, a branch whose state is
/// absent is left out with its screens, and an absent global scope shows
/// the marker in its place.
pub fn ui_debug_state_overlay(snapshot: &StateSnapshot) -> (overlay: DebugOverlay)
    ensures
        overlay@ == debug_overlay(snapshot@),
{
    let global_scope = match &snapshot.app_scope {
        Some(text) => text.clone(),
        None => "None".to_owned(),
    };

    let menu = match &snapshot.menu_context {
        Some(text) => Some(label("Main: ", text)),
        None => None,
    };

    let multiplayer = match &snapshot.mp_setup {
        Some(text) => {
            let mut screens = no_lines();
            push_line(&mut screens, "HostNew: ", &snapshot.host_new_game_screen);
            push_line(&mut screens, "HostSaved: ", &snapshot.host_saved_game_screen);
            push_line(&mut screens, "Join: ", &snapshot.join_game_screen);
            Some(DebugBranch { heading: label("Multiplayer: ", text), screens })
        },
        None => None,
    };

    let singleplayer = match &snapshot.sp_setup {
        Some(text) => {
            let mut screens = no_lines();
            push_line(&mut screens, "NewGame: ", &snapshot.new_game_screen);
            push_line(&mut screens, "SavedGame: ", &snapshot.saved_game_screen);
            Some(DebugBranch { heading: label("Singleplayer: ", text), screens })
        },
        None => None,
    };

    let mut session = no_lines();
    push_line(&mut session, "Type: ", &snapshot.session_type);
    push_line(&mut session, "State: ", &snapshot.session_state);

    let mut logic = no_lines();
    push_line(&mut logic, "Client Status: ", &snapshot.client_status);
    push_line(&mut logic, "Singleplayer Status: ", &snapshot.sp_status);
    push_line(&mut logic, "Server Visibility: ", &snapshot.server_visibility);

    DebugOverlay { global_scope, menu, multiplayer, singleplayer, session, logic }
}

} // verus!
