//! The tray-event dispatcher: a state machine over the two named windows
//! and the always-on-top preference. Each tray menu selection is mapped to
//! an action, and each action to the list of window commands the host must
//! perform, so that the decision logic stays apart from the windowing
//! toolkit that carries the commands out.

use vstd::prelude::*;
use vstd::string::StringExecFns;
use crate::prefs::{PrefStore, toggled};
use crate::text::str_eq;

verus! {

/// The two windows the shell manages. `main` always exists; `control` is
/// created lazily and may be absent.
#[derive(Clone, Copy, PartialEq, Eq, Structural, Debug)]
pub enum WindowName {
    Main,
    Control,
}

/// The closed set of tray actions.
#[derive(Clone, Copy, PartialEq, Eq, Structural, Debug)]
pub enum TrayAction {
    OpenMain,
    OpenControl,
    ControlAot,
    ClearSession,
    Quit,
}

/// A fire-and-forget command for the host windowing layer. Failures while
/// carrying one out are swallowed by the host; the dispatcher never learns
/// of them.
#[derive(PartialEq, Debug)]
pub enum Command {
    Show { window: WindowName },
    Focus { window: WindowName },
    Navigate { window: WindowName, url: String },
    CreateControl {
        url: String,
        title: String,
        width: u32,
        height: u32,
        resizable: bool,
        always_on_top: bool,
    },
    SetTrayChecked { checked: bool },
    SetControlAlwaysOnTop { on_top: bool },
    Exit,
}

/// One entry of the tray menu surface.
#[derive(PartialEq, Debug)]
pub enum MenuEntry {
    Item { id: String, label: String, checkable: bool, checked: bool },
    Separator,
}

/// The page the control window opens on.
pub open spec fn control_page_url(base: Seq<char>) -> Seq<char> {
    base + "/app/control"@
}

/// The fixed session-clear endpoint under the base URL.
pub open spec fn clear_session_url(base: Seq<char>) -> Seq<char> {
    base + "/api/auth/clear-session"@
}

/// The action a tray menu identifier stands for; unrecognized identifiers
/// stand for no action.
pub open spec fn action_of_id(id: Seq<char>) -> Option<TrayAction> {
    if id == "open_main"@ {
        Option::Some(TrayAction::OpenMain)
    } else if id == "open_control"@ {
        Option::Some(TrayAction::OpenControl)
    } else if id == "control_aot"@ {
        Option::Some(TrayAction::ControlAot)
    } else if id == "clear_session"@ {
        Option::Some(TrayAction::ClearSession)
    } else if id == "quit"@ {
        Option::Some(TrayAction::Quit)
    } else {
        Option::None
    }
}

/// Maps a tray menu identifier to its action.
pub fn action_from_id(id: &str) -> (r: Option<TrayAction>)
    ensures
        r == action_of_id(id@),
{
    if str_eq(id, "open_main") {
        Some(TrayAction::OpenMain)
    } else if str_eq(id, "open_control") {
        Some(TrayAction::OpenControl)
    } else if str_eq(id, "control_aot") {
        Some(TrayAction::ControlAot)
    } else if str_eq(id, "clear_session") {
        Some(TrayAction::ClearSession)
    } else if str_eq(id, "quit") {
        Some(TrayAction::Quit)
    } else {
        None
    }
}

/// The command list shows the window and then focuses it, and nothing else.
pub open spec fn shows_and_focuses(w: WindowName, cmds: Seq<Command>) -> bool {
    &&& cmds.len() == 2
    &&& cmds[0] == (Command::Show { window: w })
    &&& cmds[1] == (Command::Focus { window: w })
}

/// The command creates the control window: sized, titled, pointed at the
/// control page, with always-on-top taken from the current preference.
pub open spec fn is_create_control(c: Command, base: Seq<char>, aot: bool) -> bool {
    &&& c matches Command::CreateControl { url, title, width, height, resizable, always_on_top }
    &&& url@ == control_page_url(base)
    &&& title@ == "ESS Control"@
    &&& width == 520
    &&& height == 720
    &&& resizable
    &&& always_on_top == aot
}

/// The command navigates window `w` to `target`.
pub open spec fn is_navigate_to(c: Command, w: WindowName, target: Seq<char>) -> bool {
    &&& c matches Command::Navigate { window, url }
    &&& window == w
    &&& url@ == target
}

/// Effect of `open_main`: show and focus the main window when its handle is
/// live, otherwise do nothing.
pub open spec fn open_main_effect(main_present: bool, cmds: Seq<Command>) -> bool {
    if main_present {
        shows_and_focuses(WindowName::Main, cmds)
    } else {
        cmds.len() == 0
    }
}

/// Effect of `open_control`: reuse the existing control window by showing
/// and focusing it, or create it when absent — absence is the sole creation
/// trigger.
pub open spec fn open_control_effect(
    base: Seq<char>,
    aot: bool,
    control_present: bool,
    cmds: Seq<Command>,
) -> bool {
    if control_present {
        shows_and_focuses(WindowName::Control, cmds)
    } else {
        cmds.len() == 1 && is_create_control(cmds[0], base, aot)
    }
}

/// Effect of `control_aot`: the tray checkmark follows the new preference
/// value, and the control window's attribute follows it too when the window
/// is present.
pub open spec fn control_aot_effect(
    new_value: bool,
    control_present: bool,
    cmds: Seq<Command>,
) -> bool {
    if control_present {
        &&& cmds.len() == 2
        &&& cmds[0] == (Command::SetTrayChecked { checked: new_value })
        &&& cmds[1] == (Command::SetControlAlwaysOnTop { on_top: new_value })
    } else {
        &&& cmds.len() == 1
        &&& cmds[0] == (Command::SetTrayChecked { checked: new_value })
    }
}

/// Effect of `clear_session`: navigate the main window to the session-clear
/// endpoint and bring it forward; navigate the control window there too,
/// without bringing it forward, when it is present.
pub open spec fn clear_session_effect(
    base: Seq<char>,
    main_present: bool,
    control_present: bool,
    cmds: Seq<Command>,
) -> bool {
    let target = clear_session_url(base);
    if main_present && control_present {
        &&& cmds.len() == 4
        &&& is_navigate_to(cmds[0], WindowName::Main, target)
        &&& cmds[1] == (Command::Show { window: WindowName::Main })
        &&& cmds[2] == (Command::Focus { window: WindowName::Main })
        &&& is_navigate_to(cmds[3], WindowName::Control, target)
    } else if main_present {
        &&& cmds.len() == 3
        &&& is_navigate_to(cmds[0], WindowName::Main, target)
        &&& cmds[1] == (Command::Show { window: WindowName::Main })
        &&& cmds[2] == (Command::Focus { window: WindowName::Main })
    } else if control_present {
        &&& cmds.len() == 1
        &&& is_navigate_to(cmds[0], WindowName::Control, target)
    } else {
        cmds.len() == 0
    }
}

/// Effect of `quit`: the single command that terminates the process.
pub open spec fn quit_effect(cmds: Seq<Command>) -> bool {
    cmds.len() == 1 && cmds[0] == Command::Exit
}

/// The full transition table of the dispatcher: which commands each action
/// yields, given the preference value before the event and the windows'
/// presence at the moment the event is handled.
pub open spec fn dispatch_effect(
    base: Seq<char>,
    aot_before: bool,
    action: TrayAction,
    main_present: bool,
    control_present: bool,
    cmds: Seq<Command>,
) -> bool {
    match action {
        TrayAction::OpenMain => open_main_effect(main_present, cmds),
        TrayAction::OpenControl => open_control_effect(base, aot_before, control_present, cmds),
        TrayAction::ControlAot => control_aot_effect(toggled(aot_before), control_present, cmds),
        TrayAction::ClearSession => clear_session_effect(
            base,
            main_present,
            control_present,
            cmds,
        ),
        TrayAction::Quit => quit_effect(cmds),
    }
}

/// The tray event dispatcher: owns the immutable base URL, the preference
/// store, and the tray checkmark state.
pub struct Dispatcher {
    pub base_url: String,
    pub prefs: PrefStore,
    pub tray_checked: bool,
}

impl Dispatcher {
    /// The preference value and the tray checkmark never diverge.
    pub open spec fn synced(&self) -> bool {
        self.tray_checked == self.prefs@
    }

    /// A dispatcher over a normalized base URL and an injected preference
    /// store, with the tray checkmark aligned to the store.
    pub fn new(base_url: String, prefs: PrefStore) -> (d: Self)
        ensures
            d.base_url@ == base_url@,
            d.prefs@ == prefs@,
            d.tray_checked == prefs@,
            d.synced(),
    {
        let checked = prefs.get();
        Dispatcher { base_url, prefs, tray_checked: checked }
    }

    /// Handles one tray action against the windows' presence at this
    /// moment, returning the commands the host must perform, in order.
    pub fn handle_action(
        &mut self,
        action: TrayAction,
        main_present: bool,
        control_present: bool,
    ) -> (cmds: Vec<Command>)
        requires
            old(self).synced(),
        ensures
            final(self).synced(),
            final(self).base_url@ == old(self).base_url@,
            final(self).prefs@ == (if action is ControlAot {
                toggled(old(self).prefs@)
            } else {
                old(self).prefs@
            }),
            final(self).tray_checked == final(self).prefs@,
            dispatch_effect(
                old(self).base_url@,
                old(self).prefs@,
                action,
                main_present,
                control_present,
                cmds@,
            ),
    {
        let mut cmds: Vec<Command> = Vec::new();
        match action {
            TrayAction::OpenMain => {
                if main_present {
                    cmds.push(Command::Show { window: WindowName::Main });
                    cmds.push(Command::Focus { window: WindowName::Main });
                }
            },
            TrayAction::OpenControl => {
                if control_present {
                    cmds.push(Command::Show { window: WindowName::Control });
                    cmds.push(Command::Focus { window: WindowName::Control });
                } else {
                    let mut url = self.base_url.as_str().to_owned();
                    url.append("/app/control");
                    let aot = self.prefs.get();
                    cmds.push(
                        Command::CreateControl {
                            url,
                            title: "ESS Control".to_owned(),
                            width: 520,
                            height: 720,
                            resizable: true,
                            always_on_top: aot,
                        },
                    );
                }
            },
            TrayAction::ControlAot => {
                let next = self.prefs.toggle();
                self.tray_checked = next;
                cmds.push(Command::SetTrayChecked { checked: next });
                if control_present {
                    cmds.push(Command::SetControlAlwaysOnTop { on_top: next });
                }
            },
            TrayAction::ClearSession => {
                if main_present {
                    let mut url = self.base_url.as_str().to_owned();
                    url.append("/api/auth/clear-session");
                    cmds.push(Command::Navigate { window: WindowName::Main, url });
                    cmds.push(Command::Show { window: WindowName::Main });
                    cmds.push(Command::Focus { window: WindowName::Main });
                }
                if control_present {
                    let mut url = self.base_url.as_str().to_owned();
                    url.append("/api/auth/clear-session");
                    cmds.push(Command::Navigate { window: WindowName::Control, url });
                }
            },
            TrayAction::Quit => {
                cmds.push(Command::Exit);
            },
        }
        cmds
    }

    /// Handles one tray menu click by its identifier: unrecognized
    /// identifiers are a no-op, recognized ones dispatch their action.
    pub fn handle_menu_click(
        &mut self,
        id: &str,
        main_present: bool,
        control_present: bool,
    ) -> (cmds: Vec<Command>)
        requires
            old(self).synced(),
        ensures
            final(self).synced(),
            final(self).base_url@ == old(self).base_url@,
            match action_of_id(id@) {
                Option::Some(a) => {
                    &&& dispatch_effect(
                        old(self).base_url@,
                        old(self).prefs@,
                        a,
                        main_present,
                        control_present,
                        cmds@,
                    )
                    &&& final(self).prefs@ == (if a is ControlAot {
                        toggled(old(self).prefs@)
                    } else {
                        old(self).prefs@
                    })
                    &&& final(self).tray_checked == final(self).prefs@
                },
                Option::None => cmds@.len() == 0 && *final(self) == *old(self),
            },
    {
        match action_from_id(id) {
            Some(a) => self.handle_action(a, main_present, control_present),
            None => Vec::new(),
        }
    }
}

/// The tray menu surface: the five selectable items and the separator, in
/// order, with the toggle item's checkmark set from the preference.
pub fn tray_menu_entries(always_on_top: bool) -> (r: Vec<MenuEntry>)
    ensures
        r@.len() == 6,
        is_menu_item(r@[0], "open_main"@, "Open ESS"@, false, false),
        is_menu_item(r@[1], "open_control"@, "Open Control Window"@, false, false),
        is_menu_item(r@[2], "control_aot"@, "Control: Always On Top"@, true, always_on_top),
        is_menu_item(r@[3], "clear_session"@, "Clear Session (Logout)"@, false, false),
        r@[4] is Separator,
        is_menu_item(r@[5], "quit"@, "Quit"@, false, false),
{
    let mut r: Vec<MenuEntry> = Vec::new();
    r.push(
        MenuEntry::Item {
            id: "open_main".to_owned(),
            label: "Open ESS".to_owned(),
            checkable: false,
            checked: false,
        },
    );
    r.push(
        MenuEntry::Item {
            id: "open_control".to_owned(),
            label: "Open Control Window".to_owned(),
            checkable: false,
            checked: false,
        },
    );
    r.push(
        MenuEntry::Item {
            id: "control_aot".to_owned(),
            label: "Control: Always On Top".to_owned(),
            checkable: true,
            checked: always_on_top,
        },
    );
    r.push(
        MenuEntry::Item {
            id: "clear_session".to_owned(),
            label: "Clear Session (Logout)".to_owned(),
            checkable: false,
            checked: false,
        },
    );
    r.push(MenuEntry::Separator);
    r.push(
        MenuEntry::Item {
            id: "quit".to_owned(),
            label: "Quit".to_owned(),
            checkable: false,
            checked: false,
        },
    );
    r
}

/// The entry is a selectable item with exactly these attributes.
pub open spec fn is_menu_item(
    e: MenuEntry,
    id: Seq<char>,
    label: Seq<char>,
    checkable: bool,
    checked: bool,
) -> bool {
    &&& e matches MenuEntry::Item { id: i, label: l, checkable: ca, checked: c }
    &&& i@ == id
    &&& l@ == label
    &&& ca == checkable
    &&& c == checked
}

/// Whether some command of the list creates a control window.
pub open spec fn creates_control_window(cmds: Seq<Command>) -> bool {
    exists|k: int| 0 <= k < cmds.len() && (#[trigger] cmds[k]) is CreateControl
}

/// The registry after the host performed the commands: the control window
/// is present when it was present before and was not closed in between, or
/// when one of the commands created it.
pub open spec fn control_present_after(present_before: bool, cmds: Seq<Command>) -> bool {
    present_before || creates_control_window(cmds)
}

/// Law (single control instance): two `open_control` events in a row, with
/// the control window not closed in between, never create two instances —
/// whatever the first event did, the second only shows and focuses the
/// existing window and creates nothing.
pub proof fn lemma_open_control_single_instance(
    base: Seq<char>,
    aot1: bool,
    aot2: bool,
    present: bool,
    cmds1: Seq<Command>,
    cmds2: Seq<Command>,
)
    requires
        open_control_effect(base, aot1, present, cmds1),
        open_control_effect(base, aot2, control_present_after(present, cmds1), cmds2),
    ensures
        shows_and_focuses(WindowName::Control, cmds2),
        !creates_control_window(cmds2),
{
    if !present {
        assert(cmds1[0] is CreateControl);
        assert(creates_control_window(cmds1));
    }
    assert(control_present_after(present, cmds1));
    assert forall|k: int| 0 <= k < cmds2.len() implies !((#[trigger] cmds2[k]) is CreateControl) by {
        if k == 0 {
            assert(cmds2[0] == (Command::Show { window: WindowName::Control }));
        } else {
            assert(cmds2[1] == (Command::Focus { window: WindowName::Control }));
        }
    }
}

/// Law (quit is the sole terminator): over the whole transition table, a
/// command list holds the process-exit command exactly when the action was
/// `quit`; every other action leaves the process running.
pub proof fn lemma_quit_sole_terminator(
    base: Seq<char>,
    aot: bool,
    action: TrayAction,
    main_present: bool,
    control_present: bool,
    cmds: Seq<Command>,
)
    requires
        dispatch_effect(base, aot, action, main_present, control_present, cmds),
    ensures
        (action is Quit) <==> exists|k: int|
            0 <= k < cmds.len() && (#[trigger] cmds[k]) is Exit,
{
    if action is Quit {
        assert(cmds[0] is Exit);
    } else {
        assert forall|k: int| 0 <= k < cmds.len() implies !((#[trigger] cmds[k]) is Exit) by {
            match action {
                TrayAction::OpenMain => {
                    assert(main_present);
                },
                TrayAction::OpenControl => {
                    if control_present {
                        assert(shows_and_focuses(WindowName::Control, cmds));
                    } else {
                        assert(is_create_control(cmds[0], base, aot));
                    }
                },
                TrayAction::ControlAot => {
                    assert(cmds[0] == (Command::SetTrayChecked { checked: toggled(aot) }));
                },
                TrayAction::ClearSession => {
                    if main_present && control_present {
                        assert(is_navigate_to(cmds[0], WindowName::Main, clear_session_url(base)));
                        assert(is_navigate_to(
                            cmds[3],
                            WindowName::Control,
                            clear_session_url(base),
                        ));
                    } else if main_present {
                        assert(is_navigate_to(cmds[0], WindowName::Main, clear_session_url(base)));
                    } else if control_present {
                        assert(is_navigate_to(
                            cmds[0],
                            WindowName::Control,
                            clear_session_url(base),
                        ));
                    }
                },
                TrayAction::Quit => {},
            }
        }
    }
}

/// Law (fixed session-clear target): every navigation that `clear_session`
/// issues goes to the session-clear endpoint under the base URL, whatever
/// either window was showing before.
pub proof fn lemma_clear_session_fixed_target(
    base: Seq<char>,
    main_present: bool,
    control_present: bool,
    cmds: Seq<Command>,
)
    requires
        clear_session_effect(base, main_present, control_present, cmds),
    ensures
        forall|k: int|
            0 <= k < cmds.len() ==> ((#[trigger] cmds[k]) matches Command::Navigate { url, .. }
                ==> url@ == clear_session_url(base)),
{
}

} // verus!
