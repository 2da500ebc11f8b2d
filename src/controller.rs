use vstd::prelude::*;
use crate::events::{PinnedFromTrayEvent, PinnedFromWindowEvent};
use crate::menu::{build_menu, opt_view, spec_menu, update_available, EntryId, HotkeyConfig, Menu};

verus! {

/// What the application does in answer to a menu click or a tray click.
#[derive(Debug, Clone, Copy, PartialEq, Eq, Structural)]
pub enum Action {
    /// Open or focus the updater window.
    ShowUpdater,
    /// Open or focus the settings window.
    ShowSettings,
    /// Start an OCR capture.
    Ocr,
    /// Show the main window without stealing focus or activating it.
    ShowMainWindow,
    /// Toggle always-on-top, publish the new state and rebuild the menu.
    TogglePin,
    /// End the process with the given exit code.
    Exit(i32),
}

/// The action bound to an entry; the hide entry is handled by the toolkit itself.
pub open spec fn spec_action(id: Option<EntryId>) -> Option<Action> {
    match id {
        Some(EntryId::CheckForUpdates) => Some(Action::ShowUpdater),
        Some(EntryId::Settings) => Some(Action::ShowSettings),
        Some(EntryId::Ocr) => Some(Action::Ocr),
        Some(EntryId::Show) => Some(Action::ShowMainWindow),
        Some(EntryId::Pin) => Some(Action::TogglePin),
        Some(EntryId::Quit) => Some(Action::Exit(0)),
        Some(EntryId::Hide) => None,
        None => None,
    }
}

/// Maps the identifier of a clicked entry to its action; an unknown
/// identifier gives no action.
pub fn dispatch(id: &str) -> (r: Option<Action>)
    ensures
        r == spec_action(EntryId::spec_parse(id@)),
        EntryId::spec_parse(id@) is None ==> r is None,
{
    match EntryId::parse(id) {
        Some(EntryId::CheckForUpdates) => Some(Action::ShowUpdater),
        Some(EntryId::Settings) => Some(Action::ShowSettings),
        Some(EntryId::Ocr) => Some(Action::Ocr),
        Some(EntryId::Show) => Some(Action::ShowMainWindow),
        Some(EntryId::Pin) => Some(Action::TogglePin),
        Some(EntryId::Quit) => Some(Action::Exit(0)),
        Some(EntryId::Hide) => None,
        None => None,
    }
}

/// A mouse button that activated the tray icon.
#[derive(Debug, Clone, Copy, PartialEq, Eq, Structural)]
pub enum MouseButton {
    Left,
    Right,
    Middle,
}

/// A primary-button click on the tray icon shows the main window, as the
/// show entry does; other buttons open the menu and need no action.
pub fn tray_icon_click(button: MouseButton) -> (r: Option<Action>)
    ensures
        r == (if button == MouseButton::Left {
            Some(Action::ShowMainWindow)
        } else {
            None
        }),
{
    match button {
        MouseButton::Left => Some(Action::ShowMainWindow),
        _ => None,
    }
}

/// Whether the click and event handlers have been attached.
#[derive(Debug, Clone, Copy, PartialEq, Eq, Structural)]
pub enum Registration {
    Unregistered,
    Registered,
}

/// The guard after a rebuild, and whether that rebuild attaches the handlers.
pub open spec fn registration_step(r: Registration) -> (Registration, bool) {
    (Registration::Registered, r == Registration::Unregistered)
}

/// The outcome of a rebuild: the new menu, and whether the handlers must be
/// attached now (only on the first rebuild).
#[derive(Debug, PartialEq, Eq)]
pub struct Rebuild {
    pub menu: Menu,
    pub attach_handlers: bool,
}

/// State that the tray controller owns: the always-on-top flag it shows and
/// the registration guard.
#[derive(Debug, Clone, Copy, PartialEq, Eq, Structural)]
pub struct TrayState {
    pub always_on_top: bool,
    pub registration: Registration,
}

impl TrayState {
    pub fn new(always_on_top: bool) -> (r: Self)
        ensures
            r.always_on_top == always_on_top,
            r.registration == Registration::Unregistered,
    {
        TrayState { always_on_top, registration: Registration::Unregistered }
    }

    /// Rebuilds the whole menu from the current state; the handlers are to be
    /// attached only on the step from unregistered to registered.
    pub fn rebuild<T>(&mut self, config: &HotkeyConfig, pending_update: &Option<Option<T>>) -> (r:
        Rebuild)
        ensures
            final(self).always_on_top == old(self).always_on_top,
            (final(self).registration, r.attach_handlers) == registration_step(
                old(self).registration,
            ),
            r.menu@ == spec_menu(
                config.spec_ocr(),
                config.spec_show(),
                old(self).always_on_top,
                update_available(*pending_update),
            ),
    {
        let menu = build_menu(config, self.always_on_top, pending_update);
        let attach_handlers = match self.registration {
            Registration::Unregistered => true,
            Registration::Registered => false,
        };
        self.registration = Registration::Registered;
        Rebuild { menu, attach_handlers }
    }

    /// The pin entry was clicked: flips always-on-top, gives the notification
    /// to publish with the new value, and rebuilds the menu.
    pub fn toggle_pin<T>(&mut self, config: &HotkeyConfig, pending_update: &Option<Option<T>>) -> (r:
        (PinnedFromTrayEvent, Rebuild))
        ensures
            final(self).always_on_top == !old(self).always_on_top,
            final(self).registration == Registration::Registered,
            r.0.spec_pinned() == final(self).always_on_top,
            r.1.attach_handlers == (old(self).registration == Registration::Unregistered),
            r.1.menu@ == spec_menu(
                config.spec_ocr(),
                config.spec_show(),
                final(self).always_on_top,
                update_available(*pending_update),
            ),
    {
        self.always_on_top = !self.always_on_top;
        let event = PinnedFromTrayEvent::new(self.always_on_top);
        let rebuilt = self.rebuild(config, pending_update);
        (event, rebuilt)
    }

    /// Another window changed always-on-top: takes its value and rebuilds.
    pub fn pinned_from_window<T>(
        &mut self,
        event: &PinnedFromWindowEvent,
        config: &HotkeyConfig,
        pending_update: &Option<Option<T>>,
    ) -> (r: Rebuild)
        ensures
            final(self).always_on_top == event.spec_pinned(),
            (final(self).registration, r.attach_handlers) == registration_step(
                old(self).registration,
            ),
            r.menu@ == spec_menu(
                config.spec_ocr(),
                config.spec_show(),
                event.spec_pinned(),
                update_available(*pending_update),
            ),
    {
        self.always_on_top = *event.pinned();
        self.rebuild(config, pending_update)
    }

    /// A hotkey was rebound: the configuration takes the new accelerator and
    /// the whole menu is rebuilt from it.
    pub fn hotkey_rebind<T>(
        &mut self,
        config: &mut HotkeyConfig,
        id: &str,
        accelerator: Option<String>,
        pending_update: &Option<Option<T>>,
    ) -> (r: Rebuild)
        ensures
            final(self).always_on_top == old(self).always_on_top,
            (final(self).registration, r.attach_handlers) == registration_step(
                old(self).registration,
            ),
            final(config).spec_ocr() == (if EntryId::spec_parse(id@) == Some(EntryId::Ocr) {
                opt_view(accelerator)
            } else {
                old(config).spec_ocr()
            }),
            final(config).spec_show() == (if EntryId::spec_parse(id@) == Some(EntryId::Show) {
                opt_view(accelerator)
            } else {
                old(config).spec_show()
            }),
            r.menu@ == spec_menu(
                final(config).spec_ocr(),
                final(config).spec_show(),
                old(self).always_on_top,
                update_available(*pending_update),
            ),
    {
        config.set_hotkey(id, accelerator);
        self.rebuild(config, pending_update)
    }
}

} // verus!
