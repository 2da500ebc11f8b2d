use vstd::prelude::*;
use vstd::string::*;

verus! {

/// Identifier of a menu entry; it stays the same across rebuilds.
#[derive(Debug, Clone, Copy, PartialEq, Eq, Structural)]
pub enum EntryId {
    CheckForUpdates,
    Settings,
    Ocr,
    Show,
    Hide,
    Pin,
    Quit,
}

/// Localizable label of a menu entry.
#[derive(Debug, Clone, Copy, PartialEq, Eq, Structural)]
pub enum Label {
    CheckForUpdates,
    NewVersionAvailable,
    Settings,
    Ocr,
    Show,
    Hide,
    Pin,
    Unpin,
    Quit,
}

/// Character-wise string equality.
fn str_eq(a: &str, b: &str) -> (r: bool)
    ensures
        r == (a@ == b@),
{
    let n = a.unicode_len();
    if n != b.unicode_len() {
        return false;
    }
    let mut i: usize = 0;
    while i < n
        invariant
            n == a@.len(),
            n == b@.len(),
            i <= n,
            forall|j: int| 0 <= j < i ==> a@[j] == b@[j],
        decreases n - i,
    {
        if a.get_char(i) != b.get_char(i) {
            return false;
        }
        i = i + 1;
    }
    assert(a@ =~= b@);
    true
}

impl EntryId {
    /// The textual identifier that the tray toolkit reports on a click.
    pub open spec fn spec_name(self) -> Seq<char> {
        match self {
            EntryId::CheckForUpdates => "check_for_updates"@,
            EntryId::Settings => "settings"@,
            EntryId::Ocr => "ocr"@,
            EntryId::Show => "show"@,
            EntryId::Hide => "hide"@,
            EntryId::Pin => "pin"@,
            EntryId::Quit => "quit"@,
        }
    }

    /// The entry whose textual identifier is `s`, if any.
    pub open spec fn spec_parse(s: Seq<char>) -> Option<EntryId> {
        if s == "check_for_updates"@ {
            Some(EntryId::CheckForUpdates)
        } else if s == "settings"@ {
            Some(EntryId::Settings)
        } else if s == "ocr"@ {
            Some(EntryId::Ocr)
        } else if s == "show"@ {
            Some(EntryId::Show)
        } else if s == "hide"@ {
            Some(EntryId::Hide)
        } else if s == "pin"@ {
            Some(EntryId::Pin)
        } else if s == "quit"@ {
            Some(EntryId::Quit)
        } else {
            None
        }
    }

    pub fn name(&self) -> (r: &'static str)
        ensures
            r@ == self.spec_name(),
    {
        match self {
            EntryId::CheckForUpdates => "check_for_updates",
            EntryId::Settings => "settings",
            EntryId::Ocr => "ocr",
            EntryId::Show => "show",
            EntryId::Hide => "hide",
            EntryId::Pin => "pin",
            EntryId::Quit => "quit",
        }
    }

    pub fn parse(s: &str) -> (r: Option<EntryId>)
        ensures
            r == Self::spec_parse(s@),
    {
        if str_eq(s, "check_for_updates") {
            Some(EntryId::CheckForUpdates)
        } else if str_eq(s, "settings") {
            Some(EntryId::Settings)
        } else if str_eq(s, "ocr") {
            Some(EntryId::Ocr)
        } else if str_eq(s, "show") {
            Some(EntryId::Show)
        } else if str_eq(s, "hide") {
            Some(EntryId::Hide)
        } else if str_eq(s, "pin") {
            Some(EntryId::Pin)
        } else if str_eq(s, "quit") {
            Some(EntryId::Quit)
        } else {
            None
        }
    }
}

impl Label {
    /// Localization key under which the label's text is looked up.
    pub open spec fn spec_key(self) -> Seq<char> {
        match self {
            Label::CheckForUpdates => "CheckForUpdates"@,
            Label::NewVersionAvailable => "NewVersionAvailable"@,
            Label::Settings => "Settings"@,
            Label::Ocr => "OCR"@,
            Label::Show => "Show"@,
            Label::Hide => "Hide"@,
            Label::Pin => "Pin"@,
            Label::Unpin => "Unpin"@,
            Label::Quit => "Quit"@,
        }
    }

    /// English text shown when no translation is available.
    pub open spec fn spec_fallback_text(self) -> Seq<char> {
        match self {
            Label::CheckForUpdates => "Check for Updates..."@,
            Label::NewVersionAvailable => "New Version Available!"@,
            Label::Settings => "Settings"@,
            Label::Ocr => "OCR"@,
            Label::Show => "Show"@,
            Label::Hide => "Hide"@,
            Label::Pin => "Pin"@,
            Label::Unpin => "Unpin"@,
            Label::Quit => "Quit"@,
        }
    }

    pub fn key(&self) -> (r: &'static str)
        ensures
            r@ == self.spec_key(),
    {
        match self {
            Label::CheckForUpdates => "CheckForUpdates",
            Label::NewVersionAvailable => "NewVersionAvailable",
            Label::Settings => "Settings",
            Label::Ocr => "OCR",
            Label::Show => "Show",
            Label::Hide => "Hide",
            Label::Pin => "Pin",
            Label::Unpin => "Unpin",
            Label::Quit => "Quit",
        }
    }

    pub fn fallback_text(&self) -> (r: &'static str)
        ensures
            r@ == self.spec_fallback_text(),
    {
        match self {
            Label::CheckForUpdates => "Check for Updates...",
            Label::NewVersionAvailable => "New Version Available!",
            Label::Settings => "Settings",
            Label::Ocr => "OCR",
            Label::Show => "Show",
            Label::Hide => "Hide",
            Label::Pin => "Pin",
            Label::Unpin => "Unpin",
            Label::Quit => "Quit",
        }
    }
}

/// An optional string, seen as its characters.
pub open spec fn opt_view(o: Option<String>) -> Option<Seq<char>> {
    match o {
        Some(s) => Some(s@),
        None => None,
    }
}

fn clone_opt(o: &Option<String>) -> (r: Option<String>)
    ensures
        opt_view(r) == opt_view(*o),
{
    match o {
        Some(s) => Some(s.clone()),
        None => None,
    }
}

/// One entry of the tray menu.
#[derive(Debug, Clone, PartialEq, Eq)]
pub enum MenuEntry {
    Item { id: EntryId, label: Label, accelerator: Option<String>, enabled: bool },
    Separator,
}

/// Mathematical model of a menu entry.
pub enum EntryView {
    Item { id: EntryId, label: Label, accelerator: Option<Seq<char>>, enabled: bool },
    Separator,
}

impl View for MenuEntry {
    type V = EntryView;

    open spec fn view(&self) -> EntryView {
        match self {
            MenuEntry::Item { id, label, accelerator, enabled } => EntryView::Item {
                id: *id,
                label: *label,
                accelerator: opt_view(*accelerator),
                enabled: *enabled,
            },
            MenuEntry::Separator => EntryView::Separator,
        }
    }
}

/// Whether `e` is the entry identified by `id`.
pub open spec fn entry_has_id(e: EntryView, id: EntryId) -> bool {
    e matches EntryView::Item { id: x, .. } && x == id
}

/// `e` with its accelerator replaced by `a`; a separator stays as it is.
pub open spec fn with_accelerator(e: EntryView, a: Option<Seq<char>>) -> EntryView {
    match e {
        EntryView::Item { id, label, enabled, .. } => EntryView::Item {
            id,
            label,
            accelerator: a,
            enabled,
        },
        EntryView::Separator => EntryView::Separator,
    }
}

/// Accelerators that the configuration assigns to the OCR and show entries.
#[derive(Debug, PartialEq, Eq)]
pub struct HotkeyConfig {
    pub ocr_hotkey: Option<String>,
    pub display_window_hotkey: Option<String>,
}

impl HotkeyConfig {
    pub open spec fn spec_ocr(&self) -> Option<Seq<char>> {
        opt_view(self.ocr_hotkey)
    }

    pub open spec fn spec_show(&self) -> Option<Seq<char>> {
        opt_view(self.display_window_hotkey)
    }

    pub fn new(ocr_hotkey: Option<String>, display_window_hotkey: Option<String>) -> (r: Self)
        ensures
            r.spec_ocr() == opt_view(ocr_hotkey),
            r.spec_show() == opt_view(display_window_hotkey),
    {
        HotkeyConfig { ocr_hotkey, display_window_hotkey }
    }

    /// Binds `accelerator` to the OCR or show entry named `id`; any other
    /// name leaves the configuration as it is.
    pub fn set_hotkey(&mut self, id: &str, accelerator: Option<String>) -> (changed: bool)
        ensures
            changed == (EntryId::spec_parse(id@) == Some(EntryId::Ocr) || EntryId::spec_parse(id@)
                == Some(EntryId::Show)),
            final(self).spec_ocr() == (if EntryId::spec_parse(id@) == Some(EntryId::Ocr) {
                opt_view(accelerator)
            } else {
                old(self).spec_ocr()
            }),
            final(self).spec_show() == (if EntryId::spec_parse(id@) == Some(EntryId::Show) {
                opt_view(accelerator)
            } else {
                old(self).spec_show()
            }),
    {
        match EntryId::parse(id) {
            Some(EntryId::Ocr) => {
                self.ocr_hotkey = accelerator;
                true
            },
            Some(EntryId::Show) => {
                self.display_window_hotkey = accelerator;
                true
            },
            _ => false,
        }
    }
}

/// An ordered tray menu.
#[derive(Debug, Clone, PartialEq, Eq)]
pub struct Menu {
    pub entries: Vec<MenuEntry>,
}

impl View for Menu {
    type V = Seq<EntryView>;

    open spec fn view(&self) -> Seq<EntryView> {
        self.entries@.map_values(|e: MenuEntry| e@)
    }
}

/// Whether the pending update result holds an available version.
pub open spec fn update_available<T>(pending_update: Option<Option<T>>) -> bool {
    pending_update matches Some(Some(_))
}

/// Label of the check-for-updates entry.
pub open spec fn check_label(update_available: bool) -> Label {
    if update_available {
        Label::NewVersionAvailable
    } else {
        Label::CheckForUpdates
    }
}

/// Label of the pin entry.
pub open spec fn pin_label(always_on_top: bool) -> Label {
    if always_on_top {
        Label::Unpin
    } else {
        Label::Pin
    }
}

pub open spec fn item(id: EntryId, label: Label, accelerator: Option<Seq<char>>) -> EntryView {
    EntryView::Item { id, label, accelerator, enabled: true }
}

/// The accelerator of the settings entry.
pub open spec fn settings_accelerator() -> Seq<char> {
    "CmdOrCtrl+,"@
}

/// The menu built from the hotkeys `ocr` and `show`, the pin state and the update state.
pub open spec fn spec_menu(
    ocr: Option<Seq<char>>,
    show: Option<Seq<char>>,
    always_on_top: bool,
    update_available: bool,
) -> Seq<EntryView> {
    seq![
        item(EntryId::CheckForUpdates, check_label(update_available), None),
        EntryView::Separator,
        item(EntryId::Settings, Label::Settings, Some(settings_accelerator())),
        item(EntryId::Ocr, Label::Ocr, ocr),
        item(EntryId::Show, Label::Show, show),
        item(EntryId::Hide, Label::Hide, None),
        item(EntryId::Pin, pin_label(always_on_top), None),
        EntryView::Separator,
        item(EntryId::Quit, Label::Quit, None),
    ]
}

/// Builds the whole menu from the configuration and the shared flags.
pub fn build_menu<T>(
    config: &HotkeyConfig,
    always_on_top: bool,
    pending_update: &Option<Option<T>>,
) -> (m: Menu)
    ensures
        m@ == spec_menu(
            config.spec_ocr(),
            config.spec_show(),
            always_on_top,
            update_available(*pending_update),
        ),
{
    let check = match pending_update {
        Some(Some(_)) => Label::NewVersionAvailable,
        _ => Label::CheckForUpdates,
    };
    let pin = if always_on_top {
        Label::Unpin
    } else {
        Label::Pin
    };
    let mut entries: Vec<MenuEntry> = Vec::new();
    entries.push(
        MenuEntry::Item { id: EntryId::CheckForUpdates, label: check, accelerator: None, enabled: true },
    );
    entries.push(MenuEntry::Separator);
    entries.push(
        MenuEntry::Item {
            id: EntryId::Settings,
            label: Label::Settings,
            accelerator: Some(String::from_str("CmdOrCtrl+,")),
            enabled: true,
        },
    );
    entries.push(
        MenuEntry::Item {
            id: EntryId::Ocr,
            label: Label::Ocr,
            accelerator: clone_opt(&config.ocr_hotkey),
            enabled: true,
        },
    );
    entries.push(
        MenuEntry::Item {
            id: EntryId::Show,
            label: Label::Show,
            accelerator: clone_opt(&config.display_window_hotkey),
            enabled: true,
        },
    );
    entries.push(
        MenuEntry::Item { id: EntryId::Hide, label: Label::Hide, accelerator: None, enabled: true },
    );
    entries.push(MenuEntry::Item { id: EntryId::Pin, label: pin, accelerator: None, enabled: true });
    entries.push(MenuEntry::Separator);
    entries.push(
        MenuEntry::Item { id: EntryId::Quit, label: Label::Quit, accelerator: None, enabled: true },
    );
    let m = Menu { entries };
    assert(m@ =~= spec_menu(
        config.spec_ocr(),
        config.spec_show(),
        always_on_top,
        update_available(*pending_update),
    ));
    m
}

/// The menu `s` after the entry named `name` takes the accelerator `a`: the
/// first entry with that identifier is patched in place, and a name that no
/// entry carries leaves the menu as it is.
pub open spec fn spec_rebind(s: Seq<EntryView>, name: Seq<char>, a: Option<Seq<char>>) -> Seq<
    EntryView,
> {
    match EntryId::spec_parse(name) {
        Some(id) => if exists|i: int| 0 <= i < s.len() && entry_has_id(s[i], id) {
            let i = choose|i: int|
                0 <= i < s.len() && entry_has_id(s[i], id) && forall|j: int|
                    0 <= j < i ==> !entry_has_id(s[j], id);
            s.update(i, with_accelerator(s[i], a))
        } else {
            s
        },
        None => s,
    }
}

/// Whether some entry of `s` is named `name`.
pub open spec fn spec_names_entry(s: Seq<EntryView>, name: Seq<char>) -> bool {
    match EntryId::spec_parse(name) {
        Some(id) => exists|i: int| 0 <= i < s.len() && entry_has_id(s[i], id),
        None => false,
    }
}

proof fn lemma_rebind_first(
    s: Seq<EntryView>,
    name: Seq<char>,
    id: EntryId,
    i: int,
    a: Option<Seq<char>>,
)
    requires
        EntryId::spec_parse(name) == Some(id),
        0 <= i < s.len(),
        entry_has_id(s[i], id),
        forall|j: int| 0 <= j < i ==> !entry_has_id(s[j], id),
    ensures
        spec_names_entry(s, name),
        spec_rebind(s, name, a) == s.update(i, with_accelerator(s[i], a)),
{
    let k = choose|k: int|
        0 <= k < s.len() && entry_has_id(s[k], id) && forall|j: int|
            0 <= j < k ==> !entry_has_id(s[j], id);
    if k < i {
        assert(!entry_has_id(s[k], id));
    } else if k > i {
        assert(!entry_has_id(s[i], id));
    }
}

proof fn lemma_rebind_absent(s: Seq<EntryView>, name: Seq<char>, id: EntryId, a: Option<Seq<char>>)
    requires
        EntryId::spec_parse(name) == Some(id),
        forall|j: int| 0 <= j < s.len() ==> !entry_has_id(s[j], id),
    ensures
        !spec_names_entry(s, name),
        spec_rebind(s, name, a) == s,
{
}

impl Menu {
    /// Sets the accelerator of the entry named `id` in place, keeping its
    /// position and every other entry; returns whether such an entry exists.
    pub fn rebind_hotkey(&mut self, id: &str, accelerator: Option<String>) -> (found: bool)
        ensures
            found == spec_names_entry(old(self)@, id@),
            final(self)@ == spec_rebind(old(self)@, id@, opt_view(accelerator)),
    {
        let target = EntryId::parse(id);
        match target {
            None => false,
            Some(eid) => {
                let mut i: usize = 0;
                while i < self.entries.len()
                    invariant
                        i <= self.entries.len(),
                        self@ == old(self)@,
                        EntryId::spec_parse(id@) == Some(eid),
                        forall|j: int| 0 <= j < i ==> !entry_has_id(self@[j], eid),
                    decreases self.entries.len() - i,
                {
                    let hit: Option<(Label, bool)> = match &self.entries[i] {
                        MenuEntry::Item { id: x, label, enabled, .. } => {
                            if *x == eid {
                                Some((*label, *enabled))
                            } else {
                                None
                            }
                        },
                        MenuEntry::Separator => None,
                    };
                    assert(self@[i as int] == self.entries@[i as int]@);
                    match hit {
                        Some((label, enabled)) => {
                            let ghost s = self@;
                            proof {
                                lemma_rebind_first(s, id@, eid, i as int, opt_view(accelerator));
                            }
                            self.entries.set(
                                i,
                                MenuEntry::Item { id: eid, label, accelerator, enabled },
                            );
                            assert(self@ =~= s.update(
                                i as int,
                                with_accelerator(s[i as int], opt_view(accelerator)),
                            ));
                            return true;
                        },
                        None => {},
                    }
                    i = i + 1;
                }
                proof {
                    lemma_rebind_absent(self@, id@, eid, opt_view(accelerator));
                }
                false
            },
        }
    }
}

} // verus!
