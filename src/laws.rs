use vstd::prelude::*;
use crate::controller::{registration_step, spec_action, Registration};
use crate::menu::{
    entry_has_id, item, pin_label, spec_menu, spec_names_entry, spec_rebind,
    update_available, EntryId, EntryView, Label,
};

verus! {

/// The label of an entry; a separator has none.
pub open spec fn entry_label(e: EntryView) -> Option<Label> {
    match e {
        EntryView::Item { label, .. } => Some(label),
        EntryView::Separator => None,
    }
}

/// Every built menu has exactly one pin entry, labelled "Unpin" when the
/// window is always on top and "Pin" otherwise.
pub proof fn lemma_pin_label(
    ocr: Option<Seq<char>>,
    show: Option<Seq<char>>,
    always_on_top: bool,
    update: bool,
)
    ensures
        ({
            let m = spec_menu(ocr, show, always_on_top, update);
            &&& entry_has_id(m[6], EntryId::Pin)
            &&& forall|i: int|
                0 <= i < m.len() && #[trigger] entry_has_id(m[i], EntryId::Pin) ==> i == 6
            &&& entry_label(m[6]) == Some(
                if always_on_top {
                    Label::Unpin
                } else {
                    Label::Pin
                },
            )
        }),
{
}

/// Every built menu has exactly one check-for-updates entry, and it shows
/// the new-version label exactly when the pending update result holds a
/// version.
pub proof fn lemma_update_label<T>(
    ocr: Option<Seq<char>>,
    show: Option<Seq<char>>,
    always_on_top: bool,
    pending_update: Option<Option<T>>,
)
    ensures
        ({
            let m = spec_menu(ocr, show, always_on_top, update_available(pending_update));
            &&& entry_has_id(m[0], EntryId::CheckForUpdates)
            &&& forall|i: int|
                0 <= i < m.len() && #[trigger] entry_has_id(m[i], EntryId::CheckForUpdates) ==> i
                    == 0
            &&& (entry_label(m[0]) == Some(Label::NewVersionAvailable) <==> (pending_update matches Some(
                Some(_),
            )))
            &&& (entry_label(m[0]) == Some(Label::CheckForUpdates) <==> !(pending_update matches Some(
                Some(_),
            )))
        }),
{
}

/// Two rebuilds in a row attach the handlers at most once, and exactly once
/// when none were attached before; the guard ends registered.
pub proof fn lemma_rebuild_twice_registers_once(r: Registration)
    ensures
        ({
            let (r1, a1) = registration_step(r);
            let (r2, a2) = registration_step(r1);
            &&& r2 == Registration::Registered
            &&& !a2
            &&& (a1 <==> r == Registration::Unregistered)
        }),
{
}

/// An identifier that names no entry leads to no action.
pub proof fn lemma_unknown_id_no_action(name: Seq<char>)
    requires
        EntryId::spec_parse(name) is None,
    ensures
        spec_action(EntryId::spec_parse(name)) is None,
{
}

/// Toggling the pin changes the rebuilt menu in the pin entry's label alone,
/// which then matches the new state.
pub proof fn lemma_toggle_relabels_pin(
    ocr: Option<Seq<char>>,
    show: Option<Seq<char>>,
    always_on_top: bool,
    update: bool,
)
    ensures
        spec_menu(ocr, show, !always_on_top, update) == spec_menu(
            ocr,
            show,
            always_on_top,
            update,
        ).update(6, item(EntryId::Pin, pin_label(!always_on_top), None)),
        pin_label(!always_on_top) != pin_label(always_on_top),
{
    assert(spec_menu(ocr, show, !always_on_top, update) =~= spec_menu(
        ocr,
        show,
        always_on_top,
        update,
    ).update(6, item(EntryId::Pin, pin_label(!always_on_top), None)));
}

/// Patching a menu at a name that no entry carries leaves it unchanged.
pub proof fn lemma_rebind_unknown_is_noop(s: Seq<EntryView>, name: Seq<char>, a: Option<
    Seq<char>,
>)
    requires
        !spec_names_entry(s, name),
    ensures
        spec_rebind(s, name, a) == s,
{
}

/// Patching the OCR or show accelerator in place gives the same menu as a
/// full rebuild from the configuration with the new accelerator.
pub proof fn lemma_patch_matches_rebuild(
    ocr: Option<Seq<char>>,
    show: Option<Seq<char>>,
    always_on_top: bool,
    update: bool,
    a: Option<Seq<char>>,
)
    ensures
        spec_rebind(spec_menu(ocr, show, always_on_top, update), "ocr"@, a) == spec_menu(
            a,
            show,
            always_on_top,
            update,
        ),
        spec_rebind(spec_menu(ocr, show, always_on_top, update), "show"@, a) == spec_menu(
            ocr,
            a,
            always_on_top,
            update,
        ),
{
    reveal_strlit("ocr");
    reveal_strlit("show");
    reveal_strlit("check_for_updates");
    reveal_strlit("settings");
    assert("ocr"@.len() == 3);
    assert("show"@.len() == 4);
    assert("check_for_updates"@.len() == 17);
    assert("settings"@.len() == 8);
    let m = spec_menu(ocr, show, always_on_top, update);
    assert(EntryId::spec_parse("ocr"@) == Some(EntryId::Ocr));
    assert(EntryId::spec_parse("show"@) == Some(EntryId::Show));
    assert(entry_has_id(m[3], EntryId::Ocr));
    assert(entry_has_id(m[4], EntryId::Show));
    assert(spec_rebind(m, "ocr"@, a) =~= spec_menu(a, show, always_on_top, update));
    assert(spec_rebind(m, "show"@, a) =~= spec_menu(ocr, a, always_on_top, update));
}

} // verus!
