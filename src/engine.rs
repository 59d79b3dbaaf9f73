use vstd::prelude::*;

use crate::content::{
    applied, created, diff_of, ChangeKind, Content, ContentView, DiffKinds, DiffView,
};
use crate::notification::Notification;
use crate::registry::{is_smallest_free, Registry};

verus! {

/// What an incoming notification asks of the registry.
#[derive(Clone, Copy, Debug, PartialEq, Eq, Structural)]
pub enum Action {
    Create,
    Update,
}

/// An incoming notification updates the one shown under its `replaces_id`,
/// and otherwise creates a new one.
pub open spec fn action_for(m: Map<u32, ContentView>, replaces_id: u32) -> Action {
    if m.contains_key(replaces_id) {
        Action::Update
    } else {
        Action::Create
    }
}

/// The id that a created notification is shown under: the one it asked for,
/// or for 0 the smallest free positive id.
pub open spec fn assigned_id(m: Map<u32, ContentView>, replaces_id: u32, id: u32) -> bool {
    if replaces_id != 0 {
        id == replaces_id
    } else {
        is_smallest_free(m, id)
    }
}

/// Every positive id is in use, so a notification asking for 0 cannot be shown.
#[derive(Clone, Copy, Debug, PartialEq, Eq, Structural)]
pub struct RegistryFull;

/// What the presentation is told after an incoming notification.
#[derive(Clone, Copy, Debug, PartialEq, Eq, Structural)]
pub enum Event {
    /// A notification is now shown under this id.
    Created(u32),
    /// The notification under this id changed as the kinds say.
    Updated(u32, DiffKinds),
}

/// Decides whether `n` creates a notification or updates one.
pub fn reconcile(n: &Notification, reg: &Registry) -> (r: Action)
    requires
        reg.wf(),
    ensures
        r == action_for(reg@, n.replaces_id),
{
    if reg.contains(n.replaces_id) {
        Action::Update
    } else {
        Action::Create
    }
}

/// Whether `n` names a notification that is already shown.
pub fn check_duplicates(n: &Notification, reg: &Registry) -> (r: bool)
    requires
        reg.wf(),
    ensures
        r == reg@.contains_key(n.replaces_id),
{
    reg.contains(n.replaces_id)
}

/// Shows a notification that names none on screen. `path_is_file` and
/// `icon_is_file` say whether files exist at its image path and application icon.
pub fn show_notification(
    n: Notification,
    reg: &mut Registry,
    path_is_file: bool,
    icon_is_file: bool,
) -> (r: Result<u32, RegistryFull>)
    requires
        old(reg).wf(),
        !old(reg)@.contains_key(n.replaces_id),
    ensures
        final(reg).wf(),
        !final(reg)@.contains_key(0),
        match r {
            Ok(id) => id != 0 && !old(reg)@.contains_key(id) && assigned_id(old(reg)@, n.replaces_id, id) && final(reg)@ == old(reg)@.insert(
                id,
                created(n, path_is_file, icon_is_file),
            ),
            Err(_) => n.replaces_id == 0 && old(reg)@.dom().len() >= u32::MAX && final(reg)@
                == old(reg)@,
        },
{
    let id = if n.replaces_id != 0 {
        n.replaces_id
    } else {
        match reg.smallest_free_id() {
            Some(c) => c,
            None => {
                return Err(RegistryFull);
            },
        }
    };
    let content = Content::create(n, path_is_file, icon_is_file);
    reg.insert(id, content);
    proof {
        reg.lemma_zero_never_held();
    }
    Ok(id)
}

/// Updates the notification that `n` names with the difference it makes.
pub fn modify_notification(
    n: Notification,
    reg: &mut Registry,
    path_is_file: bool,
    icon_is_file: bool,
) -> (r: DiffKinds)
    requires
        old(reg).wf(),
        old(reg)@.contains_key(n.replaces_id),
    ensures
        final(reg).wf(),
        r == diff_of(old(reg)@[n.replaces_id], n, path_is_file, icon_is_file).kinds(),
        final(reg)@ == old(reg)@.insert(
            n.replaces_id,
            applied(
                old(reg)@[n.replaces_id],
                diff_of(old(reg)@[n.replaces_id], n, path_is_file, icon_is_file),
            ),
        ),
{
    let id = n.replaces_id;
    let d = match reg.get(id) {
        Some(c) => c.diff(n, path_is_file, icon_is_file),
        None => {
            return DiffKinds {
                progress: ChangeKind::Keep,
                summary: ChangeKind::Keep,
                body: ChangeKind::Keep,
                image: ChangeKind::Keep,
            };
        },
    };
    let kinds = d.kinds();
    reg.update(id, d);
    kinds
}

/// Takes in a notification: updates the one it names if that is shown, else
/// shows it as a new one.
pub fn ingest(
    reg: &mut Registry,
    n: Notification,
    path_is_file: bool,
    icon_is_file: bool,
) -> (r: Result<Event, RegistryFull>)
    requires
        old(reg).wf(),
    ensures
        final(reg).wf(),
        !final(reg)@.contains_key(0),
        old(reg)@.contains_key(n.replaces_id) ==> {
            let d = diff_of(old(reg)@[n.replaces_id], n, path_is_file, icon_is_file);
            &&& r == Ok::<Event, RegistryFull>(Event::Updated(n.replaces_id, d.kinds()))
            &&& final(reg)@ == old(reg)@.insert(
                n.replaces_id,
                applied(old(reg)@[n.replaces_id], d),
            )
        },
        !old(reg)@.contains_key(n.replaces_id) ==> match r {
            Ok(Event::Created(id)) => id != 0 && !old(reg)@.contains_key(id) && assigned_id(
                old(reg)@,
                n.replaces_id,
                id,
            ) && final(reg)@
                == old(reg)@.insert(id, created(n, path_is_file, icon_is_file)),
            Ok(Event::Updated(_, _)) => false,
            Err(_) => n.replaces_id == 0 && old(reg)@.dom().len() >= u32::MAX && final(reg)@
                == old(reg)@,
        },
{
    let id = n.replaces_id;
    proof {
        reg.lemma_zero_never_held();
    }
    match reconcile(&n, reg) {
        Action::Update => {
            let kinds = modify_notification(n, reg, path_is_file, icon_is_file);
            proof {
                reg.lemma_zero_never_held();
            }
            Ok(Event::Updated(id, kinds))
        },
        Action::Create => match show_notification(n, reg, path_is_file, icon_is_file) {
            Ok(new_id) => Ok(Event::Created(new_id)),
            Err(e) => Err(e),
        },
    }
}

/// A request with `replaces_id` 0 always creates a notification, never updates one.
pub proof fn lemma_zero_id_creates(reg: &Registry, n: Notification)
    requires
        reg.wf(),
        n.replaces_id == 0,
    ensures
        action_for(reg@, n.replaces_id) == Action::Create,
{
    reg.lemma_zero_never_held();
}

/// A request naming an id that is shown always updates it, never creates another.
pub proof fn lemma_shown_id_updates(reg: &Registry, n: Notification)
    requires
        reg.wf(),
        reg@.contains_key(n.replaces_id),
    ensures
        action_for(reg@, n.replaces_id) == Action::Update,
{
}

/// Once a notification is shown under an id, a later request naming that id
/// updates it.
pub proof fn lemma_created_id_then_updates(
    before: Map<u32, ContentView>,
    after: Map<u32, ContentView>,
    id: u32,
    c: ContentView,
    n: Notification,
)
    requires
        after == before.insert(id, c),
        n.replaces_id == id,
    ensures
        action_for(after, n.replaces_id) == Action::Update,
{
}

/// Applying the same update difference twice leaves the registry, presence
/// of elements included, as applying it once.
pub proof fn lemma_update_idempotent(m: Map<u32, ContentView>, id: u32, d: DiffView)
    requires
        m.contains_key(id),
    ensures
        ({
            let once = m.insert(id, applied(m[id], d));
            &&& once.insert(id, applied(once[id], d)) == once
            &&& applied(once[id], d).presence() == once[id].presence()
        }),
{
    let once = m.insert(id, applied(m[id], d));
    assert(once.insert(id, applied(once[id], d)) =~= once);
}

} // verus!
