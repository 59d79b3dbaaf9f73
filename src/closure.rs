use vstd::prelude::*;

use crate::content::{Content, ContentView};
use crate::registry::Registry;

verus! {

/// A call to the upstream notification service. Each is sent once, on its own
/// worker, and its result is not awaited.
#[derive(Clone, Debug, PartialEq, Eq)]
pub enum UpstreamCall {
    GetAllNotifications,
    CloseNotification(u32),
    RemoveAllNotifications,
    InlineReply(u32, String),
    DoNotDisturb,
    ToggleNotificationCenter,
}

impl UpstreamCall {
    /// The name of the bus method that carries the call.
    pub fn method(&self) -> (r: &'static str)
        ensures
            self is GetAllNotifications ==> r@ == "GetAllNotifications"@,
            self is CloseNotification ==> r@ == "CloseNotification"@,
            self is RemoveAllNotifications ==> r@ == "RemoveAllNotifications"@,
            self is InlineReply ==> r@ == "InlineReply"@,
            self is DoNotDisturb ==> r@ == "DoNotDisturb"@,
            self is ToggleNotificationCenter ==> r@ == "ToggleNotificationCenter"@,
    {
        match self {
            UpstreamCall::GetAllNotifications => "GetAllNotifications",
            UpstreamCall::CloseNotification(_) => "CloseNotification",
            UpstreamCall::RemoveAllNotifications => "RemoveAllNotifications",
            UpstreamCall::InlineReply(_, _) => "InlineReply",
            UpstreamCall::DoNotDisturb => "DoNotDisturb",
            UpstreamCall::ToggleNotificationCenter => "ToggleNotificationCenter",
        }
    }
}

/// The outcome of closing one notification.
pub struct Closing {
    /// The call that tells the upstream service; none where nothing was shown
    /// under the id.
    pub call: Option<UpstreamCall>,
    /// What the closed notification showed, if it was shown.
    pub removed: Option<Content>,
    /// Whether the container of notifications stays visible.
    pub container_visible: bool,
}

/// The outcome of closing every notification.
pub struct ClosingAll {
    /// The one bulk call that tells the upstream service.
    pub call: UpstreamCall,
    /// The ids that were shown.
    pub removed: Vec<u32>,
    /// Whether the container of notifications stays visible: never.
    pub container_visible: bool,
}

/// The outcome of a text reply to a notification.
pub struct Replying {
    /// The call that hands the reply upstream.
    pub reply: UpstreamCall,
    /// The closing that follows it.
    pub closing: Closing,
}

pub open spec fn content_view(c: Option<Content>) -> Option<ContentView> {
    match c {
        Some(c) => Some(c@),
        None => None,
    }
}

/// Closes the notification with this id: where it is shown, tells upstream
/// and takes it off the screen; otherwise does nothing.
pub fn close(reg: &mut Registry, id: u32) -> (r: Closing)
    requires
        old(reg).wf(),
    ensures
        final(reg).wf(),
        final(reg)@ == old(reg)@.remove(id),
        r.call == (if old(reg)@.contains_key(id) {
            Some(UpstreamCall::CloseNotification(id))
        } else {
            None::<UpstreamCall>
        }),
        content_view(r.removed) == (if old(reg)@.contains_key(id) {
            Some(old(reg)@[id])
        } else {
            None::<ContentView>
        }),
        r.container_visible == (final(reg)@ != Map::<u32, ContentView>::empty()),
{
    let removed = reg.remove(id);
    let call = if removed.is_some() {
        Some(UpstreamCall::CloseNotification(id))
    } else {
        None
    };
    let container_visible = !reg.is_empty();
    Closing { call, removed, container_visible }
}

/// Closes every notification: one bulk call upstream, and the screen is emptied.
pub fn close_all(reg: &mut Registry) -> (r: ClosingAll)
    requires
        old(reg).wf(),
    ensures
        final(reg).wf(),
        final(reg)@ == Map::<u32, ContentView>::empty(),
        r.call == UpstreamCall::RemoveAllNotifications,
        r.removed@.len() == old(reg)@.dom().len(),
        forall|id: u32| old(reg)@.contains_key(id) <==> r.removed@.contains(id),
        !r.container_visible,
{
    let removed = reg.clear();
    ClosingAll { call: UpstreamCall::RemoveAllNotifications, removed, container_visible: false }
}

/// Sends a text reply to the notification with this id, then closes it as
/// `close` does.
pub fn inline_reply(reg: &mut Registry, id: u32, text: String) -> (r: Replying)
    requires
        old(reg).wf(),
    ensures
        final(reg).wf(),
        final(reg)@ == old(reg)@.remove(id),
        r.reply == UpstreamCall::InlineReply(id, text),
        r.closing.call == (if old(reg)@.contains_key(id) {
            Some(UpstreamCall::CloseNotification(id))
        } else {
            None::<UpstreamCall>
        }),
        content_view(r.closing.removed) == (if old(reg)@.contains_key(id) {
            Some(old(reg)@[id])
        } else {
            None::<ContentView>
        }),
        r.closing.container_visible == (final(reg)@ != Map::<u32, ContentView>::empty()),
{
    let reply = UpstreamCall::InlineReply(id, text);
    let closing = close(reg, id);
    Replying { reply, closing }
}

} // verus!
