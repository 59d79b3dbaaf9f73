use vstd::prelude::*;

use crate::image::{resolve, resolved, source_view, ImageSource, ImageSourceView};
use crate::markup::{class_from_html, displayed_text, first_tag_style, StyleClass};
use crate::notification::{image_view, Notification, Urgency};

verus! {

/// A line of text as it is shown: tags stripped, with the style of its first tag.
#[derive(Clone, Debug, PartialEq, Eq)]
pub struct Label {
    pub text: String,
    pub style: StyleClass,
}

pub struct LabelView {
    pub text: Seq<char>,
    pub style: StyleClass,
}

impl View for Label {
    type V = LabelView;

    open spec fn view(&self) -> LabelView {
        LabelView { text: self.text@, style: self.style }
    }
}

/// The label that shows `s`.
pub open spec fn label_of(s: Seq<char>) -> LabelView {
    LabelView { text: displayed_text(s), style: first_tag_style(s) }
}

/// A label for `s`, none for an empty text.
pub open spec fn label_if_any(s: Seq<char>) -> Option<LabelView> {
    if s.len() == 0 {
        None
    } else {
        Some(label_of(s))
    }
}

pub open spec fn label_view(l: Option<Label>) -> Option<LabelView> {
    match l {
        Some(l) => Some(l@),
        None => None,
    }
}

impl Label {
    /// The label that shows a text with inline markup.
    pub fn render(s: &str) -> (r: Label)
        ensures
            r@ == label_of(s@),
    {
        let (text, style) = class_from_html(s);
        Label { text, style }
    }
}

fn render_if_any(s: &str) -> (r: Option<Label>)
    ensures
        label_view(r) == label_if_any(s@),
{
    if s.is_empty() {
        None
    } else {
        Some(Label::render(s))
    }
}

/// The optional visual elements of a notification on screen.
#[derive(Clone, Copy, Debug, PartialEq, Eq, Structural)]
pub enum Field {
    Body,
    Summary,
    Image,
    Progress,
}

/// What the presentation shows for one notification.
#[derive(Clone, Debug, PartialEq, Eq)]
pub struct Content {
    pub app_name: Option<Label>,
    pub summary: Option<Label>,
    pub body: Option<Label>,
    pub image: Option<ImageSource>,
    /// The percentage on the progress bar, if there is one.
    pub progress: Option<i32>,
    pub inline_reply: bool,
    pub urgency: Urgency,
}

pub struct ContentView {
    pub app_name: Option<LabelView>,
    pub summary: Option<LabelView>,
    pub body: Option<LabelView>,
    pub image: Option<ImageSourceView>,
    pub progress: Option<i32>,
    pub inline_reply: bool,
    pub urgency: Urgency,
}

impl View for Content {
    type V = ContentView;

    open spec fn view(&self) -> ContentView {
        ContentView {
            app_name: label_view(self.app_name),
            summary: label_view(self.summary),
            body: label_view(self.body),
            image: source_view(self.image),
            progress: self.progress,
            inline_reply: self.inline_reply,
            urgency: self.urgency,
        }
    }
}

impl ContentView {
    /// Which optional elements are on screen.
    pub open spec fn presence(self) -> Set<Field> {
        Set::new(
            |f: Field|
                match f {
                    Field::Body => self.body is Some,
                    Field::Summary => self.summary is Some,
                    Field::Image => self.image is Some,
                    Field::Progress => self.progress is Some,
                },
        )
    }
}

/// Whether the sender of `n` offers a text reply.
pub open spec fn offers_reply(n: Notification) -> bool {
    exists|i: int| 0 <= i < n.actions@.len() && n.actions@[i]@ == "inline-reply"@
}

/// What a new notification shows. `path_is_file` and `icon_is_file` say
/// whether files exist at its image path and its application icon.
pub open spec fn created(n: Notification, path_is_file: bool, icon_is_file: bool) -> ContentView {
    ContentView {
        app_name: label_if_any(n.app_name@),
        summary: label_if_any(n.summary@),
        body: label_if_any(n.body@),
        image: resolved(
            n.image_path@,
            n.app_icon@,
            image_view(n.image_data),
            path_is_file,
            icon_is_file,
        ),
        progress: if n.progress > -1 {
            Some(n.progress)
        } else {
            None
        },
        inline_reply: offers_reply(n),
        urgency: n.urgency,
    }
}

/// What an update does to one element.
#[derive(Clone, Debug, PartialEq, Eq)]
pub enum Change<T> {
    Keep,
    Remove,
    Replace(T),
}

/// What an update does to one element, without its new value.
#[derive(Clone, Copy, Debug, PartialEq, Eq, Structural)]
pub enum ChangeKind {
    Keep,
    Remove,
    Replace,
}

pub open spec fn change_view<T: View>(c: Change<T>) -> Change<T::V> {
    match c {
        Change::Keep => Change::Keep,
        Change::Remove => Change::Remove,
        Change::Replace(v) => Change::Replace(v@),
    }
}

pub open spec fn kind_of<T>(c: Change<T>) -> ChangeKind {
    match c {
        Change::Keep => ChangeKind::Keep,
        Change::Remove => ChangeKind::Remove,
        Change::Replace(_) => ChangeKind::Replace,
    }
}

/// The value of an element after a change.
pub open spec fn changed<T>(cur: Option<T>, c: Change<T>) -> Option<T> {
    match c {
        Change::Keep => cur,
        Change::Remove => None,
        Change::Replace(v) => Some(v),
    }
}

/// The field-level difference that an update makes to a notification on screen.
pub struct Diff {
    pub progress: Change<i32>,
    pub summary: Change<Label>,
    pub body: Change<Label>,
    pub image: Change<ImageSource>,
}

pub struct DiffView {
    pub progress: Change<i32>,
    pub summary: Change<LabelView>,
    pub body: Change<LabelView>,
    pub image: Change<ImageSourceView>,
}

impl View for Diff {
    type V = DiffView;

    open spec fn view(&self) -> DiffView {
        DiffView {
            progress: self.progress,
            summary: change_view(self.summary),
            body: change_view(self.body),
            image: change_view(self.image),
        }
    }
}

/// Which elements an update sets, removes or keeps.
#[derive(Clone, Copy, Debug, PartialEq, Eq, Structural)]
pub struct DiffKinds {
    pub progress: ChangeKind,
    pub summary: ChangeKind,
    pub body: ChangeKind,
    pub image: ChangeKind,
}

impl DiffView {
    pub open spec fn kinds(self) -> DiffKinds {
        DiffKinds {
            progress: kind_of(self.progress),
            summary: kind_of(self.summary),
            body: kind_of(self.body),
            image: kind_of(self.image),
        }
    }
}

/// The change to a text element: an empty text removes it, another sets it.
pub open spec fn text_change(cur: Option<LabelView>, s: Seq<char>) -> Change<LabelView> {
    if s.len() == 0 {
        if cur is Some {
            Change::Remove
        } else {
            Change::Keep
        }
    } else {
        Change::Replace(label_of(s))
    }
}

/// The change to the progress bar: a negative value removes one, a positive
/// value sets it, and 0 leaves it as it is.
pub open spec fn progress_change(cur: Option<i32>, p: i32) -> Change<i32> {
    if p < 0 && cur is Some {
        Change::Remove
    } else if p > 0 {
        Change::Replace(p)
    } else {
        Change::Keep
    }
}

/// The difference that `n` makes to a notification showing `cur`.
pub open spec fn diff_of(
    cur: ContentView,
    n: Notification,
    path_is_file: bool,
    icon_is_file: bool,
) -> DiffView {
    DiffView {
        progress: progress_change(cur.progress, n.progress),
        summary: text_change(cur.summary, n.summary@),
        body: text_change(cur.body, n.body@),
        image: if n.image_path@.len() == 0 && n.app_icon@.len() == 0 && cur.image is Some {
            Change::Remove
        } else {
            match resolved(
                n.image_path@,
                n.app_icon@,
                image_view(n.image_data),
                path_is_file,
                icon_is_file,
            ) {
                Some(s) => Change::Replace(s),
                None => Change::Keep,
            }
        },
    }
}

/// What a notification shows after a difference is applied.
pub open spec fn applied(cur: ContentView, d: DiffView) -> ContentView {
    ContentView {
        progress: changed(cur.progress, d.progress),
        summary: changed(cur.summary, d.summary),
        body: changed(cur.body, d.body),
        image: changed(cur.image, d.image),
        ..cur
    }
}

/// Applying the same difference a second time changes nothing more.
pub proof fn lemma_apply_idempotent(cur: ContentView, d: DiffView)
    ensures
        applied(applied(cur, d), d) == applied(cur, d),
        applied(applied(cur, d), d).presence() == applied(cur, d).presence(),
{
}

/// Taking in the same update request twice shows what taking it in once shows,
/// except where it names neither an image path nor an icon but carries a bitmap:
/// the first removes a shown image and the second then shows the bitmap.
pub proof fn lemma_same_request_twice(
    cur: ContentView,
    n: Notification,
    path_is_file: bool,
    icon_is_file: bool,
)
    requires
        !(n.image_path@.len() == 0 && n.app_icon@.len() == 0 && n.image_data is Some),
    ensures
        ({
            let once = applied(cur, diff_of(cur, n, path_is_file, icon_is_file));
            applied(once, diff_of(once, n, path_is_file, icon_is_file)) == once
        }),
{
}

fn compute_text_change(cur: &Option<Label>, s: &str) -> (r: Change<Label>)
    ensures
        change_view(r) == text_change(label_view(*cur), s@),
{
    if s.is_empty() {
        if cur.is_some() {
            Change::Remove
        } else {
            Change::Keep
        }
    } else {
        Change::Replace(Label::render(s))
    }
}

fn apply_change<T>(cur: &mut Option<T>, c: Change<T>)
    ensures
        *final(cur) == changed(*old(cur), c),
{
    match c {
        Change::Keep => {},
        Change::Remove => {
            *cur = None;
        },
        Change::Replace(v) => {
            *cur = Some(v);
        },
    }
}

fn kind<T>(c: &Change<T>) -> (r: ChangeKind)
    ensures
        r == kind_of(*c),
{
    match c {
        Change::Keep => ChangeKind::Keep,
        Change::Remove => ChangeKind::Remove,
        Change::Replace(_) => ChangeKind::Replace,
    }
}

impl Diff {
    /// Which elements this difference sets, removes or keeps.
    pub fn kinds(&self) -> (r: DiffKinds)
        ensures
            r == self@.kinds(),
    {
        DiffKinds {
            progress: kind(&self.progress),
            summary: kind(&self.summary),
            body: kind(&self.body),
            image: kind(&self.image),
        }
    }
}

impl Content {
    /// What a new notification shows; `path_is_file` and `icon_is_file` say
    /// whether files exist at its image path and its application icon.
    pub fn create(n: Notification, path_is_file: bool, icon_is_file: bool) -> (r: Content)
        ensures
            r@ == created(n, path_is_file, icon_is_file),
    {
        let inline_reply = n.has_inline_reply();
        let app_name = render_if_any(n.app_name.as_str());
        let summary = render_if_any(n.summary.as_str());
        let body = render_if_any(n.body.as_str());
        let progress = if n.progress > -1 {
            Some(n.progress)
        } else {
            None
        };
        let urgency = n.urgency;
        let image = resolve(n.image_path, n.app_icon, n.image_data, path_is_file, icon_is_file);
        Content { app_name, summary, body, image, progress, inline_reply, urgency }
    }

    /// Whether an element is on screen.
    pub fn has_field(&self, f: Field) -> (r: bool)
        ensures
            r == self@.presence().contains(f),
    {
        match f {
            Field::Body => self.body.is_some(),
            Field::Summary => self.summary.is_some(),
            Field::Image => self.image.is_some(),
            Field::Progress => self.progress.is_some(),
        }
    }

    /// The difference that `n` makes to this notification.
    pub fn diff(&self, n: Notification, path_is_file: bool, icon_is_file: bool) -> (r: Diff)
        ensures
            r@ == diff_of(self@, n, path_is_file, icon_is_file),
    {
        let progress = if n.progress < 0 && self.progress.is_some() {
            Change::Remove
        } else if n.progress > 0 {
            Change::Replace(n.progress)
        } else {
            Change::Keep
        };
        let summary = compute_text_change(&self.summary, n.summary.as_str());
        let body = compute_text_change(&self.body, n.body.as_str());
        let image = if n.image_path.as_str().is_empty() && n.app_icon.as_str().is_empty()
            && self.image.is_some() {
            Change::Remove
        } else {
            match resolve(n.image_path, n.app_icon, n.image_data, path_is_file, icon_is_file) {
                Some(s) => Change::Replace(s),
                None => Change::Keep,
            }
        };
        Diff { progress, summary, body, image }
    }

    /// Applies a difference.
    pub fn apply(&mut self, d: Diff)
        ensures
            final(self)@ == applied(old(self)@, d@),
    {
        let Diff { progress, summary, body, image } = d;
        apply_change(&mut self.progress, progress);
        apply_change(&mut self.summary, summary);
        apply_change(&mut self.body, body);
        apply_change(&mut self.image, image);
    }
}

} // verus!
