use vstd::prelude::*;

use crate::markup::same_text;

verus! {

/// How pressing a notification is; the bus encodes it as 1, 2 or 3.
#[derive(Clone, Copy, Debug, PartialEq, Eq, Structural)]
pub enum Urgency {
    Low,
    Normal,
    Urgent,
}

/// The urgency that a wire code stands for, if any.
pub open spec fn urgency_of_code(value: int) -> Option<Urgency> {
    if value == 1 {
        Some(Urgency::Low)
    } else if value == 2 {
        Some(Urgency::Normal)
    } else if value == 3 {
        Some(Urgency::Urgent)
    } else {
        None
    }
}

/// The urgency that a wire code decodes to: an unknown code fails closed to `Low`.
pub open spec fn urgency_or_low(value: int) -> Urgency {
    match urgency_of_code(value) {
        Some(u) => u,
        None => Urgency::Low,
    }
}

impl Urgency {
    pub open spec fn code(self) -> int {
        match self {
            Urgency::Low => 1,
            Urgency::Normal => 2,
            Urgency::Urgent => 3,
        }
    }

    pub fn from_i32(value: i32) -> (r: Option<Urgency>)
        ensures
            r == urgency_of_code(value as int),
    {
        match value {
            1 => Some(Urgency::Low),
            2 => Some(Urgency::Normal),
            3 => Some(Urgency::Urgent),
            _ => None,
        }
    }

    /// Decodes a wire code, failing closed to `Low` on anything but 1, 2 or 3.
    pub fn from_wire(value: i32) -> (r: Urgency)
        ensures
            r == urgency_or_low(value as int),
    {
        match Urgency::from_i32(value) {
            Some(u) => u,
            None => Urgency::Low,
        }
    }

    pub fn to_i32(&self) -> (r: i32)
        ensures
            r as int == self.code(),
            urgency_of_code(r as int) == Some(*self),
    {
        match self {
            Urgency::Low => 1,
            Urgency::Normal => 2,
            Urgency::Urgent => 3,
        }
    }

    /// The style class that the presentation gives a notification of this urgency.
    pub fn to_str(&self) -> (r: &'static str)
        ensures
            *self == Urgency::Low ==> r@ == "NotificationLow"@,
            *self == Urgency::Normal ==> r@ == "NotificationNormal"@,
            *self == Urgency::Urgent ==> r@ == "NotificationUrgent"@,
    {
        match self {
            Urgency::Low => "NotificationLow",
            Urgency::Normal => "NotificationNormal",
            Urgency::Urgent => "NotificationUrgent",
        }
    }
}

/// An uncompressed bitmap handed over the bus in place of a path or an icon name.
#[derive(Clone, Debug, PartialEq, Eq)]
pub struct ImageData {
    pub width: i32,
    pub height: i32,
    pub rowstride: i32,
    pub has_alpha: bool,
    pub bits_per_sample: i32,
    pub channels: i32,
    pub data: Vec<u8>,
}

pub struct ImageDataView {
    pub width: i32,
    pub height: i32,
    pub rowstride: i32,
    pub has_alpha: bool,
    pub bits_per_sample: i32,
    pub channels: i32,
    pub data: Seq<u8>,
}

impl View for ImageData {
    type V = ImageDataView;

    open spec fn view(&self) -> ImageDataView {
        ImageDataView {
            width: self.width,
            height: self.height,
            rowstride: self.rowstride,
            has_alpha: self.has_alpha,
            bits_per_sample: self.bits_per_sample,
            channels: self.channels,
            data: self.data@,
        }
    }
}

/// The width that marks an absent bitmap on the wire.
pub const NO_IMAGE_WIDTH: i32 = -1;

/// The bitmap block as the bus carries it: width, height, row stride, alpha,
/// bits per sample, channels, pixel bytes.
pub type WireImage = (i32, i32, i32, bool, i32, i32, Vec<u8>);

/// What the wire's bitmap block decodes to: nothing where the width is the sentinel.
pub open spec fn image_of_wire(raw: WireImage) -> Option<ImageDataView> {
    if raw.0 == NO_IMAGE_WIDTH {
        None
    } else {
        Some(
            ImageDataView {
                width: raw.0,
                height: raw.1,
                rowstride: raw.2,
                has_alpha: raw.3,
                bits_per_sample: raw.4,
                channels: raw.5,
                data: raw.6@,
            },
        )
    }
}

/// The view of an optional bitmap.
pub open spec fn image_view(d: Option<ImageData>) -> Option<ImageDataView> {
    match d {
        Some(d) => Some(d@),
        None => None,
    }
}

impl ImageData {
    /// Decodes the wire's bitmap block, where a width of -1 means that none was sent.
    pub fn from_wire(raw: WireImage) -> (r: Option<ImageData>)
        ensures
            image_view(r) == image_of_wire(raw),
    {
        let (width, height, rowstride, has_alpha, bits_per_sample, channels, data) = raw;
        if width == NO_IMAGE_WIDTH {
            None
        } else {
            Some(ImageData { width, height, rowstride, has_alpha, bits_per_sample, channels, data })
        }
    }
}

/// A notification request as an application sends it.
#[derive(Clone, Debug, PartialEq, Eq)]
pub struct Notification {
    pub app_name: String,
    /// 0 asks for a new notification; another value names one to update.
    pub replaces_id: u32,
    pub app_icon: String,
    pub summary: String,
    pub body: String,
    pub actions: Vec<String>,
    pub expire_timeout: i32,
    pub urgency: Urgency,
    pub image_path: String,
    /// -1 for no progress bar, else a percentage.
    pub progress: i32,
    pub image_data: Option<ImageData>,
}

impl Notification {
    /// Builds a notification without a bitmap; an unknown urgency code becomes `Low`.
    pub fn create(
        app_name: String,
        replaces_id: u32,
        app_icon: String,
        summary: String,
        body: String,
        actions: Vec<String>,
        expire_timeout: i32,
        urgency: i32,
        image_path: String,
        progress: i32,
    ) -> (r: Self)
        ensures
            r.app_name == app_name,
            r.replaces_id == replaces_id,
            r.app_icon == app_icon,
            r.summary == summary,
            r.body == body,
            r.actions == actions,
            r.expire_timeout == expire_timeout,
            r.urgency == urgency_or_low(urgency as int),
            r.image_path == image_path,
            r.progress == progress,
            r.image_data is None,
    {
        Notification {
            app_name,
            replaces_id,
            app_icon,
            summary,
            body,
            actions,
            expire_timeout,
            urgency: Urgency::from_wire(urgency),
            image_path,
            progress,
            image_data: None,
        }
    }

    /// Builds a notification from the fields of an inbound `Notify` call,
    /// bitmap block included.
    pub fn from_wire(
        app_name: String,
        replaces_id: u32,
        app_icon: String,
        summary: String,
        body: String,
        actions: Vec<String>,
        expire_timeout: i32,
        urgency: i32,
        image_path: String,
        progress: i32,
        raw_image: WireImage,
    ) -> (r: Self)
        ensures
            r.app_name == app_name,
            r.replaces_id == replaces_id,
            r.app_icon == app_icon,
            r.summary == summary,
            r.body == body,
            r.actions == actions,
            r.expire_timeout == expire_timeout,
            r.urgency == urgency_or_low(urgency as int),
            r.image_path == image_path,
            r.progress == progress,
            image_view(r.image_data) == image_of_wire(raw_image),
    {
        let mut n = Notification::create(
            app_name,
            replaces_id,
            app_icon,
            summary,
            body,
            actions,
            expire_timeout,
            urgency,
            image_path,
            progress,
        );
        n.image_data = ImageData::from_wire(raw_image);
        n
    }

    /// Whether the sender offers a text reply.
    pub fn has_inline_reply(&self) -> (r: bool)
        ensures
            r == exists|i: int| 0 <= i < self.actions@.len() && self.actions@[i]@ == "inline-reply"@,
    {
        let mut i: usize = 0;
        while i < self.actions.len()
            invariant
                0 <= i <= self.actions@.len(),
                forall|j: int| 0 <= j < i ==> self.actions@[j]@ != "inline-reply"@,
            decreases self.actions@.len() - i,
        {
            if same_text(self.actions[i].as_str(), "inline-reply") {
                return true;
            }
            i = i + 1;
        }
        false
    }
}

} // verus!
