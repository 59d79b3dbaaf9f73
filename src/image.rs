use vstd::prelude::*;

use crate::notification::{image_view, ImageData, ImageDataView};

verus! {

/// The one source that a notification's picture is drawn from.
#[derive(Clone, Debug, PartialEq, Eq)]
pub enum ImageSource {
    /// A picture file, scaled to the presentation size.
    File(String),
    /// A name in the icon theme, drawn at the icon size.
    Icon(String),
    /// A bitmap sent with the notification, scaled to the presentation size.
    Pixels(ImageData),
}

pub enum ImageSourceView {
    File(Seq<char>),
    Icon(Seq<char>),
    Pixels(ImageDataView),
}

impl View for ImageSource {
    type V = ImageSourceView;

    open spec fn view(&self) -> ImageSourceView {
        match self {
            ImageSource::File(p) => ImageSourceView::File(p@),
            ImageSource::Icon(n) => ImageSourceView::Icon(n@),
            ImageSource::Pixels(d) => ImageSourceView::Pixels(d@),
        }
    }
}

/// The view of an optional image source.
pub open spec fn source_view(s: Option<ImageSource>) -> Option<ImageSourceView> {
    match s {
        Some(s) => Some(s@),
        None => None,
    }
}

/// The side, in logical units, that pictures and bitmaps are scaled to.
pub const PICTURE_SIZE: i32 = 100;

/// The pixel size at which theme icons are drawn.
pub const ICON_SIZE: i32 = 50;

/// A candidate string as a source: a file where one exists at that path,
/// else a theme icon name.
pub open spec fn candidate(s: Seq<char>, is_file: bool) -> ImageSourceView {
    if is_file {
        ImageSourceView::File(s)
    } else {
        ImageSourceView::Icon(s)
    }
}

/// The chosen source: the image path, then the application icon, each as a
/// file or else as an icon name, then the bitmap; nothing where none is usable.
pub open spec fn resolved(
    image_path: Seq<char>,
    app_icon: Seq<char>,
    data: Option<ImageDataView>,
    path_is_file: bool,
    icon_is_file: bool,
) -> Option<ImageSourceView> {
    if image_path.len() > 0 {
        Some(candidate(image_path, path_is_file))
    } else if app_icon.len() > 0 {
        Some(candidate(app_icon, icon_is_file))
    } else {
        match data {
            Some(d) => Some(ImageSourceView::Pixels(d)),
            None => None,
        }
    }
}

/// Chooses the image source. `path_is_file` and `icon_is_file` say whether a
/// file exists at `image_path` and at `app_icon`; the caller looks.
pub fn resolve(
    image_path: String,
    app_icon: String,
    image_data: Option<ImageData>,
    path_is_file: bool,
    icon_is_file: bool,
) -> (r: Option<ImageSource>)
    ensures
        source_view(r) == resolved(
            image_path@,
            app_icon@,
            image_view(image_data),
            path_is_file,
            icon_is_file,
        ),
{
    if !image_path.as_str().is_empty() {
        if path_is_file {
            Some(ImageSource::File(image_path))
        } else {
            Some(ImageSource::Icon(image_path))
        }
    } else if !app_icon.as_str().is_empty() {
        if icon_is_file {
            Some(ImageSource::File(app_icon))
        } else {
            Some(ImageSource::Icon(app_icon))
        }
    } else {
        match image_data {
            Some(d) => Some(ImageSource::Pixels(d)),
            None => None,
        }
    }
}

impl ImageSource {
    /// The size it is drawn at: theme icons at the icon size, all else scaled
    /// to the picture size.
    pub fn pixel_size(&self) -> (r: i32)
        ensures
            r == (if self is Icon {
                ICON_SIZE
            } else {
                PICTURE_SIZE
            }),
    {
        match self {
            ImageSource::Icon(_) => ICON_SIZE,
            _ => PICTURE_SIZE,
        }
    }

    /// The style class of the drawn image.
    pub fn css_name(&self) -> (r: &'static str)
        ensures
            self is Icon ==> r@ == "image"@,
            !(self is Icon) ==> r@ == "picture"@,
    {
        match self {
            ImageSource::Icon(_) => "image",
            _ => "picture",
        }
    }
}

} // verus!
