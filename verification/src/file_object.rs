//! One file of the collection: where it is, how it is named in the list, and
//! the state of its thumbnail.

use crate::config::Config;
use vstd::prelude::*;

verus! {

/// The broad kind of a file, as far as thumbnails and icons care.
#[derive(Clone, Copy, Debug, PartialEq, Eq, Structural)]
pub enum MimeClass {
    Directory,
    Image,
    Other,
}

/// A decoded thumbnail image: its pixel bytes and how they are laid out.
#[derive(Clone, Debug, PartialEq, Eq)]
pub struct Thumbnail {
    pub pixels: Vec<u8>,
    pub width: i32,
    pub height: i32,
    pub rowstride: i32,
    pub has_alpha: bool,
    pub bits_per_sample: i32,
}

/// What is known of the thumbnail of a file.
#[derive(Clone, Debug, PartialEq, Eq)]
pub enum ThumbnailState {
    /// A thumbnail was asked for and has not come yet.
    Pending,
    /// The decoded image.
    Ready(Thumbnail),
    /// There is none and there will be none: the generic icon stands.
    Unavailable,
}

/// What a loader hands back for one request.
#[derive(Clone, Debug, PartialEq, Eq)]
pub enum ThumbnailResult {
    Image(Thumbnail),
    Unavailable,
}

/// What a loader is to do for one file.
#[derive(Clone, Debug, PartialEq, Eq)]
pub enum ThumbnailRequest {
    /// Decode the image at `path`, scaled to `width` and `height`, where a
    /// negative number leaves that side free.
    Decode { path: String, width: i32, height: i32, preserve_aspect_ratio: bool },
    /// Nothing: the result is `Unavailable` at once.
    Unavailable,
}

/// Whether delivering a result changed the state.
#[derive(Clone, Copy, Debug, PartialEq, Eq, Structural)]
pub enum Delivery {
    Applied,
    Discarded,
}

/// What was read of a file before an entry is made of it.
#[derive(Clone, Debug, PartialEq, Eq)]
pub struct FileInfo {
    /// The location as a URI.
    pub uri: String,
    /// The local path, where the file can be addressed locally.
    pub path: Option<String>,
    /// The full name, as it is shown to a reader.
    pub parse_name: String,
    /// The last component of the name, where there is one.
    pub basename: Option<String>,
    /// The path from the directory the run started in down to the file,
    /// where the file lies below that directory.
    pub relative_name: Option<String>,
    /// Whether the content type of the file is that of a directory
    /// (`DIRECTORY_TYPE`), as the platform's type registry answers.
    pub is_directory: bool,
    /// Whether the content type of the file is one of the image types
    /// (`IMAGE_PATTERN`), as the platform's type registry answers.
    pub is_image: bool,
    /// The name of the generic icon of the content type, if it has one.
    pub generic_icon: Option<String>,
}

/// The content type that the registry is asked about to tell a directory.
pub const DIRECTORY_TYPE: &'static str = "inode/directory";

/// The content type that the registry is asked about to tell an image.
pub const IMAGE_PATTERN: &'static str = "image/*";

/// One file of the collection.
#[derive(Debug, PartialEq, Eq)]
pub struct FileObject {
    uri: String,
    path: Option<String>,
    parse_name: String,
    display_name: String,
    icon_name: String,
    mime_class: MimeClass,
    thumbnail: ThumbnailState,
}

/// A `FileObject` as contracts see it.
pub struct FileObjectView {
    pub uri: Seq<char>,
    pub path: Option<Seq<char>>,
    pub parse_name: Seq<char>,
    pub display_name: Seq<char>,
    pub icon_name: Seq<char>,
    pub mime_class: MimeClass,
    pub thumbnail: ThumbnailState,
}

/// The text of an optional text.
pub open spec fn text_of(text: Option<String>) -> Option<Seq<char>> {
    match text {
        Some(t) => Some(t@),
        None => None,
    }
}

/// The content type that stands for a file: the sniffed one, or plain text
/// where sniffing gave none.
pub open spec fn effective_content_type(sniffed: Option<Seq<char>>) -> Seq<char> {
    match sniffed {
        Some(content_type) => content_type,
        None => "text/plain"@,
    }
}

/// The icon that stands for a file: the generic icon of its content type, or
/// the default icon where the content type has none.
pub open spec fn effective_icon(generic: Option<Seq<char>>) -> Seq<char> {
    match generic {
        Some(icon) => icon,
        None => "text/default"@,
    }
}

/// The kind of a file, by what the registry answers of its content type: a
/// directory, else an image, else anything else.
pub open spec fn classify(is_directory: bool, is_image: bool) -> MimeClass {
    if is_directory {
        MimeClass::Directory
    } else if is_image {
        MimeClass::Image
    } else {
        MimeClass::Other
    }
}

/// The name under which a file is listed: its base name where base names are
/// preferred and it has one; else its path relative to the start directory
/// where it lies below that; else its full name.
pub open spec fn display_name_of(
    prefer_basename: bool,
    relative_name: Option<Seq<char>>,
    basename: Option<Seq<char>>,
    parse_name: Seq<char>,
) -> Seq<char> {
    if prefer_basename && basename is Some {
        basename->0
    } else if relative_name is Some {
        relative_name->0
    } else {
        parse_name
    }
}

/// Whether a thumbnail is asked for: thumbnails are not disabled and the
/// file is an image.
pub open spec fn wants_thumbnail(disabled: bool, class: MimeClass) -> bool {
    !disabled && class == MimeClass::Image
}

/// The state that a result leads to from `state`: a pending thumbnail takes
/// the result, a settled one stays as it is.
pub open spec fn settle(state: ThumbnailState, result: ThumbnailResult) -> ThumbnailState {
    match state {
        ThumbnailState::Pending => match result {
            ThumbnailResult::Image(image) => ThumbnailState::Ready(image),
            ThumbnailResult::Unavailable => ThumbnailState::Unavailable,
        },
        _ => state,
    }
}

/// The content type that stands for a file.
pub fn content_type_or_default(sniffed: Option<String>) -> (content_type: String)
    ensures
        content_type@ == effective_content_type(text_of(sniffed)),
{
    match sniffed {
        Some(content_type) => content_type,
        None => "text/plain".to_owned(),
    }
}

/// The icon that stands for a file.
pub fn icon_name_or_default(generic: Option<String>) -> (icon: String)
    ensures
        icon@ == effective_icon(text_of(generic)),
{
    match generic {
        Some(icon) => icon,
        None => "text/default".to_owned(),
    }
}

/// The kind of a file, by what the registry answers of its content type.
pub fn mime_class_of(is_directory: bool, is_image: bool) -> (class: MimeClass)
    ensures
        class == classify(is_directory, is_image),
{
    if is_directory {
        MimeClass::Directory
    } else if is_image {
        MimeClass::Image
    } else {
        MimeClass::Other
    }
}

/// What a loader hands back after it looked at the file: the decoded image
/// if the file was there and decoding worked, else `Unavailable`.
pub fn thumbnail_result(exists: bool, decoded: Option<Thumbnail>) -> (result: ThumbnailResult)
    ensures
        result == match decoded {
            Some(image) if exists => ThumbnailResult::Image(image),
            _ => ThumbnailResult::Unavailable,
        },
{
    match decoded {
        Some(image) => if exists {
            ThumbnailResult::Image(image)
        } else {
            ThumbnailResult::Unavailable
        },
        None => ThumbnailResult::Unavailable,
    }
}

impl View for FileObject {
    type V = FileObjectView;

    closed spec fn view(&self) -> FileObjectView {
        FileObjectView {
            uri: self.uri@,
            path: text_of(self.path),
            parse_name: self.parse_name@,
            display_name: self.display_name@,
            icon_name: self.icon_name@,
            mime_class: self.mime_class,
            thumbnail: self.thumbnail,
        }
    }
}

impl FileObject {
    /// Only an image has a thumbnail that is pending or ready.
    #[verifier::type_invariant]
    closed spec fn well_formed(self) -> bool {
        !(self.thumbnail is Unavailable) ==> self.mime_class == MimeClass::Image
    }

    /// The entry that is made of `info` under `config`.
    pub open spec fn built(info: FileInfo, config: Config) -> FileObjectView {
        let class = classify(info.is_directory, info.is_image);
        FileObjectView {
            uri: info.uri@,
            path: text_of(info.path),
            parse_name: info.parse_name@,
            display_name: display_name_of(
                config.basename,
                text_of(info.relative_name),
                text_of(info.basename),
                info.parse_name@,
            ),
            icon_name: effective_icon(text_of(info.generic_icon)),
            mime_class: class,
            thumbnail: if wants_thumbnail(config.disable_thumbnails, class) {
                ThumbnailState::Pending
            } else {
                ThumbnailState::Unavailable
            },
        }
    }

    /// Makes the entry for a file. Its name in the list is fixed here. The
    /// thumbnail of an image is pending, unless thumbnails are disabled; that
    /// of any other file is unavailable from the start.
    pub fn new(info: FileInfo, config: &Config) -> (object: FileObject)
        ensures
            object@ == FileObject::built(info, *config),
            config.disable_thumbnails ==> object@.thumbnail is Unavailable,
            object@.mime_class != MimeClass::Image ==> object@.thumbnail is Unavailable,
            object@.thumbnail is Pending || object@.thumbnail is Unavailable,
    {
        let FileInfo {
            uri,
            path,
            parse_name,
            basename,
            relative_name,
            is_directory,
            is_image,
            generic_icon,
        } = info;
        let mime_class = mime_class_of(is_directory, is_image);
        let display_name = match (basename, relative_name) {
            (Some(name), Some(relative)) => if config.basename {
                name
            } else {
                relative
            },
            (Some(name), None) => if config.basename {
                name
            } else {
                parse_name.clone()
            },
            (None, Some(relative)) => relative,
            (None, None) => parse_name.clone(),
        };
        let thumbnail = if !config.disable_thumbnails && mime_class == MimeClass::Image {
            ThumbnailState::Pending
        } else {
            ThumbnailState::Unavailable
        };
        FileObject {
            uri,
            path,
            parse_name,
            display_name,
            icon_name: icon_name_or_default(generic_icon),
            mime_class,
            thumbnail,
        }
    }

    /// The location as a URI.
    pub fn uri(&self) -> (uri: &String)
        ensures
            uri@ == self@.uri,
    {
        &self.uri
    }

    /// The local path, where the file can be addressed locally.
    pub fn path(&self) -> (path: Option<&String>)
        ensures
            path is Some <==> self@.path is Some,
            path matches Some(p) ==> self@.path == Some(p@),
    {
        self.path.as_ref()
    }

    /// The full name.
    pub fn parse_name(&self) -> (name: &String)
        ensures
            name@ == self@.parse_name,
    {
        &self.parse_name
    }

    /// The name under which the file is listed.
    pub fn display_name(&self) -> (name: &String)
        ensures
            name@ == self@.display_name,
    {
        &self.display_name
    }

    /// The name of the icon that stands for the file.
    pub fn icon_name(&self) -> (name: &String)
        ensures
            name@ == self@.icon_name,
    {
        &self.icon_name
    }

    /// The broad kind of the file.
    pub fn mime_class(&self) -> (class: MimeClass)
        ensures
            class == self@.mime_class,
    {
        self.mime_class
    }

    /// What is known of the thumbnail.
    pub fn thumbnail(&self) -> (state: &ThumbnailState)
        ensures
            *state == self@.thumbnail,
    {
        &self.thumbnail
    }

    /// What a loader is to do for this entry: decode the image at its path,
    /// as wide as the configured size and as high as its proportions make
    /// it, if thumbnails are not disabled, the thumbnail is pending and the
    /// file has a local path to decode from; nothing in every other case,
    /// where the result to hand back is `Unavailable`.
    pub fn thumbnail_request(&self, config: &Config) -> (request: ThumbnailRequest)
        ensures
            request is Decode <==> !config.disable_thumbnails && self@.thumbnail is Pending
                && self@.path is Some,
            request matches ThumbnailRequest::Decode {
                path,
                width,
                height,
                preserve_aspect_ratio,
            } ==> self@.path == Some(path@) && width == config.icon_size && height == -1
                && preserve_aspect_ratio,
            config.disable_thumbnails ==> request is Unavailable,
            self@.mime_class != MimeClass::Image ==> request is Unavailable,
    {
        proof {
            use_type_invariant(self);
        }
        if config.disable_thumbnails {
            return ThumbnailRequest::Unavailable;
        }
        match (&self.thumbnail, &self.path) {
            (ThumbnailState::Pending, Some(path)) => ThumbnailRequest::Decode {
                path: path.clone(),
                width: config.icon_size,
                height: -1,
                preserve_aspect_ratio: true,
            },
            _ => ThumbnailRequest::Unavailable,
        }
    }

    /// Takes the result of a loader. A pending thumbnail becomes ready or
    /// unavailable; a settled one is left as it is and the result discarded.
    /// Nothing else of the entry changes.
    pub fn resolve_thumbnail(&mut self, result: ThumbnailResult) -> (delivery: Delivery)
        ensures
            final(self)@ == (FileObjectView {
                thumbnail: settle(old(self)@.thumbnail, result),
                ..old(self)@
            }),
            delivery == if old(self)@.thumbnail is Pending {
                Delivery::Applied
            } else {
                Delivery::Discarded
            },
            !(final(self)@.thumbnail is Pending),
    {
        proof {
            use_type_invariant(&*self);
        }
        match self.thumbnail {
            ThumbnailState::Pending => {
                self.thumbnail = match result {
                    ThumbnailResult::Image(image) => ThumbnailState::Ready(image),
                    ThumbnailResult::Unavailable => ThumbnailState::Unavailable,
                };
                Delivery::Applied
            },
            _ => Delivery::Discarded,
        }
    }
}

/// A thumbnail settles once. The first result that reaches a pending
/// thumbnail decides it, no state that a result leaves is pending, and no
/// later result changes it.
pub proof fn law_thumbnail_settles_once(
    state: ThumbnailState,
    first: ThumbnailResult,
    second: ThumbnailResult,
)
    ensures
        !(state is Pending) ==> settle(state, first) == state,
        !(settle(state, first) is Pending),
        settle(settle(state, first), second) == settle(state, first),
{
}

} // verus!
