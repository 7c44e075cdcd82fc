//! What a message to a room holds.

use vstd::prelude::*;
use vstd::string::StrSliceExecFns;

verus! {

/// The height, in pixels, that is claimed of every image and video.
pub const FRAME_HEIGHT: u32 = 868;

/// The width, in pixels, that is claimed of every image and video.
pub const FRAME_WIDTH: u32 = 800;

/// The content of a room message.
#[derive(Debug, Clone)]
pub enum MessageType {
    /// Plain text.
    Text { body: String },
    /// An uploaded file, to be shown as a download.
    File { body: String, filename: String, url: String, mimetype: String, size: u32 },
    /// An uploaded file, to be shown as a video.
    Video { body: String, url: String, mimetype: String, size: u32, height: u32, width: u32 },
    /// An uploaded file, to be shown as an image; the image is its own
    /// thumbnail.
    Image {
        body: String,
        url: String,
        thumbnail: String,
        mimetype: String,
        size: u32,
        height: u32,
        width: u32,
    },
}

/// The mathematical value of a [`MessageType`].
pub enum MessageView {
    Text { body: Seq<char> },
    File { body: Seq<char>, filename: Seq<char>, url: Seq<char>, mimetype: Seq<char>, size: u32 },
    Video {
        body: Seq<char>,
        url: Seq<char>,
        mimetype: Seq<char>,
        size: u32,
        height: u32,
        width: u32,
    },
    Image {
        body: Seq<char>,
        url: Seq<char>,
        thumbnail: Seq<char>,
        mimetype: Seq<char>,
        size: u32,
        height: u32,
        width: u32,
    },
}

impl View for MessageType {
    type V = MessageView;

    open spec fn view(&self) -> MessageView {
        match self {
            MessageType::Text { body } => MessageView::Text { body: body@ },
            MessageType::File { body, filename, url, mimetype, size } => MessageView::File {
                body: body@,
                filename: filename@,
                url: url@,
                mimetype: mimetype@,
                size: *size,
            },
            MessageType::Video { body, url, mimetype, size, height, width } => MessageView::Video {
                body: body@,
                url: url@,
                mimetype: mimetype@,
                size: *size,
                height: *height,
                width: *width,
            },
            MessageType::Image {
                body,
                url,
                thumbnail,
                mimetype,
                size,
                height,
                width,
            } => MessageView::Image {
                body: body@,
                url: url@,
                thumbnail: thumbnail@,
                mimetype: mimetype@,
                size: *size,
                height: *height,
                width: *width,
            },
        }
    }
}

/// A count of bytes as a message reports it: its lower 32 bits.
pub open spec fn reported_size(size: usize) -> u32 {
    (size as int % 0x1_0000_0000) as u32
}

/// The file that `url` names, shown as a download under its file name.
pub open spec fn file_message(
    url: Seq<char>,
    filename: Seq<char>,
    mime: Seq<char>,
    size: usize,
) -> MessageView {
    MessageView::File { body: filename, filename, url, mimetype: mime, size: reported_size(size) }
}

/// The file that `url` names, shown as a video under its file name.
pub open spec fn video_message(
    url: Seq<char>,
    filename: Seq<char>,
    mime: Seq<char>,
    size: usize,
) -> MessageView {
    MessageView::Video {
        body: filename,
        url,
        mimetype: mime,
        size: reported_size(size),
        height: FRAME_HEIGHT,
        width: FRAME_WIDTH,
    }
}

/// The file that `url` names, shown as an image under its file name.
pub open spec fn image_message(
    url: Seq<char>,
    filename: Seq<char>,
    mime: Seq<char>,
    size: usize,
) -> MessageView {
    MessageView::Image {
        body: filename,
        url,
        thumbnail: url,
        mimetype: mime,
        size: reported_size(size),
        height: FRAME_HEIGHT,
        width: FRAME_WIDTH,
    }
}

/// The message for an uploaded file: a video where its media type begins
/// with `video`, an image where it begins with `image`, a download
/// otherwise.
pub open spec fn attachment_message(
    url: Seq<char>,
    filename: Seq<char>,
    mime: Seq<char>,
    size: usize,
) -> MessageView {
    if "video"@.is_prefix_of(mime) {
        video_message(url, filename, mime, size)
    } else if "image"@.is_prefix_of(mime) {
        image_message(url, filename, mime, size)
    } else {
        file_message(url, filename, mime, size)
    }
}

/// A size that fits in 32 bits is reported as it is.
pub proof fn small_size_is_reported_whole(size: usize)
    requires
        size < 0x1_0000_0000,
    ensures
        reported_size(size) == size,
{
}

/// The lower 32 bits of `size`.
pub fn report_size(size: usize) -> (low: u32)
    ensures
        low == reported_size(size),
{
    let wide: u64 = size as u64;
    assert(wide as u32 == (wide % 0x1_0000_0000) as u32) by (bit_vector);
    #[verifier::truncate]
    (wide as u32)
}

/// Whether `text` begins with `prefix`.
pub fn starts_with(text: &str, prefix: &str) -> (begins: bool)
    ensures
        begins == prefix@.is_prefix_of(text@),
{
    let n: usize = prefix.unicode_len();
    if text.unicode_len() < n {
        return false;
    }
    let mut i: usize = 0;
    while i < n
        invariant
            i <= n,
            n == prefix@.len(),
            n <= text@.len(),
            forall|j: int| 0 <= j < i ==> text@[j] == prefix@[j],
        decreases n - i,
    {
        if text.get_char(i) != prefix.get_char(i) {
            return false;
        }
        i += 1;
    }
    assert(prefix@ =~= text@.subrange(0, prefix@.len() as int));
    true
}

/// A plain text message.
pub fn text_event(text: String) -> (content: MessageType)
    ensures
        content@ == (MessageView::Text { body: text@ }),
{
    MessageType::Text { body: text }
}

/// The message that offers an uploaded file as a download. Its body is the
/// file name: the description goes unused.
pub fn send_as_file(
    description: String,
    uri: &str,
    filename: String,
    mime: String,
    size: usize,
) -> (content: MessageType)
    ensures
        content@ == file_message(uri@, filename@, mime@, size),
{
    MessageType::File {
        body: filename.clone(),
        filename,
        url: uri.to_owned(),
        mimetype: mime,
        size: report_size(size),
    }
}

/// The message that shows an uploaded file as a video. Its body is the file
/// name: the description goes unused.
pub fn send_as_video(
    description: String,
    uri: &str,
    filename: String,
    mime: String,
    size: usize,
) -> (content: MessageType)
    ensures
        content@ == video_message(uri@, filename@, mime@, size),
{
    MessageType::Video {
        body: filename,
        url: uri.to_owned(),
        mimetype: mime,
        size: report_size(size),
        height: FRAME_HEIGHT,
        width: FRAME_WIDTH,
    }
}

/// The message that shows an uploaded file as an image. Its body is the
/// file name: the description goes unused.
pub fn send_as_image(
    description: String,
    uri: &str,
    filename: String,
    mime: String,
    size: usize,
) -> (content: MessageType)
    ensures
        content@ == image_message(uri@, filename@, mime@, size),
{
    MessageType::Image {
        body: filename,
        url: uri.to_owned(),
        thumbnail: uri.to_owned(),
        mimetype: mime,
        size: report_size(size),
        height: FRAME_HEIGHT,
        width: FRAME_WIDTH,
    }
}

/// The message for an uploaded file, of the kind that its media type asks
/// for. A missing description counts as an empty one.
pub fn attachment_content(
    description: Option<String>,
    uri: &str,
    filename: String,
    mime: String,
    size: usize,
) -> (content: MessageType)
    ensures
        content@ == attachment_message(uri@, filename@, mime@, size),
{
    let description = match description {
        Some(text) => text,
        None => String::new(),
    };
    if starts_with(mime.as_str(), "video") {
        send_as_video(description, uri, filename, mime, size)
    } else if starts_with(mime.as_str(), "image") {
        send_as_image(description, uri, filename, mime, size)
    } else {
        send_as_file(description, uri, filename, mime, size)
    }
}

} // verus!
