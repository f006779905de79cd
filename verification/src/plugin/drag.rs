//! The `drag` plugin: one command that starts a drag of files or of data
//! held by the script.

use vstd::prelude::*;
use vstd::string::StrSliceExecFns;
use vstd::string::StringSliceAdditionalSpecFns;
use crate::{CursorPosition, DragResult, Options};
use crate::plugin::codec::{base64_standard_decoded, decode_error_text, decode_standard};
use crate::plugin::text_map::TextMap;
use crate::text::{strip_prefix, without_prefix};

verus! {

/// What a plugin registers with the application framework.
#[derive(Debug)]
pub struct PluginDescriptor {
    /// The name of the plugin.
    pub name: String,
    /// The commands it handles, in the order they are registered.
    pub commands: Vec<String>,
    /// Whether the plugin injects its script API into every page.
    pub injects_script: bool,
}

/// Describes the plugin: it is named `drag` and handles `start_drag`.
pub fn init() -> (r: PluginDescriptor)
    ensures
        r.name@ == "drag"@,
        r.commands@.len() == 1,
        r.commands@[0]@ == "start_drag"@,
        !r.injects_script,
{
    let mut commands: Vec<String> = Vec::new();
    commands.push("start_drag".to_owned());
    PluginDescriptor { name: "drag".to_owned(), commands, injects_script: false }
}

/// Why a command failed.
#[derive(Debug)]
pub enum Error {
    /// The drag itself failed.
    Drag(crate::Error),
    /// The application framework failed; the text is its message.
    Tauri(String),
    /// The preview image is not Base64.
    Base64(base64::DecodeError),
}

impl Error {
    /// Human-readable description: that of the error inside. Nothing is
    /// claimed of the text of a decoder error.
    pub fn message(&self) -> (r: String)
        ensures
            self matches Error::Tauri(text) ==> r@ == text@,
            self matches Error::Drag(inner) ==> r@ == inner.description(),
    {
        match self {
            Error::Drag(inner) => inner.message(),
            Error::Tauri(text) => text.clone(),
            Error::Base64(inner) => decode_error_text(inner),
        }
    }
}

/// The prefix of a PNG image given as a data URL.
pub open spec fn png_data_url_prefix() -> Seq<char> {
    "data:image/png;base64,"@
}

/// A PNG image in Base64, without the data URL prefix it came with.
#[derive(Debug)]
pub struct Base64Image(pub String);

impl Base64Image {
    /// Reads a data URL: the Base64 text behind `data:image/png;base64,`,
    /// or `None` for any other text. The caller reports `None` as
    /// "expected an image/png base64 image string".
    pub fn from_data_url(value: &str) -> (r: Option<Base64Image>)
        ensures
            match r {
                Some(image) => without_prefix(value@, png_data_url_prefix()) == Some(image.0@),
                None => without_prefix(value@, png_data_url_prefix()) is None,
            },
    {
        match strip_prefix(value, "data:image/png;base64,") {
            Some(data) => Some(Base64Image(data)),
            None => None,
        }
    }
}

/// The preview image of a command.
#[derive(Debug)]
pub enum Image {
    /// A PNG image as Base64 text.
    Base64(Base64Image),
    /// A path or raw bytes.
    Raw(crate::Image),
}

/// Data that the script shares with the application dropped on.
#[derive(Debug)]
pub enum SharedData {
    /// The same text for every type.
    Fixed(String),
    /// A text for each type that has an entry.
    Keyed(TextMap),
}

impl SharedData {
    /// The text shared for `data_type`, if any.
    pub open spec fn text_for(&self, data_type: Seq<char>) -> Option<Seq<char>> {
        match self {
            SharedData::Fixed(text) => Some(text@),
            SharedData::Keyed(texts) => if texts@.contains_key(data_type) {
                Some(texts@[data_type])
            } else {
                None
            },
        }
    }

    /// The data provider of the item: the bytes shared for `data_type`,
    /// which are the UTF-8 encoding of the text, or `None` if the data has
    /// nothing for that type.
    pub fn provide(&self, data_type: &str) -> (r: Option<Vec<u8>>)
        ensures
            match r {
                Some(bytes) => self.text_for(data_type@) matches Some(text) && bytes@
                    == vstd::utf8::encode_utf8(text),
                None => self.text_for(data_type@) is None,
            },
    {
        match self {
            SharedData::Fixed(text) => Some(text.as_str().as_bytes_vec()),
            SharedData::Keyed(texts) => match texts.get(data_type) {
                Some(text) => Some(text.as_str().as_bytes_vec()),
                None => None,
            },
        }
    }
}

/// The item of a command.
#[derive(Debug)]
pub enum DragItem {
    /// A list of files to be dragged. The paths must be absolute.
    Files(Vec<String>),
    /// Data to share with another application.
    Data { data: SharedData, types: Vec<String> },
}

/// What a command asks the drag backend for. A `Data` item is dragged with
/// `SharedData::provide` of its data as the provider.
#[derive(Debug)]
pub struct DragRequest {
    pub item: DragItem,
    pub image: crate::Image,
    pub options: Options,
}

/// What the script is told when the drag ends.
#[derive(Debug, Clone, Copy, PartialEq, Eq, Structural)]
pub struct CallbackResult {
    result: DragResult,
    cursor_pos: CursorPosition,
}

impl CallbackResult {
    pub closed spec fn spec_result(self) -> DragResult {
        self.result
    }

    pub closed spec fn spec_cursor_pos(self) -> CursorPosition {
        self.cursor_pos
    }

    pub fn new(result: DragResult, cursor_pos: CursorPosition) -> (r: CallbackResult)
        ensures
            r.spec_result() == result,
            r.spec_cursor_pos() == cursor_pos,
    {
        CallbackResult { result, cursor_pos }
    }

    pub fn result(&self) -> (r: DragResult)
        ensures
            r == self.spec_result(),
    {
        self.result
    }

    pub fn cursor_pos(&self) -> (r: CursorPosition)
        ensures
            r == self.spec_cursor_pos(),
    {
        self.cursor_pos
    }
}

/// The image that the result of decoding Base64 text stands for: the
/// decoded bytes as a raw image, or the decoder's error as the command's.
pub fn decoded_image(decoded: Result<Vec<u8>, base64::DecodeError>) -> (r: Result<
    crate::Image,
    Error,
>)
    ensures
        match decoded {
            Ok(bytes) => r == Ok::<crate::Image, Error>(crate::Image::Raw(bytes)),
            Err(e) => r == Err::<crate::Image, Error>(Error::Base64(e)),
        },
{
    match decoded {
        Ok(bytes) => Ok(crate::Image::Raw(bytes)),
        Err(e) => Err(Error::Base64(e)),
    }
}

/// Handles the `start_drag` command: decodes the image if it is Base64 and
/// asks for a drag of `item` with default options. A `Raw` image is handed
/// on as it is.
///
/// The command fails only on an image whose text is not standard Base64.
pub fn start_drag(item: DragItem, image: Image) -> (r: Result<DragRequest, Error>)
    ensures
        match image {
            Image::Raw(raw) => r is Ok && r->Ok_0.image == raw,
            Image::Base64(text) => match base64_standard_decoded(text.0@) {
                Some(bytes) => r is Ok && r->Ok_0.image is Raw && r->Ok_0.image->Raw_0@ == bytes,
                None => r is Err && r->Err_0 is Base64,
            },
        },
        r matches Ok(request) ==> request.item == item
            && !request.options.skip_animatation_on_cancel_or_failure,
{
    let image = match image {
        Image::Raw(raw) => raw,
        Image::Base64(text) => match decoded_image(decode_standard(text.0.as_str())) {
            Ok(image) => image,
            Err(e) => {
                return Err(e);
            },
        },
    };
    Ok(DragRequest { item, image, options: Options::default() })
}

} // verus!
