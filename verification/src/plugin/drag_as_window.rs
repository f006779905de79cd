//! The `drag-as-window` plugin: dragging a piece of the page out as a new
//! window, and dragging data back through a temporary file whose name
//! begins with a reserved prefix.

use vstd::prelude::*;
use crate::Options;
use crate::plugin::codec::{
    base64_standard_decoded, decode_error_text, decode_standard, json_from_slice, json_to_vec,
};
use crate::plugin::drag::{DragItem, DragRequest, PluginDescriptor, SharedData};
use crate::text::{has_prefix, starts_with, strip_prefix, without_prefix};

pub use crate::plugin::drag::CallbackResult;

verus! {

/// The text that the name of a relay file begins with.
pub const FILE_PREFIX: &'static str = "qow3ciuh";

/// Describes the plugin: it is named `drag-as-window` and handles
/// `drag_new_window`, `drag_back` and `on_drop`.
pub fn init() -> (r: PluginDescriptor)
    ensures
        r.name@ == "drag-as-window"@,
        r.commands@.len() == 3,
        r.commands@[0]@ == "drag_new_window"@,
        r.commands@[1]@ == "drag_back"@,
        r.commands@[2]@ == "on_drop"@,
        !r.injects_script,
{
    let mut commands: Vec<String> = Vec::new();
    commands.push("drag_new_window".to_owned());
    commands.push("drag_back".to_owned());
    commands.push("on_drop".to_owned());
    PluginDescriptor { name: "drag-as-window".to_owned(), commands, injects_script: false }
}

/// Why a command failed.
#[derive(Debug)]
pub enum Error {
    /// The drag itself failed.
    Drag(crate::Error),
    /// The application framework failed; the text is its message.
    Tauri(String),
    /// The text behind the data URL prefix is not Base64.
    Base64(base64::DecodeError),
    /// The data could not be written as JSON; the text is the message.
    Json(String),
    /// The relay file could not be written; the text is the message.
    Io(String),
    /// The preview image is no PNG data URL.
    InvalidBase64,
}

impl Error {
    /// Human-readable description. Nothing is claimed of the text of a
    /// decoder error.
    pub fn message(&self) -> (r: String)
        ensures
            self matches Error::Tauri(text) ==> r@ == text@,
            self matches Error::Json(text) ==> r@ == text@,
            self matches Error::Io(text) ==> r@ == text@,
            self is InvalidBase64 ==> r@ == "invalid base64, expected image/png format"@,
            self matches Error::Drag(inner) ==> r@ == inner.description(),
    {
        match self {
            Error::Drag(inner) => inner.message(),
            Error::Tauri(text) => text.clone(),
            Error::Base64(inner) => decode_error_text(inner),
            Error::Json(text) => text.clone(),
            Error::Io(text) => text.clone(),
            Error::InvalidBase64 => "invalid base64, expected image/png format".to_owned(),
        }
    }
}

/// What is dragged.
#[derive(Debug)]
pub enum DragData {
    /// The relay file at this path.
    Path(String),
    /// Nothing but the window's identifier as a type.
    Data,
}

/// Whether a file dropped on a window is a relay file: its name begins
/// with the reserved prefix. `None` stands for a path without a file name
/// or with one that is not Unicode.
pub fn is_relay_file(file_name: Option<&str>) -> (r: bool)
    ensures
        r == (file_name matches Some(name) && has_prefix(name@, FILE_PREFIX@)),
{
    match file_name {
        Some(name) => starts_with(name, FILE_PREFIX),
        None => false,
    }
}

/// What is sent to the listener for a dropped file, given what parsing its
/// contents gave: the parsed data of a relay file, nothing for any other
/// file and nothing where there is no parsed data.
pub fn relayed(file_name: Option<&str>, parsed: Option<serde_json::Value>) -> (r: Option<
    serde_json::Value,
>)
    ensures
        r == (if file_name matches Some(name) && has_prefix(name@, FILE_PREFIX@) {
            parsed
        } else {
            None
        }),
{
    if is_relay_file(file_name) {
        parsed
    } else {
        None
    }
}

/// Handles a drop on the window: `file_name` is the name of the first
/// dropped file, `contents` what reading that file gave (`None` if it could
/// not be read).
///
/// The data of a relay file is sent on to the listener. Nothing is sent
/// for any other file, nor for a relay file that cannot be read or holds
/// no JSON.
pub fn on_drop(file_name: Option<&str>, contents: Option<&[u8]>) -> (r: Option<
    serde_json::Value,
>)
    ensures
        r == relay_data(file_name, contents),
{
    if !is_relay_file(file_name) {
        return None;
    }
    match contents {
        Some(bytes) => relayed(file_name, json_from_slice(bytes)),
        None => None,
    }
}

/// The bytes for the relay file, given what writing the data as JSON gave:
/// the text itself, or its error as the command's.
pub fn relay_bytes(written: Result<Vec<u8>, String>) -> (r: Result<Vec<u8>, Error>)
    ensures
        r == (match written {
            Ok(bytes) => Ok::<Vec<u8>, Error>(bytes),
            Err(text) => Err::<Vec<u8>, Error>(Error::Json(text)),
        }),
{
    match written {
        Ok(bytes) => Ok(bytes),
        Err(text) => Err(Error::Json(text)),
    }
}

/// The bytes written to the relay file for `data`: its JSON text. Fails,
/// with a `Json` error, exactly where the data has no JSON text.
pub fn drag_back(data: &serde_json::Value) -> (r: Result<Vec<u8>, Error>)
    ensures
        match crate::plugin::codec::json_text_of(*data) {
            Some(bytes) => r is Ok && r->Ok_0@ == bytes,
            None => r is Err && r->Err_0 is Json,
        },
{
    relay_bytes(json_to_vec(data))
}

/// Whether `request` is the drag of `data` with the preview bytes `image`:
/// the item is the relay file alone, or a data item that has empty data
/// for every type and the window's identifier as its one type; the preview
/// is the raw image; the snap-back animation is skipped.
pub open spec fn is_request_for(
    request: DragRequest,
    data: DragData,
    image: Seq<u8>,
    identifier: String,
) -> bool {
    &&& request.image is Raw
    &&& request.image->Raw_0@ == image
    &&& request.options.skip_animatation_on_cancel_or_failure
    &&& match data {
        DragData::Path(path) => {
            &&& request.item is Files
            &&& request.item->Files_0@ == seq![path]
        },
        DragData::Data => {
            &&& request.item is Data
            &&& request.item->data is Fixed
            &&& request.item->data->Fixed_0@.len() == 0
            &&& request.item->types@ == seq![identifier]
        },
    }
}

/// The request for a drag of `data` with the decoded preview `image`. The
/// snap-back animation is always skipped.
pub fn drag_request(data: DragData, image: Vec<u8>, identifier: String) -> (r: DragRequest)
    ensures
        is_request_for(r, data, image@, identifier),
{
    let item = match data {
        DragData::Path(path) => {
            let mut files: Vec<String> = Vec::new();
            files.push(path);
            DragItem::Files(files)
        },
        DragData::Data => {
            let mut types: Vec<String> = Vec::new();
            types.push(identifier);
            DragItem::Data { data: SharedData::Fixed(String::new()), types }
        },
    };
    DragRequest {
        item,
        image: crate::Image::Raw(image),
        options: Options { skip_animatation_on_cancel_or_failure: true },
    }
}

/// Prepares the drag of `data` with the preview given as a PNG data URL.
/// `identifier` is the identifier of the window's application.
///
/// Fails with `InvalidBase64` if `image_base64` does not begin with
/// `data:image/png;base64,`, and with the decoder's error if what follows
/// is not standard Base64.
pub fn perform_drag(data: DragData, image_base64: &str, identifier: String) -> (r: Result<
    DragRequest,
    Error,
>)
    ensures
        match without_prefix(image_base64@, crate::plugin::drag::png_data_url_prefix()) {
            None => r is Err && r->Err_0 is InvalidBase64,
            Some(text) => match base64_standard_decoded(text) {
                None => r is Err && r->Err_0 is Base64,
                Some(bytes) => r is Ok && is_request_for(r->Ok_0, data, bytes, identifier),
            },
        },
{
    let text = match strip_prefix(image_base64, "data:image/png;base64,") {
        Some(text) => text,
        None => {
            return Err(Error::InvalidBase64);
        },
    };
    match decode_standard(text.as_str()) {
        Ok(bytes) => Ok(drag_request(data, bytes, identifier)),
        Err(e) => Err(Error::Base64(e)),
    }
}

/// Prepares the drag of a new window: a data item without a relay file.
pub fn drag_new_window(image_base64: &str, identifier: String) -> (r: Result<DragRequest, Error>)
    ensures
        match without_prefix(image_base64@, crate::plugin::drag::png_data_url_prefix()) {
            None => r is Err && r->Err_0 is InvalidBase64,
            Some(text) => match base64_standard_decoded(text) {
                None => r is Err && r->Err_0 is Base64,
                Some(bytes) => r is Ok && is_request_for(
                    r->Ok_0,
                    DragData::Data,
                    bytes,
                    identifier,
                ),
            },
        },
{
    perform_drag(DragData::Data, image_base64, identifier)
}

/// What a drop hands to the listener: the value that the contents of a
/// relay file stand for as JSON text; nothing for any other file, for a
/// file that could not be read, and for contents that are no JSON text.
pub open spec fn relay_data(file_name: Option<&str>, contents: Option<&[u8]>) -> Option<
    serde_json::Value,
> {
    let is_relay = match file_name {
        Some(name) => has_prefix(name@, FILE_PREFIX@),
        None => false,
    };
    match contents {
        Some(bytes) if is_relay => crate::plugin::codec::json_value_of(bytes@),
        _ => None,
    }
}

} // verus!
