use vstd::prelude::*;
use vstd::string::*;
use vstd::utf8::*;

use crate::external::{decode_utf8_text, json_string_field, json_string_member};
use crate::file_type::{file_type_of_name, FileType};
use crate::string_map::StringMap;
use crate::text::{
    data_source_id, first_segment, lemma_stream_resolves_to_prefix, trim_char, trim_quotes,
};

verus! {

/// Which branch a message takes: a file upload to retrieve and index, or a
/// structured payload to hand on.
#[derive(Clone, Copy, Debug, PartialEq, Eq, Structural)]
pub enum PathKind {
    Upload,
    Forward,
}

/// The data source a message's headers name: the text of the `stream` header
/// before its first `_`, when that is present and not empty.
pub open spec fn source_of_headers(headers: Map<Seq<char>, Seq<char>>) -> Option<Seq<char>> {
    if headers.contains_key("stream"@) && first_segment(headers["stream"@]).len() > 0 {
        Some(first_segment(headers["stream"@]))
    } else {
        None
    }
}

/// The branch a message's headers select: upload exactly when a `type`
/// header is present.
pub open spec fn path_of_headers(headers: Map<Seq<char>, Seq<char>>) -> PathKind {
    if headers.contains_key("type"@) {
        PathKind::Upload
    } else {
        PathKind::Forward
    }
}

/// The data source and branch of a message, or `None` when its headers name
/// no data source.
pub fn classify(headers: &StringMap) -> (r: Option<(String, PathKind)>)
    ensures
        match r {
            Some((id, kind)) => source_of_headers(headers@) == Some(id@) && kind == path_of_headers(
                headers@,
            ),
            None => source_of_headers(headers@) is None,
        },
{
    let stream = match headers.get("stream") {
        Some(s) => s,
        None => return None,
    };
    let id = match data_source_id(stream.as_str()) {
        Some(id) => id,
        None => return None,
    };
    let kind = match headers.get("type") {
        Some(_) => PathKind::Upload,
        None => PathKind::Forward,
    };
    Some((id, kind))
}

/// What the upload path works on, read from an upload message.
pub struct UploadPlan {
    pub data_source_id: String,
    pub bucket: String,
    pub filename: String,
    pub file_type: FileType,
    /// Where the retrieved bytes are staged: the file name without the quote
    /// characters around it.
    pub staging_path: String,
}

/// What to do with one message.
pub enum MessagePlan {
    /// Nothing: the message is skipped and the next one is taken.
    Drop,
    /// Acknowledge the message, then hand its text to the structured-payload
    /// collaborator for this data source.
    Forward { data_source_id: String, payload: String },
    /// Retrieve the named object and index it into this data source.
    Upload(UploadPlan),
}

/// The abstract value of a `MessagePlan`.
pub enum PlanModel {
    Drop,
    Forward { data_source_id: Seq<char>, payload: Seq<char> },
    Upload {
        data_source_id: Seq<char>,
        bucket: Seq<char>,
        filename: Seq<char>,
        file_type: FileType,
        staging_path: Seq<char>,
    },
}

impl View for MessagePlan {
    type V = PlanModel;

    open spec fn view(&self) -> PlanModel {
        match self {
            MessagePlan::Drop => PlanModel::Drop,
            MessagePlan::Forward { data_source_id, payload } => PlanModel::Forward {
                data_source_id: data_source_id@,
                payload: payload@,
            },
            MessagePlan::Upload(u) => PlanModel::Upload {
                data_source_id: u.data_source_id@,
                bucket: u.bucket@,
                filename: u.filename@,
                file_type: u.file_type,
                staging_path: u.staging_path@,
            },
        }
    }
}

/// The plan of an upload message of data source `id` whose body reads as
/// `text`: dropped unless the body names both a bucket and a file name.
pub open spec fn upload_plan_of(id: Seq<char>, text: Seq<char>) -> PlanModel {
    match (json_string_member(text, "bucket"@), json_string_member(text, "filename"@)) {
        (Some(bucket), Some(filename)) => {
            let path = trim_char(filename, '"');
            PlanModel::Upload {
                data_source_id: id,
                bucket,
                filename,
                file_type: file_type_of_name(path),
                staging_path: path,
            }
        },
        _ => PlanModel::Drop,
    }
}

/// The plan of a message with these headers and this body.
pub open spec fn plan_of(headers: Map<Seq<char>, Seq<char>>, body: Seq<u8>) -> PlanModel {
    match source_of_headers(headers) {
        None => PlanModel::Drop,
        Some(id) => if !valid_utf8(body) {
            PlanModel::Drop
        } else {
            match path_of_headers(headers) {
                PathKind::Forward => PlanModel::Forward { data_source_id: id, payload: decode_utf8(body) },
                PathKind::Upload => upload_plan_of(id, decode_utf8(body)),
            }
        },
    }
}

/// Reads an upload body: its `bucket` and `filename` string members decide
/// the plan; a body without both is dropped.
pub fn plan_upload(data_source_id: String, body: &str) -> (r: MessagePlan)
    ensures
        r@ == upload_plan_of(data_source_id@, body@),
{
    let bucket = json_string_field(body, "bucket");
    let filename = json_string_field(body, "filename");
    match (bucket, filename) {
        (Some(bucket), Some(filename)) => {
            let staging_path = trim_quotes(filename.as_str());
            let file_type = FileType::from_file_name(staging_path.as_str());
            MessagePlan::Upload(UploadPlan { data_source_id, bucket, filename, file_type, staging_path })
        },
        _ => MessagePlan::Drop,
    }
}

/// Decides what to do with one queue message.
pub fn plan_message(headers: &StringMap, body: &[u8]) -> (r: MessagePlan)
    ensures
        r@ == plan_of(headers@, body@),
{
    let (id, kind) = match classify(headers) {
        Some(c) => c,
        None => return MessagePlan::Drop,
    };
    let text = match decode_utf8_text(body) {
        Some(t) => t,
        None => return MessagePlan::Drop,
    };
    match kind {
        PathKind::Forward => MessagePlan::Forward { data_source_id: id, payload: text },
        PathKind::Upload => plan_upload(id, text.as_str()),
    }
}

/// A `stream` header `X_Y`, where `X` is not empty and holds no `_`, names
/// the data source `X`, whatever the suffix `Y` holds.
pub proof fn lemma_stream_header_source(
    headers: Map<Seq<char>, Seq<char>>,
    id: Seq<char>,
    suffix: Seq<char>,
)
    requires
        headers.contains_key("stream"@),
        headers["stream"@] == id + seq!['_'] + suffix,
        id.len() > 0,
        forall|j: int| 0 <= j < id.len() ==> id[j] != '_',
    ensures
        source_of_headers(headers) == Some(id),
{
    lemma_stream_resolves_to_prefix(id, suffix);
}

/// An upload message whose body is not text, or not a JSON object with string
/// members `bucket` and `filename`, is skipped: nothing else is planned for it.
pub proof fn lemma_malformed_upload_dropped(headers: Map<Seq<char>, Seq<char>>, body: Seq<u8>)
    requires
        path_of_headers(headers) is Upload,
        !valid_utf8(body) || json_string_member(decode_utf8(body), "bucket"@) is None
            || json_string_member(decode_utf8(body), "filename"@) is None,
    ensures
        plan_of(headers, body) is Drop,
{
}

} // verus!
