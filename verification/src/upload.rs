//! The upload path: what is fixed for a file before its bytes are read, and
//! the response once it is stored.

use crate::filename::{bounded_name, is_safe_name, sanitize_filename, sanitized_name};
use crate::identifier::{format_uuid, is_random_identifier, random_uuid, uuid_parse, uuid_text};
use crate::shortcode::{
    entropy_bytes, generate_short_code, is_short_code, short_code_of, xxh3_of,
};
use vstd::prelude::*;
use vstd::string::*;

verus! {

/// What a successful upload answers.
#[derive(Debug)]
pub struct UploadResponse {
    pub id: String,
    pub short_url: String,
    pub full_url: String,
}

/// The address under which a file is served by `key`, an identifier or an
/// alias.
pub open spec fn drop_url(bind_address: Seq<char>, key: Seq<char>) -> Seq<char> {
    "http://"@ + bind_address + "/drop/"@ + key
}

/// Writes the address under which a file is served by `key`.
pub fn make_drop_url(bind_address: &str, key: &str) -> (url: String)
    ensures
        url@ == drop_url(bind_address@, key@),
{
    let mut url = String::from_str("http://");
    url.append(bind_address);
    url.append("/drop/");
    url.append(key);
    url
}

/// The response for a stored file: its identifier as text, and the address
/// of the file by alias and by identifier. The identifier in the response
/// reads back as `id`.
pub fn upload_response(bind_address: &str, id: u128, short_code: &str) -> (response: UploadResponse)
    ensures
        response.id@ == uuid_text(id),
        uuid_parse(response.id@) == Some(id),
        response.short_url@ == drop_url(bind_address@, short_code@),
        response.full_url@ == drop_url(bind_address@, uuid_text(id)),
{
    let text = format_uuid(id);
    let short_url = make_drop_url(bind_address, short_code);
    let full_url = make_drop_url(bind_address, text.as_str());
    UploadResponse { id: text, short_url, full_url }
}

/// The name sent for a part that declares none.
pub open spec fn declared_name(file_name: Option<&str>) -> Seq<char> {
    match file_name {
        Some(name) => name@,
        None => "unknown"@,
    }
}

/// The content type of a part that declares none is that of arbitrary
/// binary data.
pub open spec fn declared_content_type(content_type: Option<&str>) -> Seq<char> {
    match content_type {
        Some(content_type) => content_type@,
        None => "application/octet-stream"@,
    }
}

/// The name of the temporary file of an upload, inside the temporary
/// directory.
pub open spec fn temp_name_of(id: u128) -> Seq<char> {
    "file_"@ + uuid_text(id)
}

/// Writes the name of the temporary file of an upload.
pub fn temp_file_name(id: u128) -> (name: String)
    ensures
        name@ == temp_name_of(id),
{
    let mut name = String::from_str("file_");
    let text = format_uuid(id);
    name.append(text.as_str());
    name
}

/// What is fixed for an uploaded file before its bytes are read.
#[derive(Debug)]
pub struct UploadPlan {
    /// The fresh identifier of the file.
    pub id: u128,
    /// The alias of the file.
    pub short_code: String,
    /// The stored filename.
    pub filename: String,
    pub content_type: String,
    /// The name of the temporary file, inside the temporary directory.
    pub temp_name: String,
}

/// Plans the upload of one part from what the part declares. The filename is
/// sanitized and bounded, the content type defaults to binary data, and the
/// file gets a fresh random identifier and an alias generated from a second
/// random draw and the given timestamp, process id and thread id.
pub fn plan_upload(
    file_name: Option<&str>,
    content_type: Option<&str>,
    timestamp: u128,
    process_id: u32,
    thread_id: u64,
) -> (plan: UploadPlan)
    ensures
        is_random_identifier(plan.id),
        is_short_code(plan.short_code@),
        exists|random: u128|
            is_random_identifier(random) && plan.short_code@ == short_code_of(
                xxh3_of(#[trigger] entropy_bytes(random, timestamp, process_id, thread_id)),
            ),
        plan.filename@ == bounded_name(sanitized_name(declared_name(file_name))),
        is_safe_name(plan.filename@),
        plan.content_type@ == declared_content_type(content_type),
        plan.temp_name@ == temp_name_of(plan.id),
{
    let filename = match file_name {
        Some(name) => sanitize_filename(name),
        None => sanitize_filename("unknown"),
    };
    let content_type = match content_type {
        Some(content_type) => String::from_str(content_type),
        None => String::from_str("application/octet-stream"),
    };
    let id = random_uuid();
    let short_code = generate_short_code(timestamp, process_id, thread_id);
    let temp_name = temp_file_name(id);
    UploadPlan { id, short_code, filename, content_type, temp_name }
}

} // verus!
