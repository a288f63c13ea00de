//! File uploads: the multipart body sent to the upload server, and reading
//! the upload server's and `docs.save`'s JSON replies.

use vstd::prelude::*;
use vstd::utf8::encode_utf8;
use crate::text::{chars_of, chars_eq, string_of, push_str, push_i64, decimal};
use crate::api::generate_random_id;
use crate::update_input::{file_name_of, file_title};

verus! {

broadcast use vstd::string::group_string_axioms;

/// A JSON value as the upload code reads it. Numbers keep whether they fit
/// an `i64` (as `serde_json::Value::as_i64` reports it).
#[derive(Debug)]
pub enum Json {
    Null,
    Bool(bool),
    Number(Option<i64>),
    Str(String),
    Array(Vec<Json>),
    Object(Vec<(String, Json)>),
}

/// The position of the first entry at or after `i` with key `key`.
pub open spec fn entry_pos(entries: Seq<(String, Json)>, key: Seq<char>, i: int) -> Option<int>
    decreases entries.len() - i,
{
    if i < 0 || i >= entries.len() {
        None
    } else if entries[i].0@ == key {
        Some(i)
    } else {
        entry_pos(entries, key, i + 1)
    }
}

proof fn lemma_entry_pos(entries: Seq<(String, Json)>, key: Seq<char>, i: int)
    ensures
        entry_pos(entries, key, i) matches Some(p) ==> i <= p < entries.len() && entries[p].0@ == key,
    decreases entries.len() - i,
{
    if 0 <= i < entries.len() && entries[i].0@ != key {
        lemma_entry_pos(entries, key, i + 1);
    }
}

/// The value under `key` in an object (the first entry with that key); none
/// for other values.
pub open spec fn json_get(v: Json, key: Seq<char>) -> Option<Json> {
    match v {
        Json::Object(entries) => match entry_pos(entries@, key, 0) {
            Some(p) => if 0 <= p < entries@.len() { Some(entries@[p].1) } else { None },
            None => None,
        },
        _ => None,
    }
}

/// Finds the first entry with key `key`.
fn find_entry(entries: &Vec<(String, Json)>, key: &str) -> (r: Option<usize>)
    ensures
        r matches Some(i) ==> entry_pos(entries@, key@, 0) == Some(i as int) && i < entries@.len(),
        r is None ==> entry_pos(entries@, key@, 0) is None,
{
    proof {
        lemma_entry_pos(entries@, key@, 0);
    }
    let k = chars_of(key);
    let n = entries.len();
    let mut i: usize = 0;
    while i < n
        invariant
            n == entries@.len(),
            i <= n,
            k@ == key@,
            entry_pos(entries@, key@, 0) == entry_pos(entries@, key@, i as int),
        decreases n - i,
    {
        if chars_eq(chars_of(entries[i].0.as_str()).as_slice(), k.as_slice()) {
            return Some(i);
        }
        i = i + 1;
    }
    None
}

/// Looks up `key` in an object.
pub fn get<'a>(v: &'a Json, key: &str) -> (r: Option<&'a Json>)
    ensures
        match json_get(*v, key@) {
            Some(x) => r matches Some(y) && *y == x,
            None => r is None,
        },
{
    match v {
        Json::Object(entries) => match find_entry(entries, key) {
            Some(i) => Some(&entries[i].1),
            None => None,
        },
        _ => None,
    }
}

/// The integer under `key` of an object, when it fits an `i64`.
pub open spec fn int_field(v: Json, key: Seq<char>) -> Option<i64> {
    match json_get(v, key) {
        Some(Json::Number(Some(n))) => Some(n),
        _ => None,
    }
}

/// The text under `key` of an object, when it is a string.
pub open spec fn str_field(v: Json, key: Seq<char>) -> Option<Seq<char>> {
    match json_get(v, key) {
        Some(Json::Str(s)) => Some(s@),
        _ => None,
    }
}

fn int_field_of(v: &Json, key: &str) -> (r: Option<i64>)
    ensures
        r == int_field(*v, key@),
{
    match get(v, key) {
        Some(Json::Number(Some(n))) => Some(*n),
        _ => None,
    }
}

pub(crate) fn str_field_of(v: &Json, key: &str) -> (r: Option<String>)
    ensures
        match str_field(*v, key@) {
            Some(s) => r matches Some(t) && t@ == s,
            None => r is None,
        },
{
    match get(v, key) {
        Some(Json::Str(s)) => Some(s.clone()),
        _ => None,
    }
}

/// The document object of a `docs.save` item: its `doc` member, else the
/// item itself when it is an object.
pub open spec fn doc_object(v: Json) -> Option<Json> {
    match json_get(v, "doc"@) {
        Some(d) => Some(d),
        None => if v is Object { Some(v) } else { None },
    }
}

/// The `doc{owner_id}_{id}` of a document object with both ids.
pub open spec fn doc_ref_in(d: Option<Json>) -> Option<Seq<char>> {
    match d {
        Some(o) => match (int_field(o, "owner_id"@), int_field(o, "id"@)) {
            (Some(owner), Some(id)) => Some("doc"@ + decimal(owner as int) + "_"@ + decimal(id as int)),
            _ => None,
        },
        None => None,
    }
}

/// The attachment reference in a `docs.save` reply, which may be wrapped in
/// `response` (any number of times) and may be an array (its first item
/// counts) or an object.
pub open spec fn doc_ref(v: Json) -> Option<Seq<char>>
    decreases v,
{
    match v {
        Json::Object(entries) => match entry_pos(entries@, "response"@, 0) {
            Some(p) => if 0 <= p < entries@.len() { doc_ref(entries@[p].1) } else { None },
            None => doc_ref_inner(v),
        },
        _ => doc_ref_inner(v),
    }
}

/// `doc_ref` once any `response` wrapper is gone.
pub open spec fn doc_ref_inner(v: Json) -> Option<Seq<char>> {
    let from_array = match v {
        Json::Array(items) => if items@.len() > 0 { doc_ref_in(doc_object(items@[0])) } else { None },
        _ => None,
    };
    match from_array {
        Some(r) => Some(r),
        None => doc_ref_in(doc_object(v)),
    }
}

fn doc_ref_of_object(d: Option<&Json>) -> (r: Option<String>)
    ensures
        match doc_ref_in(match d { Some(x) => Some(*x), None => None }) {
            Some(s) => r matches Some(t) && t@ == s,
            None => r is None,
        },
{
    match d {
        Some(o) => match (int_field_of(o, "owner_id"), int_field_of(o, "id")) {
            (Some(owner), Some(id)) => {
                let mut out = string_of("doc");
                push_i64(&mut out, owner);
                push_str(&mut out, "_");
                push_i64(&mut out, id);
                Some(out)
            },
            _ => None,
        },
        None => None,
    }
}

fn doc_object_of(v: &Json) -> (r: Option<&Json>)
    ensures
        match doc_object(*v) {
            Some(x) => r matches Some(y) && *y == x,
            None => r is None,
        },
{
    match get(v, "doc") {
        Some(d) => Some(d),
        None => match v {
            Json::Object(_) => Some(v),
            _ => None,
        },
    }
}

fn doc_ref_inner_of(v: &Json) -> (r: Option<String>)
    ensures
        match doc_ref_inner(*v) {
            Some(s) => r matches Some(t) && t@ == s,
            None => r is None,
        },
{
    let from_array = match v {
        Json::Array(items) => if items.len() > 0 {
            doc_ref_of_object(doc_object_of(&items[0]))
        } else {
            None
        },
        _ => None,
    };
    match from_array {
        Some(r) => Some(r),
        None => doc_ref_of_object(doc_object_of(v)),
    }
}

/// The attachment reference in a `docs.save` reply, if there is one.
fn doc_ref_of(value: &Json) -> (r: Option<String>)
    ensures
        match doc_ref(*value) {
            Some(s) => r matches Some(t) && t@ == s,
            None => r is None,
        },
    decreases value,
{
    match value {
        Json::Object(entries) => match find_entry(entries, "response") {
            Some(i) => doc_ref_of(&entries[i].1),
            None => doc_ref_inner_of(value),
        },
        _ => doc_ref_inner_of(value),
    }
}

/// The attachment reference `doc{owner_id}_{id}` in a `docs.save` reply;
/// `shown` is the reply's text for the error message.
pub fn extract_doc_attachment(value: &Json, shown: &str) -> (r: Result<String, String>)
    ensures
        match doc_ref(*value) {
            Some(s) => r matches Ok(t) && t@ == s,
            None => r matches Err(e) && e@ == "Could not find doc id in docs.save response: "@ + shown@,
        },
{
    match doc_ref_of(value) {
        Some(r) => Ok(r),
        None => {
            let mut e = string_of("Could not find doc id in docs.save response: ");
            push_str(&mut e, shown);
            Err(e)
        },
    }
}

/// The file id in the upload server's reply to a document upload, or the
/// error: the server's `error` (with ` (error_descr)` when that is not
/// empty), else a missing `file`; `body` is the reply's text.
pub open spec fn doc_upload_result(v: Json, body: Seq<char>) -> Result<Seq<char>, Seq<char>> {
    match str_field(v, "error"@) {
        Some(err) => {
            let descr = match str_field(v, "error_descr"@) { Some(d) => d, None => seq![] };
            Err("Upload error from VK: "@ + err + if descr.len() == 0 { seq![] } else { " ("@ + descr + ")"@ })
        },
        None => match str_field(v, "file"@) {
            Some(f) => Ok(f),
            None => Err("Upload response missing file id; body: "@ + body),
        },
    }
}

/// Reads the upload server's reply to a document upload.
pub fn doc_upload_file(value: &Json, body: &str) -> (r: Result<String, String>)
    ensures
        match doc_upload_result(*value, body@) {
            Ok(f) => r matches Ok(t) && t@ == f,
            Err(e) => r matches Err(t) && t@ == e,
        },
{
    match str_field_of(value, "error") {
        Some(err) => {
            let mut e = string_of("Upload error from VK: ");
            push_str(&mut e, err.as_str());
            match str_field_of(value, "error_descr") {
                Some(d) => {
                    if chars_of(d.as_str()).len() > 0 {
                        push_str(&mut e, " (");
                        push_str(&mut e, d.as_str());
                        push_str(&mut e, ")");
                    }
                },
                None => {},
            }
            Err(e)
        },
        None => match str_field_of(value, "file") {
            Some(f) => Ok(f),
            None => {
                let mut e = string_of("Upload response missing file id; body: ");
                push_str(&mut e, body);
                Err(e)
            },
        },
    }
}

/// The MIME type `mime_guess` gives a path (its first guess for the file
/// extension, else `application/octet-stream`).
pub uninterp spec fn mime_essence(path: Seq<char>) -> Seq<char>;

/// `mime_guess::from_path(path).first_or_octet_stream().essence_str()`.
#[verifier::external_body]
fn guess_mime(path: &str) -> (r: String)
    ensures
        r@ == mime_essence(path@),
{
    mime_guess::from_path(path).first_or_octet_stream().essence_str().to_string()
}

/// Appends the UTF-8 bytes of `s`.
fn push_utf8(out: &mut Vec<u8>, s: &str)
    ensures
        final(out)@ == old(out)@ + encode_utf8(s@),
{
    let b = s.as_bytes();
    let n = b.len();
    let mut i: usize = 0;
    while i < n
        invariant
            n == b@.len(),
            b@ == encode_utf8(s@),
            i <= n,
            out@ == old(out)@ + b@.take(i as int),
        decreases n - i,
    {
        out.push(b[i]);
        i = i + 1;
        assert(out@ == old(out)@ + b@.take(i as int));
    }
    assert(b@.take(n as int) == b@);
}

/// The text before a file's bytes in a one-part multipart body.
pub open spec fn part_head(boundary: Seq<char>, field: Seq<char>, filename: Seq<char>, content_type: Seq<char>) -> Seq<char> {
    "--"@ + boundary + "\r\n"@
        + "Content-Disposition: form-data; name=\""@ + field + "\"; filename=\""@ + filename + "\"\r\n"@
        + "Content-Type: "@ + content_type + "\r\n\r\n"@
}

/// A multipart/form-data body with one file part.
pub open spec fn multipart(boundary: Seq<char>, field: Seq<char>, filename: Seq<char>, content_type: Seq<char>, data: Seq<u8>) -> Seq<u8> {
    encode_utf8(part_head(boundary, field, filename, content_type)) + data + encode_utf8("\r\n--"@ + boundary + "--\r\n"@)
}

/// Builds a one-part multipart body.
pub fn multipart_body(boundary: &str, field: &str, filename: &str, content_type: &str, data: &[u8]) -> (r: Vec<u8>)
    ensures
        r@ == multipart(boundary@, field@, filename@, content_type@, data@),
{
    let mut head = string_of("--");
    push_str(&mut head, boundary);
    push_str(&mut head, "\r\n");
    push_str(&mut head, "Content-Disposition: form-data; name=\"");
    push_str(&mut head, field);
    push_str(&mut head, "\"; filename=\"");
    push_str(&mut head, filename);
    push_str(&mut head, "\"\r\n");
    push_str(&mut head, "Content-Type: ");
    push_str(&mut head, content_type);
    push_str(&mut head, "\r\n\r\n");
    let mut tail = string_of("\r\n--");
    push_str(&mut tail, boundary);
    push_str(&mut tail, "--\r\n");
    let mut out: Vec<u8> = Vec::new();
    push_utf8(&mut out, head.as_str());
    let ghost before = out@;
    let n = data.len();
    let mut i: usize = 0;
    while i < n
        invariant
            n == data@.len(),
            i <= n,
            out@ == before + data@.take(i as int),
        decreases n - i,
    {
        out.push(data[i]);
        i = i + 1;
        assert(out@ == before + data@.take(i as int));
    }
    assert(data@.take(n as int) == data@);
    push_utf8(&mut out, tail.as_str());
    assert(out@ =~= multipart(boundary@, field@, filename@, content_type@, data@));
    out
}

/// The upload body for the file at `path` holding `data`, under form field
/// `field`: a fresh boundary `vk_api_boundary_N` (N a random id), the
/// path's file name (or "file.bin") and its guessed MIME type.
pub fn build_multipart_body(path: &str, field: &str, data: &[u8]) -> (r: (String, Vec<u8>))
    ensures
        exists|id: int| 1 <= id <= u32::MAX && r.0@ == "vk_api_boundary_"@ + decimal(id),
        r.1@ == multipart(r.0@, field@, file_title(path@, "file.bin"@), mime_essence(path@), data@),
{
    let mut boundary = string_of("vk_api_boundary_");
    let id = generate_random_id();
    push_i64(&mut boundary, id);
    let filename = match crate::update_input::path_file_name(path) {
        Some(n) => n,
        None => string_of("file.bin"),
    };
    let content_type = guess_mime(path);
    let body = multipart_body(boundary.as_str(), field, filename.as_str(), content_type.as_str(), data);
    assert(boundary@ == "vk_api_boundary_"@ + decimal(id as int));
    (boundary, body)
}

/// The parameters of `docs.save` for an uploaded file: its id, and the
/// path's file name as the title when the path has one.
pub fn doc_save_params(file: String, path: &str) -> (r: Vec<(String, String)>)
    ensures
        r@.len() >= 1,
        r@[0].0@ == "file"@ && r@[0].1 == file,
        match file_name_of(path@) {
            Some(t) => r@.len() == 2 && r@[1].0@ == "title"@ && r@[1].1@ == t,
            None => r@.len() == 1,
        },
{
    let mut out: Vec<(String, String)> = Vec::new();
    out.push((string_of("file"), file));
    match crate::update_input::path_file_name(path) {
        Some(t) => out.push((string_of("title"), t)),
        None => {},
    }
    out
}

} // verus!
