//! Moving file contents between the front end and the archive: base64
//! payloads and the names that uploads are saved under.

use vstd::prelude::*;
use vstd::string::*;
use base64::engine::general_purpose::STANDARD as BASE64;
use base64::Engine as _;
use crate::files::{is_file_kind, bad_kind_message, validate_kind};

verus! {

/// The bytes that the standard base64 alphabet (with padding) decodes
/// `text` to, or `None` when `text` is not valid base64 of that alphabet.
pub uninterp spec fn base64_decoded(text: Seq<char>) -> Option<Seq<u8>>;

/// The standard base64 text (with padding) of `bytes`.
pub uninterp spec fn base64_encoded(bytes: Seq<u8>) -> Seq<char>;

/// The text (the `Display` of `DecodeError`) with which the standard
/// engine refuses `text`.
pub uninterp spec fn base64_error_text(text: Seq<char>) -> Seq<char>;

/// Calls `base64::Engine::decode` on the standard engine. Trusted: the
/// result is `Ok` exactly when `base64_decoded` has a value, and then it is
/// that value; otherwise the error's `Display` is `base64_error_text`. The
/// standard engine requires canonical padding and no trailing bits, so an
/// accepted text is the encoding of the bytes it decodes to.
#[verifier::external_body]
fn base64_decode(text: &str) -> (r: Result<Vec<u8>, String>)
    ensures
        r is Ok <==> base64_decoded(text@) is Some,
        r matches Ok(b) ==> base64_decoded(text@) == Some(b@),
        r matches Ok(b) ==> base64_encoded(b@) == text@,
        r matches Err(e) ==> e@ == base64_error_text(text@),
{
    match BASE64.decode(text) {
        Ok(b) => Ok(b),
        Err(e) => Err(e.to_string()),
    }
}

/// Calls `base64::Engine::encode` on the standard engine. Trusted: the
/// result is `base64_encoded(bytes)`, and decoding it gives `bytes` back
/// (the crate's documentation shows this round trip). The length bound
/// keeps the crate's buffer-size computation from overflowing, which it
/// answers with a panic.
#[verifier::external_body]
fn base64_encode(bytes: &[u8]) -> (r: String)
    requires
        bytes@.len() <= usize::MAX / 2,
    ensures
        r@ == base64_encoded(bytes@),
        base64_decoded(r@) == Some(bytes@),
{
    BASE64.encode(bytes)
}

/// What an uploaded payload is for; it decides the wording of a decoding
/// failure.
#[derive(Clone, Copy, PartialEq, Eq, Debug)]
pub enum UploadPurpose {
    /// A template file to be saved into the downloads folder.
    Template,
    /// An input workbook to be read.
    InputFile,
    /// A file to be archived.
    DataFile,
}

/// How a decoding failure's message starts, by purpose.
pub open spec fn decode_failure_prefix(p: UploadPurpose) -> Seq<char> {
    match p {
        UploadPurpose::Template => "模板数据解码失败: "@,
        UploadPurpose::InputFile => "输入文件数据解码失败: "@,
        UploadPurpose::DataFile => "文件数据解码失败: "@,
    }
}

/// Turns the outcome of decoding a payload into the upload's bytes, or
/// into the message that reports the failure.
pub fn upload_bytes(decoded: Result<Vec<u8>, String>, purpose: UploadPurpose) -> (r: Result<Vec<u8>, String>)
    ensures
        match decoded {
            Ok(b) => r == Ok::<Vec<u8>, String>(b),
            Err(e) => r matches Err(m) && m@ == decode_failure_prefix(purpose) + e@,
        },
{
    match decoded {
        Ok(b) => Ok(b),
        Err(e) => {
            let mut m = match purpose {
                UploadPurpose::Template => String::from_str("模板数据解码失败: "),
                UploadPurpose::InputFile => String::from_str("输入文件数据解码失败: "),
                UploadPurpose::DataFile => String::from_str("文件数据解码失败: "),
            };
            m.append(e.as_str());
            Err(m)
        },
    }
}

/// Decodes a base64 payload sent by the front end. The payload is the
/// encoding of the bytes it gives, so encoding them again gives it back.
pub fn decode_upload(data: &str, purpose: UploadPurpose) -> (r: Result<Vec<u8>, String>)
    ensures
        r is Ok <==> base64_decoded(data@) is Some,
        r matches Ok(b) ==> base64_decoded(data@) == Some(b@),
        r matches Ok(b) ==> base64_encoded(b@) == data@,
        r matches Err(m) ==> m@ == decode_failure_prefix(purpose) + base64_error_text(data@),
{
    let decoded = base64_decode(data);
    upload_bytes(decoded, purpose)
}

/// The base64 text in which a stored file's contents go back to the front
/// end.
pub fn encode_file_content(bytes: &[u8]) -> (r: String)
    requires
        bytes@.len() <= usize::MAX / 2,
    ensures
        r@ == base64_encoded(bytes@),
        base64_decoded(r@) == Some(bytes@),
{
    base64_encode(bytes)
}

/// A name that is one plain path component on every platform: not empty,
/// not `.` or `..`, with no `/`, `\` or `:`.
pub open spec fn is_plain_name(s: Seq<char>) -> bool {
    &&& s.len() > 0
    &&& s != "."@
    &&& s != ".."@
    &&& !s.contains('/')
    &&& !s.contains('\\')
    &&& !s.contains(':')
}

/// Whether `f` can be the final normal component of a path on every
/// platform: not empty, not `.` or `..`, and without `/`.
pub open spec fn is_last_component(f: Seq<char>) -> bool {
    &&& f.len() > 0
    &&& !f.contains('/')
    &&& f != "."@
    &&& f != ".."@
}

/// The characters after the last `/` of `s` (all of `s` when it has none).
pub open spec fn trailing_piece(s: Seq<char>) -> Seq<char>
    decreases s.len(),
{
    if s.len() == 0 || s.last() == '/' {
        Seq::empty()
    } else {
        trailing_piece(s.drop_last()).push(s.last())
    }
}

/// The file name of a `/`-separated path: its last piece that is neither
/// empty nor `.`, or none when that piece is `..` or there is no such
/// piece (repeated separators, `.` pieces and a trailing `/` are passed
/// over, as `Path::components` normalises them).
pub open spec fn file_name_spec(s: Seq<char>) -> Option<Seq<char>>
    decreases s.len(),
{
    let p = trailing_piece(s);
    if p.len() >= s.len() {
        if p.len() == 0 || p == "."@ || p == ".."@ { None } else { Some(p) }
    } else if p.len() == 0 || p == "."@ {
        file_name_spec(s.take(s.len() - p.len() - 1))
    } else if p == ".."@ {
        None
    } else {
        Some(p)
    }
}

/// A path whose meaning is the same on every platform: `/` is its only
/// separator and it has no prefix (no `\`, no `:`, no leading `//`).
pub open spec fn is_portable_path(s: Seq<char>) -> bool {
    &&& !s.contains('\\')
    &&& !s.contains(':')
    &&& !(s.len() >= 2 && s[0] == '/' && s[1] == '/')
}

proof fn lemma_trailing_piece(s: Seq<char>)
    ensures
        trailing_piece(s).len() <= s.len(),
        !trailing_piece(s).contains('/'),
        trailing_piece(s) == s.skip(s.len() - trailing_piece(s).len()),
        trailing_piece(s).len() < s.len() ==> s[s.len() - trailing_piece(s).len() - 1] == '/',
    decreases s.len(),
{
    if s.len() > 0 && s.last() != '/' {
        lemma_trailing_piece(s.drop_last());
        let q = trailing_piece(s.drop_last());
        assert(trailing_piece(s) =~= s.skip(s.len() - trailing_piece(s).len()));
        if trailing_piece(s).contains('/') {
            let i = choose|i: int| 0 <= i < trailing_piece(s).len() && trailing_piece(s)[i] == '/';
            if i < q.len() {
                assert(q[i] == '/');
            }
        }
    } else if s.len() > 0 {
        assert(s.skip(s.len() as int) =~= Seq::<char>::empty());
    } else {
        assert(s.skip(0) =~= s);
    }
}

/// Whatever the file name of a path is, it is a final component: not
/// empty, not `.` or `..`, without `/`.
pub proof fn lemma_file_name_is_last_component(s: Seq<char>)
    ensures
        file_name_spec(s) matches Some(f) ==> is_last_component(f),
    decreases s.len(),
{
    lemma_trailing_piece(s);
    let p = trailing_piece(s);
    if p.len() < s.len() && (p.len() == 0 || p == "."@) {
        lemma_file_name_is_last_component(s.take(s.len() - p.len() - 1));
    }
}

/// Calls `std::path::Path::file_name` on `name` and converts the result to
/// a `String`. Trusted: what it gives is a final normal component (never
/// empty, never `.` or `..`, never holding `/`, which separates components
/// on every platform); a plain name is its own last component, and a path
/// that ends in `..` has none. For a portable path it is `file_name_spec`,
/// the last component as `Path::components` normalises them. For paths with
/// `\`, `:` or a leading `//` the component depends on the platform's
/// separators and prefixes and is not stated beyond the above.
#[verifier::external_body]
fn path_file_name(name: &str) -> (r: Option<String>)
    ensures
        is_plain_name(name@) ==> r is Some,
        is_plain_name(name@) ==> r.unwrap()@ == name@,
        name@ == ".."@ ==> r is None,
        r matches Some(f) ==> is_last_component(f@),
        is_portable_path(name@) ==> match r {
            Some(f) => file_name_spec(name@) == Some(f@),
            None => file_name_spec(name@) is None,
        },
{
    match std::path::Path::new(name).file_name() {
        Some(f) => Some(f.to_string_lossy().into_owned()),
        None => None,
    }
}

/// Message for an upload name without a usable last component.
pub open spec fn bad_name_message() -> Seq<char> {
    "非法的文件名"@
}

/// The last component of an uploaded file's name, so that a name cannot
/// lead outside the target folder.
pub fn upload_file_name(name: &str) -> (r: Result<String, String>)
    ensures
        r matches Err(m) ==> m@ == bad_name_message(),
        r matches Ok(f) ==> is_last_component(f@),
        is_plain_name(name@) ==> (r matches Ok(f) && f@ == name@),
        name@ == ".."@ ==> r is Err,
        is_portable_path(name@) ==> match r {
            Ok(f) => file_name_spec(name@) == Some(f@),
            Err(_) => file_name_spec(name@) is None,
        },
{
    match path_file_name(name) {
        Some(f) => Ok(f),
        None => Err(String::from_str("非法的文件名")),
    }
}

/// Checks a template upload and gives the name and bytes to save: the
/// payload is decoded first, then the name is reduced to its last
/// component.
pub fn template_upload(name: &str, data: &str) -> (r: Result<(String, Vec<u8>), String>)
    ensures
        base64_decoded(data@) is None ==> (r matches Err(m)
            && m@ == decode_failure_prefix(UploadPurpose::Template) + base64_error_text(data@)),
        base64_decoded(data@) is Some && name@ == ".."@ ==> (r matches Err(m) && m@ == bad_name_message()),
        base64_decoded(data@) is Some && is_plain_name(name@) ==> (r matches Ok((f, b))
            && f@ == name@ && Some(b@) == base64_decoded(data@)),
        r matches Ok((f, b)) ==> Some(b@) == base64_decoded(data@) && base64_encoded(b@) == data@
            && is_last_component(f@),
        base64_decoded(data@) is Some && is_portable_path(name@) ==> match r {
            Ok((f, b)) => file_name_spec(name@) == Some(f@),
            Err(m) => file_name_spec(name@) is None && m@ == bad_name_message(),
        },
        r matches Err(m) ==> m@ == bad_name_message()
            || m@ == decode_failure_prefix(UploadPurpose::Template) + base64_error_text(data@),
{
    let bytes = decode_upload(data, UploadPurpose::Template)?;
    let f = upload_file_name(name)?;
    Ok((f, bytes))
}

/// Checks a file to be archived and gives its name and bytes: the kind is
/// checked first, then the payload is decoded, then the name is reduced
/// to its last component.
pub fn data_file_upload(name: &str, data: &str, kind: &str) -> (r: Result<(String, Vec<u8>), String>)
    ensures
        !is_file_kind(kind@) ==> (r matches Err(m) && m@ == bad_kind_message(kind@)),
        is_file_kind(kind@) && base64_decoded(data@) is None ==> (r matches Err(m)
            && m@ == decode_failure_prefix(UploadPurpose::DataFile) + base64_error_text(data@)),
        is_file_kind(kind@) && base64_decoded(data@) is Some && name@ == ".."@ ==> (r matches Err(m)
            && m@ == bad_name_message()),
        is_file_kind(kind@) && base64_decoded(data@) is Some && is_plain_name(name@) ==> (r matches Ok((f, b))
            && f@ == name@ && Some(b@) == base64_decoded(data@)),
        r matches Ok((f, b)) ==> is_file_kind(kind@) && Some(b@) == base64_decoded(data@)
            && base64_encoded(b@) == data@ && is_last_component(f@),
        is_file_kind(kind@) && base64_decoded(data@) is Some && is_portable_path(name@) ==> match r {
            Ok((f, b)) => file_name_spec(name@) == Some(f@),
            Err(m) => file_name_spec(name@) is None && m@ == bad_name_message(),
        },
{
    validate_kind(kind)?;
    let bytes = decode_upload(data, UploadPurpose::DataFile)?;
    let f = upload_file_name(name)?;
    Ok((f, bytes))
}

} // verus!
