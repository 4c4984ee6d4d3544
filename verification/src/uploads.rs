use vstd::prelude::*;
use crate::error::AppError;
use crate::text::{all_ascii, ascii_lower, chars_of, ends_with, has_suffix, lowercase, str_eq, string_from_chars, to_lowercase};
use crate::ids::{is_v4, random_uuid, uuid_string, uuid_text};

verus! {

/// Objects are stored under this prefix.
pub const UPLOAD_PREFIX: &'static str = "attachments";

/// Largest accepted upload, in bytes (10 MiB).
pub const MAX_IMAGE_SIZE: usize = 10485760;

/// Body of the response to a successful upload.
pub struct UploadResponse {
    pub url: String,
}

/// The extension stored for an allowed image content type.
pub open spec fn extension_for_content_type(ct: Seq<char>) -> Option<Seq<char>> {
    if ct == "image/jpeg"@ {
        Some("jpg"@)
    } else if ct == "image/png"@ {
        Some("png"@)
    } else if ct == "image/gif"@ {
        Some("gif"@)
    } else if ct == "image/webp"@ {
        Some("webp"@)
    } else {
        None
    }
}

/// The extension stored for a (lower-cased) file name, by its suffix.
pub open spec fn extension_for_lower_name(lower: Seq<char>) -> Option<Seq<char>> {
    if ends_with(lower, ".jpg"@) || ends_with(lower, ".jpeg"@) {
        Some("jpg"@)
    } else if ends_with(lower, ".png"@) {
        Some("png"@)
    } else if ends_with(lower, ".gif"@) {
        Some("gif"@)
    } else if ends_with(lower, ".webp"@) {
        Some("webp"@)
    } else {
        None
    }
}

/// The extension of an upload: an allowed content type decides; otherwise the
/// file name, compared case-insensitively, decides; otherwise there is none.
pub open spec fn upload_extension(ct: Option<Seq<char>>, filename: Option<Seq<char>>) -> Option<Seq<char>> {
    match ct {
        Some(c) if extension_for_content_type(c) is Some => extension_for_content_type(c),
        _ => match filename {
            Some(n) => extension_for_lower_name(lowercase(n)),
            None => None,
        },
    }
}

/// The content type served for a stored file, by its case-insensitive suffix.
pub open spec fn content_type_for_lower_name(lower: Seq<char>) -> Seq<char> {
    if ends_with(lower, ".png"@) {
        "image/png"@
    } else if ends_with(lower, ".jpg"@) || ends_with(lower, ".jpeg"@) {
        "image/jpeg"@
    } else if ends_with(lower, ".gif"@) {
        "image/gif"@
    } else if ends_with(lower, ".webp"@) {
        "image/webp"@
    } else {
        "application/octet-stream"@
    }
}

fn extension_from_content_type(ct: &str) -> (r: Option<&'static str>)
    ensures
        match r {
            Some(e) => extension_for_content_type(ct@) == Some(e@),
            None => extension_for_content_type(ct@) is None,
        },
{
    if str_eq(ct, "image/jpeg") {
        Some("jpg")
    } else if str_eq(ct, "image/png") {
        Some("png")
    } else if str_eq(ct, "image/gif") {
        Some("gif")
    } else if str_eq(ct, "image/webp") {
        Some("webp")
    } else {
        None
    }
}

/// Picks the stored extension of an upload from its content type, else from its file name.
pub fn extension_from_content_type_or_filename(
    content_type: Option<&str>,
    filename: Option<&str>,
) -> (r: Option<&'static str>)
    ensures
        match r {
            Some(e) => upload_extension(
                match content_type { Some(c) => Some(c@), None => None },
                match filename { Some(n) => Some(n@), None => None },
            ) == Some(e@),
            None => upload_extension(
                match content_type { Some(c) => Some(c@), None => None },
                match filename { Some(n) => Some(n@), None => None },
            ) is None,
        },
{
    if let Some(ct) = content_type {
        if let Some(e) = extension_from_content_type(ct) {
            return Some(e);
        }
    }
    if let Some(name) = filename {
        let lower = to_lowercase(name);
        let l = lower.as_str();
        if has_suffix(l, ".jpg") || has_suffix(l, ".jpeg") {
            return Some("jpg");
        }
        if has_suffix(l, ".png") {
            return Some("png");
        }
        if has_suffix(l, ".gif") {
            return Some("gif");
        }
        if has_suffix(l, ".webp") {
            return Some("webp");
        }
    }
    None
}

/// The content type of a name that ends in one of the stored extensions
/// (`.png`, `.jpg`, `.gif`, `.webp`, as written when storing), if it does.
pub open spec fn stored_name_type(name: Seq<char>) -> Option<Seq<char>> {
    if ends_with(name, ".png"@) {
        Some("image/png"@)
    } else if ends_with(name, ".jpg"@) {
        Some("image/jpeg"@)
    } else if ends_with(name, ".gif"@) {
        Some("image/gif"@)
    } else if ends_with(name, ".webp"@) {
        Some("image/webp"@)
    } else {
        None
    }
}

/// An upload stored under a name that ends with a dot and the extension chosen
/// for its allowed content type is known, by that name, to have that content type.
pub proof fn lemma_stored_name_keeps_type(ct: Seq<char>, filename: Option<Seq<char>>, stem: Seq<char>)
    requires
        extension_for_content_type(ct) is Some,
    ensures
        upload_extension(Some(ct), filename) matches Some(e) && stored_name_type(stem + seq!['.'] + e) == Some(ct),
{
    lemma_extension_literals();
    let e = extension_for_content_type(ct).unwrap();
    let name = stem + seq!['.'] + e;
    let n = name.len() as int;
    assert(name.subrange(n - e.len() - 1, n) =~= seq!['.'] + e);
    let last4 = name.subrange(n - 4, n);
    if ct == "image/png"@ {
        assert(last4 =~= ".png"@);
    } else if ct == "image/jpeg"@ {
        assert(last4 =~= ".jpg"@);
        assert(last4[1] != ".png"@[1]);
    } else if ct == "image/gif"@ {
        assert(last4 =~= ".gif"@);
        assert(last4[1] != ".png"@[1]);
        assert(last4[1] != ".jpg"@[1]);
    } else {
        assert(name.subrange(n - 5, n) =~= ".webp"@);
        assert(last4[0] == 'w');
        assert(last4[0] != ".png"@[0]);
        assert(last4[0] != ".jpg"@[0]);
        assert(last4[0] != ".gif"@[0]);
    }
}

/// The literals of the stored extensions and their content types, character by character.
proof fn lemma_extension_literals()
    ensures
        ".png"@ == seq!['.', 'p', 'n', 'g'],
        ".jpg"@ == seq!['.', 'j', 'p', 'g'],
        ".jpeg"@ == seq!['.', 'j', 'p', 'e', 'g'],
        ".gif"@ == seq!['.', 'g', 'i', 'f'],
        ".webp"@ == seq!['.', 'w', 'e', 'b', 'p'],
        "png"@ == seq!['p', 'n', 'g'],
        "jpg"@ == seq!['j', 'p', 'g'],
        "gif"@ == seq!['g', 'i', 'f'],
        "webp"@ == seq!['w', 'e', 'b', 'p'],
        "image/png"@ != "image/jpeg"@,
        "image/png"@ != "image/gif"@,
        "image/png"@ != "image/webp"@,
        "image/jpeg"@ != "image/gif"@,
        "image/jpeg"@ != "image/webp"@,
        "image/gif"@ != "image/webp"@,
{
    reveal_strlit(".png");
    reveal_strlit(".jpg");
    reveal_strlit(".jpeg");
    reveal_strlit(".gif");
    reveal_strlit(".webp");
    reveal_strlit("png");
    reveal_strlit("jpg");
    reveal_strlit("gif");
    reveal_strlit("webp");
    reveal_strlit("image/png");
    reveal_strlit("image/jpeg");
    reveal_strlit("image/gif");
    reveal_strlit("image/webp");
    assert(".png"@ =~= seq!['.', 'p', 'n', 'g']);
    assert(".jpg"@ =~= seq!['.', 'j', 'p', 'g']);
    assert(".jpeg"@ =~= seq!['.', 'j', 'p', 'e', 'g']);
    assert(".gif"@ =~= seq!['.', 'g', 'i', 'f']);
    assert(".webp"@ =~= seq!['.', 'w', 'e', 'b', 'p']);
    assert("png"@ =~= seq!['p', 'n', 'g']);
    assert("jpg"@ =~= seq!['j', 'p', 'g']);
    assert("gif"@ =~= seq!['g', 'i', 'f']);
    assert("webp"@ =~= seq!['w', 'e', 'b', 'p']);
    assert("image/png"@[6] != "image/jpeg"@[6]);
    assert("image/png"@[6] != "image/gif"@[6]);
    assert("image/png"@[6] != "image/webp"@[6]);
    assert("image/jpeg"@[6] != "image/gif"@[6]);
    assert("image/jpeg"@[6] != "image/webp"@[6]);
    assert("image/gif"@[6] != "image/webp"@[6]);
}

/// The content type served for a stored attachment, by its file name. A name
/// that ends in a stored extension is served with that extension's content type.
pub fn content_type_for_filename(filename: &str) -> (r: &'static str)
    ensures
        r@ == content_type_for_lower_name(lowercase(filename@)),
        stored_name_type(filename@) matches Some(t) ==> r@ == t,
{
    let lower = to_lowercase(filename);
    proof {
        lemma_stored_suffix_survives_lowering(filename@, lower@);
    }
    let l = lower.as_str();
    if has_suffix(l, ".png") {
        "image/png"
    } else if has_suffix(l, ".jpg") || has_suffix(l, ".jpeg") {
        "image/jpeg"
    } else if has_suffix(l, ".gif") {
        "image/gif"
    } else if has_suffix(l, ".webp") {
        "image/webp"
    } else {
        "application/octet-stream"
    }
}

proof fn lemma_ascii_tail_kept(name: Seq<char>, lower: Seq<char>, suffix: Seq<char>)
    requires
        ends_with(name, suffix),
        all_ascii(suffix),
        ascii_lower(suffix) == suffix,
        forall|i: int|
            0 <= i <= name.len() && #[trigger] all_ascii(name.subrange(i, name.len() as int)) ==> ends_with(
                lower,
                ascii_lower(name.subrange(i, name.len() as int)),
            ),
    ensures
        ends_with(lower, suffix),
{
    let i = name.len() - suffix.len();
    assert(name.subrange(i, name.len() as int) == suffix);
    assert(all_ascii(name.subrange(i, name.len() as int)));
}

proof fn lemma_stored_suffix_survives_lowering(name: Seq<char>, lower: Seq<char>)
    requires
        forall|i: int|
            0 <= i <= name.len() && #[trigger] all_ascii(name.subrange(i, name.len() as int)) ==> ends_with(
                lower,
                ascii_lower(name.subrange(i, name.len() as int)),
            ),
    ensures
        stored_name_type(name) matches Some(t) ==> content_type_for_lower_name(lower) == t,
{
    lemma_extension_literals();
    assert(ascii_lower(".png"@) =~= ".png"@);
    assert(ascii_lower(".jpg"@) =~= ".jpg"@);
    assert(ascii_lower(".gif"@) =~= ".gif"@);
    assert(ascii_lower(".webp"@) =~= ".webp"@);
    let n = lower.len() as int;
    if ends_with(name, ".png"@) {
        lemma_ascii_tail_kept(name, lower, ".png"@);
    } else if ends_with(name, ".jpg"@) {
        lemma_ascii_tail_kept(name, lower, ".jpg"@);
        let l4 = lower.subrange(n - 4, n);
        assert(l4 == ".jpg"@);
        assert(l4[1] != ".png"@[1]);
    } else if ends_with(name, ".gif"@) {
        lemma_ascii_tail_kept(name, lower, ".gif"@);
        let l4 = lower.subrange(n - 4, n);
        assert(l4 == ".gif"@);
        assert(l4[1] != ".png"@[1]);
        assert(l4[1] != ".jpg"@[1]);
        assert(l4[3] == lower[n - 1]);
        if n >= 5 {
            assert(lower.subrange(n - 5, n)[4] == lower[n - 1]);
            assert(lower.subrange(n - 5, n) != ".jpeg"@);
        }
    } else if ends_with(name, ".webp"@) {
        lemma_ascii_tail_kept(name, lower, ".webp"@);
        let l5 = lower.subrange(n - 5, n);
        assert(l5 == ".webp"@);
        let l4 = lower.subrange(n - 4, n);
        assert(l4[0] == l5[1]);
        assert(l4[0] != ".png"@[0]);
        assert(l4[0] != ".jpg"@[0]);
        assert(l4[0] != ".gif"@[0]);
        assert(l5[1] != ".jpeg"@[1]);
    }
}

/// `needle` occurs in `s` at some position.
pub open spec fn contains_seq(s: Seq<char>, needle: Seq<char>) -> bool {
    exists|i: int| 0 <= i <= s.len() - needle.len() && #[trigger] s.subrange(i, i + needle.len()) == needle
}

/// A stored attachment may be fetched under this name: it is not empty and holds
/// no `..`, `/` or `\`.
pub open spec fn attachment_name_ok(name: Seq<char>) -> bool {
    &&& name.len() > 0
    &&& !contains_seq(name, seq!['.', '.'])
    &&& !name.contains('/')
    &&& !name.contains('\\')
}

/// Checks the name under which an attachment is requested (`BadRequest` without a body when refused).
pub fn check_attachment_name(filename: &str) -> (r: Result<(), AppError>)
    ensures
        r is Ok <==> attachment_name_ok(filename@),
        r is Err ==> r == Err::<(), AppError>(AppError::BadRequest(None)),
{
    let v = chars_of(filename);
    if v.len() == 0 {
        return Err(AppError::BadRequest(None));
    }
    let mut i: usize = 0;
    while i < v.len()
        invariant
            v@ == filename@,
            i <= v.len(),
            forall|k: int| 0 <= k < i ==> v@[k] != '/' && v@[k] != '\\',
            forall|k: int| 0 <= k < i && k + 1 < v.len() ==> !(#[trigger] v@[k] == '.' && v@[k + 1] == '.'),
        decreases v.len() - i,
    {
        if v[i] == '/' || v[i] == '\\' {
            return Err(AppError::BadRequest(None));
        }
        if i + 1 < v.len() && v[i] == '.' && v[i + 1] == '.' {
            assert(v@.subrange(i as int, i + 2) =~= seq!['.', '.']);
            return Err(AppError::BadRequest(None));
        }
        i = i + 1;
    }
    assert(!contains_seq(filename@, seq!['.', '.'])) by {
        assert forall|k: int| 0 <= k <= v@.len() - 2 implies #[trigger] v@.subrange(k, k + 2) != seq!['.', '.'] by {
            if v@.subrange(k, k + 2) == seq!['.', '.'] {
                assert(v@.subrange(k, k + 2)[0] == v@[k]);
                assert(v@.subrange(k, k + 2)[1] == v@[k + 1]);
            }
        }
    }
    Ok(())
}

/// Checks an upload of `size` bytes with the given content type and file name,
/// and returns the extension under which it is stored.
pub fn check_upload(size: usize, content_type: Option<&str>, filename: Option<&str>) -> (r: Result<&'static str, AppError>)
    ensures
        size > MAX_IMAGE_SIZE ==> r == Err::<&'static str, AppError>(AppError::PayloadTooLarge(Some("File too large"))),
        size <= MAX_IMAGE_SIZE ==> match r {
            Ok(e) => upload_extension(
                match content_type { Some(c) => Some(c@), None => None },
                match filename { Some(n) => Some(n@), None => None },
            ) == Some(e@),
            Err(err) => err == AppError::BadRequest(Some("Unsupported file type (allowed: jpeg, png, gif, webp)"))
                && upload_extension(
                match content_type { Some(c) => Some(c@), None => None },
                match filename { Some(n) => Some(n@), None => None },
            ) is None,
        },
{
    if size > MAX_IMAGE_SIZE {
        return Err(AppError::PayloadTooLarge(Some("File too large")));
    }
    match extension_from_content_type_or_filename(content_type, filename) {
        Some(e) => Ok(e),
        None => Err(AppError::BadRequest(Some("Unsupported file type (allowed: jpeg, png, gif, webp)"))),
    }
}

/// The name under which an upload is stored: the text of the UUID `id`, a dot
/// and the extension.
pub open spec fn object_name_of(id: u128, ext: Seq<char>) -> Seq<char> {
    uuid_text(id) + seq!['.'] + ext
}

/// The name under which the upload `id` with the extension `ext` is stored.
pub fn object_name(id: u128, ext: &str) -> (r: String)
    ensures
        r@ == object_name_of(id, ext@),
{
    let u = uuid_string(id);
    let mut v = chars_of(u.as_str());
    v.push('.');
    let w = chars_of(ext);
    let ghost v0 = v@;
    let mut i: usize = 0;
    while i < w.len()
        invariant
            i <= w.len(),
            v@ == v0 + w@.take(i as int),
        decreases w.len() - i,
    {
        v.push(w[i]);
        i = i + 1;
        assert(v@ =~= v0 + w@.take(i as int));
    }
    assert(w@.take(w.len() as int) =~= w@);
    string_from_chars(v.as_slice())
}

/// A fresh name for an upload with the extension `ext`: a random version-4
/// UUID, a dot and the extension.
pub fn new_object_name(ext: &str) -> (r: String)
    ensures
        exists|id: u128| is_v4(id) && r@ == object_name_of(id, ext@),
{
    let id = random_uuid();
    object_name(id, ext)
}

/// The public URL of a stored attachment.
pub fn attachment_url(object_name: &str) -> (r: UploadResponse)
    ensures
        r.url@ == "/api/uploads/attachments/"@ + object_name@,
{
    let mut v = chars_of("/api/uploads/attachments/");
    let w = chars_of(object_name);
    let mut i: usize = 0;
    let ghost v0 = v@;
    while i < w.len()
        invariant
            i <= w.len(),
            v@ == v0 + w@.take(i as int),
        decreases w.len() - i,
    {
        v.push(w[i]);
        i = i + 1;
        assert(v@ =~= v0 + w@.take(i as int));
    }
    assert(w@.take(w.len() as int) =~= w@);
    UploadResponse { url: string_from_chars(v.as_slice()) }
}

} // verus!
