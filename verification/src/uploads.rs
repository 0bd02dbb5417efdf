use vstd::prelude::*;
use crate::digest::{base64_encode, base64_standard, md5, md5_compute, md5_lower_hex};
use crate::errors::ApiError;
use crate::names::record_key;
use crate::records::NewRecord;
use crate::text::{append_str, lemma_lower_hex_len, lower_hex, lowercase, push_char, to_lowercase};
use crate::urls::{join_url, joined_url, opt_text, parse_url, parsed_url};

verus! {

/// The text after the last `.` of a file name, or the whole name when it has no
/// `.` (what `split(".").last()` yields).
pub open spec fn after_last_dot(name: Seq<char>) -> Seq<char>
    decreases name.len(),
{
    if name.len() == 0 {
        name
    } else if name.last() == '.' {
        Seq::<char>::empty()
    } else {
        after_last_dot(name.drop_last()).push(name.last())
    }
}

/// The extension a file is stored under: the piece of its name after the last
/// `.`, or `txt` when the upload gave no name.
pub open spec fn file_extension_of(file_name: Option<Seq<char>>) -> Seq<char> {
    match file_name {
        Some(n) => after_last_dot(n),
        None => "txt"@,
    }
}

/// The content type a file is stored with: the one the upload gave, or
/// `application/octet-stream`.
pub open spec fn content_type_of(content_type: Option<Seq<char>>) -> Seq<char> {
    match content_type {
        Some(c) => c,
        None => "application/octet-stream"@,
    }
}

/// The object key of a file in the bucket: the record name in lowercase, a dot,
/// and the extension as given.
pub open spec fn object_key(name: Seq<char>, extension: Seq<char>) -> Seq<char> {
    lowercase(name) + "."@ + extension
}

/// The reference joined onto the CDN address to locate a file: the record name as
/// given, a dot, and the extension in lowercase.
pub open spec fn cdn_reference(name: Seq<char>, extension: Seq<char>) -> Seq<char> {
    name + "."@ + lowercase(extension)
}

/// The extension a file is stored under.
pub fn file_extension(file_name: Option<String>) -> (ext: String)
    ensures
        ext@ == file_extension_of(opt_text(file_name)),
{
    match file_name {
        None => String::from_str("txt"),
        Some(name) => {
            let n = name.as_str().unicode_len();
            let mut piece = String::new();
            for i in 0..n
                invariant
                    n == name@.len(),
                    piece@ == after_last_dot(name@.subrange(0, i as int)),
            {
                let c = name.as_str().get_char(i);
                proof {
                    let prefix = name@.subrange(0, i + 1);
                    assert(prefix.drop_last() == name@.subrange(0, i as int));
                    assert(prefix.last() == c);
                }
                if c == '.' {
                    piece = String::new();
                } else {
                    push_char(&mut piece, c);
                }
            }
            proof {
                assert(name@.subrange(0, n as int) == name@);
            }
            piece
        },
    }
}

/// What an upload sends to the bucket, and what its record keeps of it.
#[derive(Debug)]
pub struct UploadPlan {
    /// The object key.
    pub key: String,
    /// The extension of the uploaded file's name.
    pub extension: String,
    pub content_type: String,
    /// The base64 of the MD5 digest of the content, sent for the bucket to check.
    pub content_md5: String,
    /// The lowercase hex of the MD5 digest of the content, kept on the record.
    pub hash: String,
}

/// Plans the upload of a file under a settled record name. The object key
/// lowercases the name and keeps the extension as given (see
/// `uploaded_file_record` for the address, which does the reverse).
pub fn upload_plan(
    name: &str,
    file_name: Option<String>,
    content_type: Option<String>,
    contents: &[u8],
) -> (plan: UploadPlan)
    ensures
        plan.extension@ == file_extension_of(opt_text(file_name)),
        plan.key@ == object_key(name@, plan.extension@),
        plan.key@ == lowercase(name@) + "."@ + plan.extension@,
        plan.content_type@ == content_type_of(opt_text(content_type)),
        plan.content_md5@ == base64_standard(md5(contents@)),
        plan.hash@ == lower_hex(md5(contents@)),
        md5(contents@).len() == 16,
        plan.hash@.len() == 32,
{
    let digest = md5_compute(contents);
    let content_type = match content_type {
        Some(c) => c,
        None => String::from_str("application/octet-stream"),
    };
    let extension = file_extension(file_name);
    let mut key = to_lowercase(name);
    append_str(&mut key, ".");
    append_str(&mut key, extension.as_str());
    let content_md5 = base64_encode(digest.as_slice());
    let hash = md5_lower_hex(digest);
    proof {
        lemma_lower_hex_len(digest@);
        assert(key@ == lowercase(name@) + "."@ + extension@);
    }
    UploadPlan { key, extension, content_type, content_md5, hash }
}

/// Why a file's record could not be made after its upload.
#[derive(Debug)]
pub enum UploadError {
    /// The configured CDN address does not parse.
    InvalidCdnUrl,
    /// The file's address could not be formed (status 500).
    Failed(ApiError),
}

/// The answer when the bucket refuses an upload.
pub fn upload_failure(detail: &str) -> (e: ApiError)
    ensures
        e.status == 500,
        e.message@ == "Unable to upload file\n"@ + detail@,
{
    let mut message = String::from_str("Unable to upload file\n");
    append_str(&mut message, detail);
    ApiError { status: 500, message }
}

/// The record of an uploaded file: its address is the CDN address joined with
/// `<name>.<extension in lowercase>`.
///
/// This reference is not the object key of `upload_plan`, which lowercases the
/// name and keeps the extension: the two agree only when the name and the
/// extension are already lowercase (`lemma_object_key_matches_address`). A file
/// `x.PNG` uploaded under the name `Foo` is stored as `foo.PNG` and addressed as
/// `Foo.png`; the address then does not name the stored object, and a deletion,
/// which takes its key from the address, names another object. This is the
/// service's behaviour, kept as it is.
pub fn uploaded_file_record(
    cdn_url: &str,
    name: &str,
    owner_id: Option<i64>,
    plan: UploadPlan,
) -> (r: Result<NewRecord, UploadError>)
    ensures
        parsed_url(cdn_url@) is Err ==> r matches Err(UploadError::InvalidCdnUrl),
        parsed_url(cdn_url@) is Ok ==> (match joined_url(
            cdn_url@,
            cdn_reference(name@, plan.extension@),
        ) {
            Err(m) => r matches Err(UploadError::Failed(e)) && e.status == 500 && e.message@ == m,
            Ok(u) => r matches Ok(rec) && rec.owner_id == owner_id && rec.name@ == record_key(
                name@,
            ) && rec.visible_name@ == name@ && rec.url@ == u && rec.is_file && opt_text(rec.hash)
                == Some(plan.hash@) && opt_text(rec.mime_type) == Some(plan.content_type@),
        }),
{
    match parse_url(cdn_url) {
        Err(_) => {
            return Err(UploadError::InvalidCdnUrl);
        },
        Ok(_) => {},
    }
    let mut reference = String::from_str(name);
    append_str(&mut reference, ".");
    let lower_ext = to_lowercase(plan.extension.as_str());
    append_str(&mut reference, lower_ext.as_str());
    match join_url(cdn_url, reference.as_str()) {
        Err(m) => Err(UploadError::Failed(ApiError { status: 500, message: m })),
        Ok(url) => Ok(
            NewRecord {
                owner_id,
                name: to_lowercase(name),
                visible_name: String::from_str(name),
                url,
                is_file: true,
                hash: Some(plan.hash),
                mime_type: Some(plan.content_type),
            },
        ),
    }
}

/// The extension of a file name is its whole last `.`-separated piece: a suffix
/// of the name that holds no `.`, and that is either the whole name or preceded
/// by a `.`. A file given without a name is stored as `txt`.
pub proof fn lemma_extension_is_last_piece(name: Seq<char>)
    ensures
        after_last_dot(name).len() <= name.len(),
        after_last_dot(name) == name.subrange(
            name.len() - after_last_dot(name).len(),
            name.len() as int,
        ),
        !after_last_dot(name).contains('.'),
        after_last_dot(name).len() < name.len() ==> name[name.len() - after_last_dot(name).len()
            - 1] == '.',
        file_extension_of(Some(name)) == after_last_dot(name),
        file_extension_of(None) == "txt"@,
    decreases name.len(),
{
    if name.len() == 0 {
        assert(name.subrange(0, 0) =~= name);
    } else if name.last() == '.' {
        assert(name.subrange(name.len() as int, name.len() as int) =~= Seq::<char>::empty());
    } else {
        let d = name.drop_last();
        lemma_extension_is_last_piece(d);
        let e0 = after_last_dot(d);
        let e = after_last_dot(name);
        assert(e == e0.push(name.last()));
        assert(e =~= name.subrange(name.len() - e.len(), name.len() as int)) by {
            assert forall|k: int| 0 <= k < e.len() implies e[k] == name[name.len() - e.len() + k] by {
                if k < e0.len() {
                    assert(e0[k] == d[d.len() - e0.len() + k]);
                }
            }
        }
        assert(!e.contains('.')) by {
            if e.contains('.') {
                let k = choose|k: int| 0 <= k < e.len() && e[k] == '.';
                if k < e0.len() {
                    assert(e0.contains('.'));
                }
            }
        }
        if e.len() < name.len() {
            assert(name[name.len() - e.len() - 1] == d[d.len() - e0.len() - 1]);
        }
    }
}

/// The object key is the whole name in lowercase, a dot and the whole
/// extension; the address's reference is the whole name, a dot and the whole
/// extension in lowercase.
pub proof fn lemma_keys_are_whole(name: Seq<char>, extension: Seq<char>)
    ensures
        object_key(name, extension) == lowercase(name) + "."@ + extension,
        cdn_reference(name, extension) == name + "."@ + lowercase(extension),
{
}

/// An uploaded file's address leads to the object it was stored under only when
/// the record name and the extension are already in lowercase: the object key
/// lowercases the name and keeps the extension, while the address keeps the name
/// and lowercases the extension.
pub proof fn lemma_object_key_matches_address(name: Seq<char>, extension: Seq<char>)
    requires
        lowercase(name) == name,
        lowercase(extension) == extension,
    ensures
        object_key(name, extension) == cdn_reference(name, extension),
{
}

} // verus!
