use vstd::prelude::*;
use crate::errors::{ApiError, RecordRequestError, RecordRequestErrorType};
use crate::extractors::UserType;
use crate::names::record_key;
use crate::text::to_lowercase;
use crate::urls::{
    last_path_segment, opt_text, parse_url, parsed_url, set_url_path, url_last_segment,
    url_with_path,
};

verus! {

/// A record as stored: a short name that leads either to a URL or to an uploaded
/// file.
#[derive(Debug, Clone)]
pub struct StoredRecord {
    pub id: i64,
    pub owner_id: Option<i64>,
    /// The name in lowercase, under which the record is found.
    pub name: String,
    /// The name as the client wrote it.
    pub visible_name: String,
    /// Where the record leads: the link's target, or the file's address on the CDN.
    pub url: String,
    pub is_file: bool,
    pub hash: Option<String>,
    pub mime_type: Option<String>,
    pub is_temp: bool,
}

/// A record about to be written (its id and creation time are given when it is
/// written).
#[derive(Debug, Clone)]
pub struct NewRecord {
    pub owner_id: Option<i64>,
    pub name: String,
    pub visible_name: String,
    pub url: String,
    pub is_file: bool,
    pub hash: Option<String>,
    pub mime_type: Option<String>,
}

/// The key under which a visit to `/<name>` looks a record up.
pub fn record_lookup_key(name: &str) -> (key: String)
    ensures
        key@ == record_key(name@),
{
    to_lowercase(name)
}

/// The record a link creation writes once its name is settled: the URL as the
/// `url` crate serializes it, or `Invalid URL` when the text does not parse.
pub fn new_link_record(owner_id: Option<i64>, name: String, url: &str) -> (r: Result<
    NewRecord,
    RecordRequestError,
>)
    ensures
        parsed_url(url@) is Err ==> (r matches Err(e) && e@ == (
            RecordRequestErrorType::Url,
            "Invalid URL"@,
        )),
        parsed_url(url@) matches Ok(u) ==> (r matches Ok(rec) && rec.owner_id == owner_id
            && rec.name@ == record_key(name@) && rec.visible_name@ == name@ && rec.url@ == u
            && !rec.is_file && rec.hash is None && rec.mime_type is None),
{
    let parsed = match parse_url(url) {
        Ok(u) => u,
        Err(_) => {
            return Err(
                RecordRequestError::new(RecordRequestErrorType::Url, String::from_str("Invalid URL")),
            );
        },
    };
    Ok(
        NewRecord {
            owner_id,
            name: to_lowercase(name.as_str()),
            visible_name: name,
            url: parsed,
            is_file: false,
            hash: None,
            mime_type: None,
        },
    )
}

/// The short link of a new record: the address the request came to, with its
/// path replaced by the record's visible name; `None` if that address does not
/// parse.
pub fn short_link(request_url: &str, visible_name: &str) -> (link: Option<String>)
    ensures
        parsed_url(request_url@) is Err ==> link is None,
        parsed_url(request_url@) is Ok ==> (link matches Some(l) && l@ == url_with_path(
            request_url@,
            visible_name@,
        )),
{
    match parse_url(request_url) {
        Err(_) => None,
        Ok(_) => Some(set_url_path(request_url, visible_name)),
    }
}

/// What a visit to a record's name answers.
#[derive(Debug)]
pub enum LinkResponse {
    /// A permanent redirect to the link's target.
    Redirect { location: String },
    /// The file fetched from its address, sent with its content type when known.
    Proxy { url: String, content_type: Option<String> },
}

/// The answer to a visit, given the record found under the visited name.
pub fn link_response(record: Option<StoredRecord>) -> (r: Result<LinkResponse, ApiError>)
    ensures
        record is None ==> (r matches Err(e) && e.status == 404 && e.message@
            == "No record with this name was found"@),
        record matches Some(rec) ==> (!rec.is_file ==> (r matches Ok(LinkResponse::Redirect {
            location,
        }) && location == rec.url)),
        record matches Some(rec) ==> (rec.is_file ==> (r matches Ok(LinkResponse::Proxy {
            url,
            content_type,
        }) && url == rec.url && content_type == rec.mime_type)),
{
    match record {
        None => Err(ApiError::new(404, "No record with this name was found")),
        Some(rec) => {
            if !rec.is_file {
                Ok(LinkResponse::Redirect { location: rec.url })
            } else {
                Ok(LinkResponse::Proxy { url: rec.url, content_type: rec.mime_type })
            }
        },
    }
}

/// The first step of a deletion request, decided by who asks.
#[derive(Debug)]
pub enum DeleteAccess {
    /// Refused outright.
    Denied(ApiError),
    /// Allowed whoever owns the record.
    Granted,
    /// Allowed only if the record belongs to this user.
    CheckOwner(i64),
}

/// Whether a user may delete a record with the given owner (`None`: no such
/// record): the refusal's status and message, if refused.
pub open spec fn owner_decision(user_id: i64, record_owner: Option<Option<i64>>) -> Result<
    (),
    (u16, Seq<char>),
> {
    match record_owner {
        None => Err((404u16, "Record not found"@)),
        Some(None) => Err((403u16, "Record is anonymous"@)),
        Some(Some(owner)) => if owner != user_id {
            Err((403u16, "This is not your record"@))
        } else {
            Ok(())
        },
    }
}

/// Whether a request may delete a record with the given owner.
pub open spec fn delete_decision(user: UserType, record_owner: Option<Option<i64>>) -> Result<
    (),
    (u16, Seq<char>),
> {
    match user {
        UserType::Anonymous => Err((401u16, "Unauthorized"@)),
        UserType::Admin(_) => Ok(()),
        UserType::User(u) => owner_decision(u.id, record_owner),
    }
}

/// An outcome read as status and message.
pub open spec fn api_view(r: Result<(), ApiError>) -> Result<(), (u16, Seq<char>)> {
    match r {
        Ok(()) => Ok(()),
        Err(e) => Err((e.status, e.message@)),
    }
}

/// Decides who may go on with a deletion request before any record is read.
pub fn delete_access(user: &UserType) -> (access: DeleteAccess)
    ensures
        access matches DeleteAccess::Denied(e) ==> forall|o: Option<Option<i64>>| delete_decision(
            *user,
            o,
        ) == Err::<(), (u16, Seq<char>)>((e.status, e.message@)),
        access is Granted ==> forall|o: Option<Option<i64>>| #[trigger] delete_decision(*user, o)
            is Ok,
        access matches DeleteAccess::CheckOwner(id) ==> forall|o: Option<Option<i64>>|
            #[trigger] delete_decision(*user, o) == owner_decision(id, o),
{
    match user {
        UserType::Anonymous => DeleteAccess::Denied(ApiError::new(401, "Unauthorized")),
        UserType::Admin(_) => DeleteAccess::Granted,
        UserType::User(u) => DeleteAccess::CheckOwner(u.id),
    }
}

/// Decides a user's deletion request once the record's owner is known
/// (`None`: there is no such record).
pub fn owner_access(user_id: i64, record_owner: Option<Option<i64>>) -> (r: Result<(), ApiError>)
    ensures
        api_view(r) == owner_decision(user_id, record_owner),
{
    match record_owner {
        None => Err(ApiError::new(404, "Record not found")),
        Some(None) => Err(ApiError::new(403, "Record is anonymous")),
        Some(Some(owner)) => {
            if owner != user_id {
                Err(ApiError::new(403, "This is not your record"))
            } else {
                Ok(())
            }
        },
    }
}

/// Admins may delete any record; a signed-in user only a record that exists and is
/// their own; a request without a user nothing.
pub proof fn lemma_who_may_delete(user: UserType, record_owner: Option<Option<i64>>)
    ensures
        delete_decision(user, record_owner) is Ok <==> (user is Admin || (user matches UserType::User(
            u,
        ) && record_owner == Some(Some(u.id)))),
{
}

/// What a deletion must remove besides the record: the key of its file in the
/// bucket (the last segment of the file's address), or nothing for a link.
pub open spec fn deletion_key_view(record: StoredRecord) -> Result<Option<Seq<char>>, Seq<char>> {
    if !record.is_file {
        Ok(None)
    } else {
        match parsed_url(record.url@) {
            Err(m) => Err(m),
            Ok(_) => match url_last_segment(record.url@) {
                Some(k) => Ok(Some(k)),
                None => Err("Wrong file URL"@),
            },
        }
    }
}

/// The first step of deleting a record, given the record found under the id:
/// `Record not found` (404) when there is none, else what must be removed from the
/// bucket, failing with status 500 when the file's address does not yield a key.
pub fn deletion_key(record: Option<StoredRecord>) -> (r: Result<Option<String>, ApiError>)
    ensures
        record is None ==> (r matches Err(e) && e.status == 404 && e.message@
            == "Record not found"@),
        record matches Some(rec) ==> (match deletion_key_view(rec) {
            Ok(k) => r matches Ok(key) && opt_text(key) == k,
            Err(m) => r matches Err(e) && e.status == 500 && e.message@ == m,
        }),
        r matches Ok(Some(k)) ==> !k@.contains('/'),
{
    let rec = match record {
        Some(rec) => rec,
        None => {
            return Err(ApiError::new(404, "Record not found"));
        },
    };
    if !rec.is_file {
        return Ok(None);
    }
    match last_path_segment(rec.url.as_str()) {
        Err(m) => Err(ApiError { status: 500, message: m }),
        Ok(None) => Err(ApiError::new(500, "Wrong file URL")),
        Ok(Some(k)) => Ok(Some(k)),
    }
}

/// The status of a finished deletion: Not Modified when no row went, else OK.
pub fn delete_status(rows_affected: u64) -> (status: u16)
    ensures
        status == (if rows_affected == 0 { 304u16 } else { 200u16 }),
{
    if rows_affected == 0 {
        304
    } else {
        200
    }
}

} // verus!
