use vstd::prelude::*;
use crate::errors::ApiError;

verus! {

/// A stored user, as the request handlers read it.
#[derive(Debug, Clone)]
pub struct UserRecord {
    pub id: i64,
    pub username: String,
    pub display_name: String,
    pub password: String,
    pub is_admin: bool,
}

/// Who a request comes from.
#[derive(Debug, Clone)]
pub enum UserType {
    User(UserRecord),
    Admin(UserRecord),
    Anonymous,
}

/// The id of the user a request comes from, if any.
#[derive(Debug, Clone)]
pub struct UserId(pub Option<i64>);

/// The answer when the authentication step left nothing for the handler.
pub open spec fn is_cannot_parse_user(e: ApiError) -> bool {
    e.status == 500 && e.message@ == "Cannot parse user"@
}

impl UserType {
    /// Classifies a request by what the authentication step recorded on it:
    /// `None` when it recorded nothing, else the user it found, if any.
    pub fn from_request_user(recorded: Option<Option<UserRecord>>) -> (r: Result<UserType, ApiError>)
        ensures
            recorded is None ==> (r matches Err(e) && is_cannot_parse_user(e)),
            recorded == Some(Option::<UserRecord>::None) ==> r matches Ok(UserType::Anonymous),
            recorded matches Some(Some(u)) ==> (u.is_admin ==> r == Ok::<UserType, ApiError>(
                UserType::Admin(u),
            )),
            recorded matches Some(Some(u)) ==> (!u.is_admin ==> r == Ok::<UserType, ApiError>(
                UserType::User(u),
            )),
    {
        match recorded {
            Some(opt_user) => Ok(
                match opt_user {
                    Some(user) => {
                        if user.is_admin {
                            UserType::Admin(user)
                        } else {
                            UserType::User(user)
                        }
                    },
                    None => UserType::Anonymous,
                },
            ),
            None => Err(ApiError::new(500, "Cannot parse user")),
        }
    }
}

impl UserId {
    /// The id of the user the authentication step recorded on a request.
    pub fn from_request_user(recorded: Option<&Option<UserRecord>>) -> (r: Result<UserId, ApiError>)
        ensures
            recorded is None ==> (r matches Err(e) && is_cannot_parse_user(e)),
            recorded matches Some(u) ==> (r matches Ok(id) && id.0 == (match u {
                Some(user) => Some(user.id),
                None => None,
            })),
    {
        if let Some(opt_user) = recorded {
            Ok(
                match opt_user {
                    Some(user) => UserId(Some(user.id)),
                    None => UserId(None),
                },
            )
        } else {
            Err(ApiError::new(500, "Cannot parse user"))
        }
    }
}

} // verus!
