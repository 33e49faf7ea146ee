//! User records, the requests and answers of the user endpoints, and
//! the validation the create-user handler applies before anything
//! reaches the backend. The backend itself is not implemented: the
//! lookup, delete, and login operations answer with their fixed
//! placeholder responses.

use vstd::prelude::*;
use vstd::utf8::encode_utf8;
use crate::strutil::dec_rep_signed;
use crate::strutil::i64_to_string;
use crate::strutil::str_concat;

verus! {

broadcast use vstd::slice::group_slice_axioms;

/// A stored user record.
#[derive(Debug, Clone)]
pub struct User {
    pub id: i64,
    pub username: String,
    pub email: String,
    pub password_hash: String,
}

/// Request to create a user.
#[derive(Debug)]
pub struct CreateUserRequest {
    pub username: String,
    pub email: String,
    pub password: String,
}

/// Request to log in.
#[derive(Debug)]
pub struct LoginRequest {
    pub username: String,
    pub password: String,
}

/// A user as answered to clients: everything but the password hash.
#[derive(Debug)]
pub struct UserResponse {
    pub id: i64,
    pub username: String,
    pub email: String,
}

/// Answer of a successful login.
#[derive(Debug)]
pub struct LoginResponse {
    pub token: String,
    pub user: UserResponse,
}

/// Error payload of a failed user request.
#[derive(Debug)]
pub struct ErrorResponse {
    pub error: String,
}

/// The UTF-8 byte length of a string: password length is measured in
/// bytes, not characters.
pub open spec fn byte_len(s: Seq<char>) -> nat {
    encode_utf8(s).len()
}

/// Whether a create-user request passes validation: username and email
/// nonempty, password at least eight bytes.
pub open spec fn valid_create_user(req: CreateUserRequest) -> bool {
    &&& req.username@.len() > 0
    &&& req.email@.len() > 0
    &&& byte_len(req.password@) >= 8
}

/// The create-user handler's decision. Rejections, in order: an empty
/// username, an empty email, a password under eight bytes — each with
/// status 400 and its own diagnostic. A valid request is answered with
/// status 201 and the placeholder record the backend stub creates.
pub fn create_user_response(req: &CreateUserRequest) -> (r: Result<
    (u16, UserResponse),
    (u16, ErrorResponse),
>)
    ensures
        r is Ok <==> valid_create_user(*req),
        req.username@.len() == 0 ==> r is Err && (r->Err_0).0 == 400 && (r->Err_0).1.error@
            == "Username cannot be empty"@,
        req.username@.len() > 0 && req.email@.len() == 0 ==> r is Err && (r->Err_0).0 == 400 && (
        r->Err_0).1.error@ == "Email cannot be empty"@,
        req.username@.len() > 0 && req.email@.len() > 0 && byte_len(req.password@) < 8 ==> r is Err
            && (r->Err_0).0 == 400 && (r->Err_0).1.error@
            == "Password must be at least 8 characters"@,
        r is Ok ==> (r->Ok_0).0 == 201 && (r->Ok_0).1.id == 1 && (r->Ok_0).1.username@
            == req.username@ && (r->Ok_0).1.email@ == req.email@,
{
    if req.username.as_str().is_empty() {
        return Result::Err(
            (400, ErrorResponse { error: "Username cannot be empty".to_owned() }),
        );
    }
    if req.email.as_str().is_empty() {
        return Result::Err((400, ErrorResponse { error: "Email cannot be empty".to_owned() }));
    }
    if req.password.as_str().as_bytes().len() < 8 {
        return Result::Err(
            (400, ErrorResponse { error: "Password must be at least 8 characters".to_owned() }),
        );
    }
    let user = UserResponse { id: 1, username: req.username.clone(), email: req.email.clone() };
    Result::Ok((201, user))
}

/// The list-users answer of the backend stub: no users.
pub fn list_users_response() -> (r: Vec<UserResponse>)
    ensures
        r@.len() == 0,
{
    Vec::new()
}

/// The answer for a user id the backend stub cannot find: status 404
/// and a diagnostic naming the id.
pub fn user_not_found_error(id: i64) -> (r: (u16, ErrorResponse))
    ensures
        r.0 == 404,
        r.1.error@ == "User "@ + dec_rep_signed(id as int) + " not found"@,
{
    let digits = i64_to_string(id);
    let msg = str_concat("User ", digits.as_str());
    let error = str_concat(msg.as_str(), " not found");
    (404, ErrorResponse { error })
}

/// The login answer of the backend stub: status 401, credentials never
/// accepted.
pub fn login_failed_error() -> (r: (u16, ErrorResponse))
    ensures
        r.0 == 401,
        r.1.error@ == "Invalid credentials"@,
{
    (401, ErrorResponse { error: "Invalid credentials".to_owned() })
}

} // verus!
