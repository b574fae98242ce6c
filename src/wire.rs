//! The member names of the wire protocol.

use vstd::prelude::*;

verus! {

/// The member that holds the command name of a request.
pub open spec fn command_key() -> Seq<char> {
    seq!['c', 'o', 'm', 'm', 'a', 'n', 'd']
}

pub fn command_name() -> (r: &'static str)
    ensures
        r@ == command_key(),
{
    proof {
        reveal_strlit("command");
    }
    "command"
}

/// The member that holds the session marker.
pub open spec fn stream_session_id_key() -> Seq<char> {
    seq!['s', 't', 'r', 'e', 'a', 'm', 'S', 'e', 's', 's', 'i', 'o', 'n', 'I', 'd']
}

pub fn stream_session_id_name() -> (r: &'static str)
    ensures
        r@ == stream_session_id_key(),
{
    proof {
        reveal_strlit("streamSessionId");
    }
    "streamSessionId"
}

/// The member that holds the correlation tag.
pub open spec fn custom_tag_key() -> Seq<char> {
    seq!['c', 'u', 's', 't', 'o', 'm', 'T', 'a', 'g']
}

pub fn custom_tag_name() -> (r: &'static str)
    ensures
        r@ == custom_tag_key(),
{
    proof {
        reveal_strlit("customTag");
    }
    "customTag"
}

/// The member that holds the arguments of a request.
pub open spec fn arguments_key() -> Seq<char> {
    seq!['a', 'r', 'g', 'u', 'm', 'e', 'n', 't', 's']
}

pub fn arguments_name() -> (r: &'static str)
    ensures
        r@ == arguments_key(),
{
    proof {
        reveal_strlit("arguments");
    }
    "arguments"
}

/// The member that holds the outcome flag of a response.
pub open spec fn status_key() -> Seq<char> {
    seq!['s', 't', 'a', 't', 'u', 's']
}

pub fn status_name() -> (r: &'static str)
    ensures
        r@ == status_key(),
{
    proof {
        reveal_strlit("status");
    }
    "status"
}

/// The member that holds the data of a successful response.
pub open spec fn return_data_key() -> Seq<char> {
    seq!['r', 'e', 't', 'u', 'r', 'n', 'D', 'a', 't', 'a']
}

pub fn return_data_name() -> (r: &'static str)
    ensures
        r@ == return_data_key(),
{
    proof {
        reveal_strlit("returnData");
    }
    "returnData"
}

/// The member that holds the error code of a failed response.
pub open spec fn error_code_key() -> Seq<char> {
    seq!['e', 'r', 'r', 'o', 'r', 'C', 'o', 'd', 'e']
}

pub fn error_code_name() -> (r: &'static str)
    ensures
        r@ == error_code_key(),
{
    proof {
        reveal_strlit("errorCode");
    }
    "errorCode"
}

/// The member that holds the error description of a failed response.
pub open spec fn error_description_key() -> Seq<char> {
    seq!['e', 'r', 'r', 'o', 'r', 'D', 'e', 's', 'c', 'r', 'i', 'p', 't', 'i', 'o', 'n']
}

pub fn error_description_name() -> (r: &'static str)
    ensures
        r@ == error_description_key(),
{
    proof {
        reveal_strlit("errorDescription");
    }
    "errorDescription"
}

/// The member that holds the user of a login request.
pub open spec fn user_id_key() -> Seq<char> {
    seq!['u', 's', 'e', 'r', 'I', 'd']
}

pub fn user_id_name() -> (r: &'static str)
    ensures
        r@ == user_id_key(),
{
    proof {
        reveal_strlit("userId");
    }
    "userId"
}

/// The member that holds the password of a login request.
pub open spec fn password_key() -> Seq<char> {
    seq!['p', 'a', 's', 's', 'w', 'o', 'r', 'd']
}

pub fn password_name() -> (r: &'static str)
    ensures
        r@ == password_key(),
{
    proof {
        reveal_strlit("password");
    }
    "password"
}

} // verus!
