//! Inbound response envelopes: classification of a frame by status and tag,
//! and the deferred reading of its payload as a success or failure record.

use vstd::prelude::*;
use crate::error_code::{code_name, XtbErrorCode};
use crate::json::{
    lookup, opt_view, parsed_object, read_optional_text, read_text, Field, FieldModel, JsonObject,
    Members,
};
use crate::wire::{
    custom_tag_key, custom_tag_name, error_code_key, error_code_name, error_description_key,
    error_description_name, return_data_key, return_data_name, status_key, status_name,
    stream_session_id_key, stream_session_id_name,
};

verus! {

/// The record of a successful command.
#[derive(Debug)]
pub struct CommandSuccess {
    /// The returned data; absent when missing or null.
    pub return_data: Option<Field>,
    /// The session marker, when the command issued one.
    pub stream_session_id: Option<String>,
    /// The tag of the response.
    pub custom_tag: Option<String>,
}

/// The record of a failed command.
#[derive(Debug)]
pub struct CommandFailed {
    /// The venue's error code.
    pub error_code: XtbErrorCode,
    /// The venue's description of the error.
    pub error_description: String,
}

/// What a frame or a payload got wrong in its shape.
#[derive(Clone, Copy, Debug, PartialEq, Eq, Structural)]
pub enum InvalidFormatErrorInfo {
    /// The frame is not a JSON object.
    NotAnObject,
    /// The object has no `status` member.
    StatusFieldMissing,
    /// The `status` member is not a boolean.
    InvalidStatusType,
    /// The `customTag` member is neither null nor a string.
    InvalidCustomTagType,
}

/// Why a frame could not be read as a response.
#[derive(Debug, PartialEq, Eq)]
pub enum ParseResponseError {
    InvalidDataFormat(InvalidFormatErrorInfo),
    /// The payload does not fit the success or failure record; the name of
    /// the offending member is given.
    DeserializationError(String),
}

/// The classification of a response object: its status and its tag, or what is
/// wrong with it.
pub open spec fn classify(m: Members) -> Result<(bool, Option<Seq<char>>), InvalidFormatErrorInfo> {
    match lookup(m, status_key()) {
        None => Err(InvalidFormatErrorInfo::StatusFieldMissing),
        Some(FieldModel::Bool(b)) => match read_optional_text(lookup(m, custom_tag_key())) {
            Some(tag) => Ok((b, tag)),
            None => Err(InvalidFormatErrorInfo::InvalidCustomTagType),
        },
        Some(_) => Err(InvalidFormatErrorInfo::InvalidStatusType),
    }
}

/// The classification of a frame's text.
pub open spec fn classify_text(text: Seq<char>) -> Result<(bool, Option<Seq<char>>), InvalidFormatErrorInfo> {
    match parsed_object(text) {
        None => Err(InvalidFormatErrorInfo::NotAnObject),
        Some(m) => classify(m),
    }
}

/// A classified response: its status and tag, and the whole payload for the
/// deferred reading.
#[derive(Debug)]
pub struct ResponseInfo {
    pub status: bool,
    pub custom_tag: Option<String>,
    pub value: JsonObject,
}

impl ResponseInfo {
    /// The members of the payload.
    pub open spec fn payload(&self) -> Members {
        self.value@
    }

    /// Classifies a response object.
    pub fn new(value: JsonObject) -> (r: Result<ResponseInfo, ParseResponseError>)
        ensures
            match classify(value@) {
                Ok((status, tag)) => r matches Ok(info) && info.status == status && opt_view(
                    info.custom_tag,
                ) == tag && info.payload() == value@,
                Err(e) => r == Err::<ResponseInfo, ParseResponseError>(
                    ParseResponseError::InvalidDataFormat(e),
                ),
            },
    {
        let status = match value.get(status_name()) {
            None => {
                return Err(
                    ParseResponseError::InvalidDataFormat(InvalidFormatErrorInfo::StatusFieldMissing),
                )
            },
            Some(Field::Bool(b)) => *b,
            Some(_) => {
                return Err(
                    ParseResponseError::InvalidDataFormat(InvalidFormatErrorInfo::InvalidStatusType),
                )
            },
        };
        let custom_tag = match value.get_optional_text(custom_tag_name()) {
            Some(t) => t,
            None => {
                return Err(
                    ParseResponseError::InvalidDataFormat(
                        InvalidFormatErrorInfo::InvalidCustomTagType,
                    ),
                )
            },
        };
        Ok(ResponseInfo { status, custom_tag, value })
    }

    /// Reads and classifies a frame's text.
    pub fn decode(text: &str) -> (r: Result<ResponseInfo, ParseResponseError>)
        ensures
            match classify_text(text@) {
                Ok((status, tag)) => r matches Ok(info) && info.status == status && opt_view(
                    info.custom_tag,
                ) == tag && parsed_object(text@) == Some(info.payload()),
                Err(e) => r == Err::<ResponseInfo, ParseResponseError>(
                    ParseResponseError::InvalidDataFormat(e),
                ),
            },
    {
        match JsonObject::parse(text) {
            None => Err(ParseResponseError::InvalidDataFormat(InvalidFormatErrorInfo::NotAnObject)),
            Some(o) => ResponseInfo::new(o),
        }
    }

    /// Reads the payload as the record that the status calls for.
    ///
    /// With status true: a success record, unless `streamSessionId` is
    /// neither absent, null nor a string. With status false: a failure record,
    /// unless `errorCode` is not the name of a known code or
    /// `errorDescription` is not a string. The error names the member at fault.
    pub fn into_result(self) -> (r: Result<Result<CommandSuccess, CommandFailed>, ParseResponseError>)
        ensures
            self.status ==> match session_marker(self.payload()) {
                Some(sid) => r matches Ok(Ok(s)) && opt_view(s.stream_session_id) == sid
                    && opt_view(s.custom_tag) == opt_view(self.custom_tag) && present_data(
                    s.return_data,
                ) == non_null(lookup(self.payload(), return_data_key())),
                None => r matches Err(ParseResponseError::DeserializationError(k)) && k@
                    == stream_session_id_key(),
            },
            !self.status ==> match failure_fields(self.payload()) {
                Ok((code, description)) => r matches Ok(Err(f)) && code_name(f.error_code) == code
                    && f.error_description@ == description,
                Err(key) => r matches Err(ParseResponseError::DeserializationError(k)) && k@ == key,
            },
    {
        if self.status {
            let stream_session_id = match self.value.get_optional_text(stream_session_id_name()) {
                Some(s) => s,
                None => {
                    return Err(
                        ParseResponseError::DeserializationError(
                            stream_session_id_name().to_owned(),
                        ),
                    )
                },
            };
            let return_data = match self.value.get(return_data_name()) {
                None => None,
                Some(Field::Null) => None,
                Some(f) => Some(f.duplicate()),
            };
            Ok(Ok(CommandSuccess { return_data, stream_session_id, custom_tag: self.custom_tag }))
        } else {
            let code = match self.value.get_text(error_code_name()) {
                Some(c) => c,
                None => {
                    return Err(ParseResponseError::DeserializationError(error_code_name().to_owned()))
                },
            };
            let error_code = match XtbErrorCode::from_name(code.as_str()) {
                Some(c) => c,
                None => {
                    return Err(ParseResponseError::DeserializationError(error_code_name().to_owned()))
                },
            };
            let error_description = match self.value.get_text(error_description_name()) {
                Some(d) => d,
                None => {
                    return Err(
                        ParseResponseError::DeserializationError(
                            error_description_name().to_owned(),
                        ),
                    )
                },
            };
            Ok(Err(CommandFailed { error_code, error_description }))
        }
    }
}

/// How the session marker of a success payload reads (see [`read_optional_text`]).
pub open spec fn session_marker(m: Members) -> Option<Option<Seq<char>>> {
    read_optional_text(lookup(m, stream_session_id_key()))
}

/// The error code and description of a failure payload, or the member at
/// fault: `errorCode` must be the name of a known code, and
/// `errorDescription` a string.
pub open spec fn failure_fields(m: Members) -> Result<(Seq<char>, Seq<char>), Seq<char>> {
    match read_text(lookup(m, error_code_key())) {
        None => Err(error_code_key()),
        Some(code) => if !(exists|c: XtbErrorCode| code_name(c) == code) {
            Err(error_code_key())
        } else {
            match read_text(lookup(m, error_description_key())) {
                None => Err(error_description_key()),
                Some(description) => Ok((code, description)),
            }
        },
    }
}

pub open spec fn present_data(f: Option<Field>) -> Option<FieldModel> {
    match f {
        Some(v) => Some(v@),
        None => None,
    }
}

/// A member's value, with null read as absent.
pub open spec fn non_null(f: Option<FieldModel>) -> Option<FieldModel> {
    match f {
        Some(FieldModel::Null) => None,
        other => other,
    }
}

} // verus!
