//! The client's session: tag allocation, the building and registration of
//! requests, and the reading of their replies into typed results.
//!
//! Each request is two steps around the transport: a `*_request` step
//! allocates a tag, registers a channel for it and returns the frame to send
//! with the stream to wait on; the matching `finish_*` step takes what the
//! stream's first read gave (`None` when it closed empty) and decides.

use vstd::prelude::*;
use crate::channel::{ChannelModel, ResponseChannel, ResponseStream, TagRegistry};
use crate::command::{
    command_members, login_members, opt_field_view, ApiCommand, CommandModel, LoginArg,
};
use crate::json::{lookup, opt_view, render_object, Field, FieldModel};
use crate::response::{
    failure_fields, non_null, present_data, session_marker, CommandFailed, CommandSuccess, ParseResponseError,
    ResponseInfo,
};
use crate::error_code::code_name;
use crate::text::{decimal, push_decimal};
use crate::wire::{return_data_key, stream_session_id_key};
use crate::config::{
    demo_endpoint, demo_endpoint_text, demo_stream_endpoint, demo_stream_endpoint_text, format_url,
    real_endpoint, real_endpoint_text, real_stream_endpoint, real_stream_endpoint_text, url_text,
    venue_host, venue_host_text,
};

verus! {

/// Which of the two connections a failure concerns.
#[derive(Clone, Copy, Debug, PartialEq, Eq, Structural)]
pub enum ApiType {
    Api,
    StreamApi,
}

/// Why a request of the client failed.
#[derive(Debug)]
pub enum XtbClientError {
    /// The channel closed before any reply came.
    NoResponseReceived,
    /// The reply could not be read.
    ParseResponseError(ParseResponseError),
    /// The venue answered with a failure.
    CommandFailed(CommandFailed),
    /// The request could not be sent.
    MessageCannotBeSend(ApiType),
    /// A successful login reply carried no session marker.
    MissingSessionMarker,
}

/// Why an authentication step failed.
#[derive(Clone, Copy, Debug, PartialEq, Eq, Structural)]
pub enum AuthApiError {
    LoginFailed,
}

/// The tag of the `n`-th request: `cmd_` followed by `n` in decimal.
pub open spec fn tag_text(n: nat) -> Seq<char> {
    seq!['c', 'm', 'd', '_'] + decimal(n)
}

/// The name of the login command.
pub open spec fn login_command() -> Seq<char> {
    seq!['l', 'o', 'g', 'i', 'n']
}

/// The name of the logout command.
pub open spec fn logout_command() -> Seq<char> {
    seq!['l', 'o', 'g', 'o', 'u', 't']
}

/// The session state of a client: the session marker, once a login gave one,
/// and the number of the next request.
pub struct XtbClient {
    stream_session_id: Option<String>,
    next_id: u64,
}

impl XtbClient {
    /// The session marker.
    pub closed spec fn spec_session(&self) -> Option<Seq<char>> {
        opt_view(self.stream_session_id)
    }

    /// The number of the next request.
    pub closed spec fn spec_next_id(&self) -> u64 {
        self.next_id
    }

    /// A client with no session; its first request is number 1.
    pub fn new() -> (r: XtbClient)
        ensures
            r.spec_session() is None,
            r.spec_next_id() == 1,
    {
        XtbClient { stream_session_id: None, next_id: 1 }
    }

    /// The session marker, once a login gave one.
    pub fn stream_session_id(&self) -> (r: Option<String>)
        ensures
            opt_view(r) == self.spec_session(),
    {
        match &self.stream_session_id {
            Some(s) => Some(s.clone()),
            None => None,
        }
    }

    /// Whether another request can be numbered.
    pub fn can_send(&self) -> (r: bool)
        ensures
            r == (self.spec_next_id() < u64::MAX),
    {
        self.next_id < u64::MAX
    }

    fn generate_unique_custom_tag(&mut self) -> (r: String)
        requires
            old(self).spec_next_id() < u64::MAX,
        ensures
            r@ == tag_text(old(self).spec_next_id() as nat),
            final(self).spec_next_id() == old(self).spec_next_id() + 1,
            final(self).spec_session() == old(self).spec_session(),
    {
        proof {
            reveal_strlit("cmd_");
        }
        let mut tag = "cmd_".to_owned();
        push_decimal(&mut tag, self.next_id);
        self.next_id = self.next_id + 1;
        tag
    }

    fn build_command(&mut self, command: &str, args: Option<Field>, is_streaming: bool) -> (r: ApiCommand<Field>)
        requires
            old(self).spec_next_id() < u64::MAX,
        ensures
            r.model() == (CommandModel {
                command: command@,
                stream_session_id: if is_streaming {
                    old(self).spec_session()
                } else {
                    None
                },
                custom_tag: Some(tag_text(old(self).spec_next_id() as nat)),
                arguments: opt_field_view(args),
            }),
            final(self).spec_next_id() == old(self).spec_next_id() + 1,
            final(self).spec_session() == old(self).spec_session(),
    {
        let tag = self.generate_unique_custom_tag();
        let session = if is_streaming {
            self.stream_session_id()
        } else {
            None
        };
        ApiCommand::builder().command(command.to_owned()).arguments(args).custom_tag(
            Some(tag),
        ).stream_session_id(session).build()
    }

    /// Prepares a request: allocates the next tag, registers a channel for it
    /// (before anything is sent, so that no fast reply is lost) and returns the
    /// frame to send with the stream of the channel. A session-scoped request
    /// carries the session marker.
    pub fn send_api_command(
        &mut self,
        registry: &mut TagRegistry,
        command: &str,
        args: Option<Field>,
        session_scoped: bool,
    ) -> (r: (String, ResponseChannel<ResponseStream>))
        requires
            old(self).spec_next_id() < u64::MAX,
            old(registry).wf(),
            old(registry).spec_next_channel() < u64::MAX,
        ensures
            r.0@ == render_object(
                command_members(
                    CommandModel {
                        command: command@,
                        stream_session_id: if session_scoped {
                            old(self).spec_session()
                        } else {
                            None
                        },
                        custom_tag: Some(tag_text(old(self).spec_next_id() as nat)),
                        arguments: opt_field_view(args),
                    },
                ),
            ),
            r.1.spec_tag() == tag_text(old(self).spec_next_id() as nat),
            r.1.spec_channel() == old(registry).spec_next_channel(),
            final(registry).wf(),
            final(registry)@ == old(registry)@.insert(
                tag_text(old(self).spec_next_id() as nat),
                ChannelModel { channel: old(registry).spec_next_channel(), queue: Seq::empty() },
            ),
            final(registry).spec_next_channel() == old(registry).spec_next_channel() + 1,
            final(self).spec_next_id() == old(self).spec_next_id() + 1,
            final(self).spec_session() == old(self).spec_session(),
    {
        let cmd = self.build_command(command, args, session_scoped);
        let tag = match &cmd.custom_tag {
            Some(t) => t.clone(),
            None => String::new(),
        };
        let (_sink, stream) = registry.register(tag);
        (cmd.encode(), stream)
    }

    /// Prepares a login request with the given credentials.
    pub fn login_request(&mut self, registry: &mut TagRegistry, user_id: &str, password: &str) -> (r: (
        String,
        ResponseChannel<ResponseStream>,
    ))
        requires
            old(self).spec_next_id() < u64::MAX,
            old(registry).wf(),
            old(registry).spec_next_channel() < u64::MAX,
        ensures
            r.0@ == render_object(
                command_members(
                    CommandModel {
                        command: login_command(),
                        stream_session_id: None,
                        custom_tag: Some(tag_text(old(self).spec_next_id() as nat)),
                        arguments: Some(
                            FieldModel::Raw(render_object(login_members(user_id@, password@))),
                        ),
                    },
                ),
            ),
            r.1.spec_tag() == tag_text(old(self).spec_next_id() as nat),
            r.1.spec_channel() == old(registry).spec_next_channel(),
            final(registry).wf(),
            final(registry)@ == old(registry)@.insert(
                tag_text(old(self).spec_next_id() as nat),
                ChannelModel { channel: old(registry).spec_next_channel(), queue: Seq::empty() },
            ),
            final(registry).spec_next_channel() == old(registry).spec_next_channel() + 1,
            final(self).spec_next_id() == old(self).spec_next_id() + 1,
            final(self).spec_session() == old(self).spec_session(),
    {
        proof {
            reveal_strlit("login");
            assert("login"@ =~= login_command());
        }
        let args = LoginArg::new(user_id.to_owned(), password.to_owned());
        self.send_api_command(registry, "login", Some(args.to_field()), false)
    }

    /// Prepares a logout request.
    pub fn logout_request(&mut self, registry: &mut TagRegistry) -> (r: (String, ResponseChannel<ResponseStream>))
        requires
            old(self).spec_next_id() < u64::MAX,
            old(registry).wf(),
            old(registry).spec_next_channel() < u64::MAX,
        ensures
            r.0@ == render_object(
                command_members(
                    CommandModel {
                        command: logout_command(),
                        stream_session_id: None,
                        custom_tag: Some(tag_text(old(self).spec_next_id() as nat)),
                        arguments: None,
                    },
                ),
            ),
            r.1.spec_tag() == tag_text(old(self).spec_next_id() as nat),
            r.1.spec_channel() == old(registry).spec_next_channel(),
            final(registry).wf(),
            final(registry)@ == old(registry)@.insert(
                tag_text(old(self).spec_next_id() as nat),
                ChannelModel { channel: old(registry).spec_next_channel(), queue: Seq::empty() },
            ),
            final(registry).spec_next_channel() == old(registry).spec_next_channel() + 1,
            final(self).spec_next_id() == old(self).spec_next_id() + 1,
            final(self).spec_session() == old(self).spec_session(),
    {
        proof {
            reveal_strlit("logout");
            assert("logout"@ =~= logout_command());
        }
        self.send_api_command(registry, "logout", None, false)
    }

    /// Reads the reply of any request: the success or failure record, or why
    /// there is none.
    pub fn finish_invoke(reply: Option<ResponseInfo>) -> (r: Result<Result<CommandSuccess, CommandFailed>, XtbClientError>)
        ensures
            match reply {
                None => r matches Err(XtbClientError::NoResponseReceived),
                Some(info) => if info.status {
                    match session_marker(info.payload()) {
                        Some(sid) => r matches Ok(Ok(s)) && opt_view(s.stream_session_id) == sid
                            && opt_view(s.custom_tag) == opt_view(info.custom_tag) && present_data(
                            s.return_data,
                        ) == non_null(lookup(info.payload(), return_data_key())),
                        None => r matches Err(
                            XtbClientError::ParseResponseError(
                                ParseResponseError::DeserializationError(k),
                            ),
                        ) && k@ == stream_session_id_key(),
                    }
                } else {
                    match failure_fields(info.payload()) {
                        Ok((code, description)) => r matches Ok(Err(f)) && code_name(f.error_code)
                            == code && f.error_description@ == description,
                        Err(key) => r matches Err(
                            XtbClientError::ParseResponseError(
                                ParseResponseError::DeserializationError(k),
                            ),
                        ) && k@ == key,
                    }
                },
            },
    {
        match reply {
            None => Err(XtbClientError::NoResponseReceived),
            Some(info) => match info.into_result() {
                Ok(result) => Ok(result),
                Err(e) => Err(XtbClientError::ParseResponseError(e)),
            },
        }
    }

    /// Reads the reply of a login. On success the session marker is stored;
    /// a success without one is `MissingSessionMarker`, and a failure is
    /// `CommandFailed` with the venue's code and description.
    pub fn finish_login(&mut self, reply: Option<ResponseInfo>) -> (r: Result<(), XtbClientError>)
        ensures
            final(self).spec_next_id() == old(self).spec_next_id(),
            match reply {
                None => r matches Err(XtbClientError::NoResponseReceived) && final(self).spec_session()
                    == old(self).spec_session(),
                Some(info) => if info.status {
                    match session_marker(info.payload()) {
                        Some(Some(sid)) => r is Ok && final(self).spec_session() == Some(sid),
                        Some(None) => r matches Err(XtbClientError::MissingSessionMarker)
                            && final(self).spec_session() == old(self).spec_session(),
                        None => r matches Err(
                            XtbClientError::ParseResponseError(
                                ParseResponseError::DeserializationError(k),
                            ),
                        ) && k@ == stream_session_id_key() && final(self).spec_session()
                            == old(self).spec_session(),
                    }
                } else {
                    final(self).spec_session() == old(self).spec_session() && match failure_fields(
                        info.payload(),
                    ) {
                        Ok((code, description)) => r matches Err(XtbClientError::CommandFailed(f))
                            && code_name(f.error_code) == code && f.error_description@
                            == description,
                        Err(key) => r matches Err(
                            XtbClientError::ParseResponseError(
                                ParseResponseError::DeserializationError(k),
                            ),
                        ) && k@ == key,
                    }
                },
            },
    {
        match XtbClient::finish_invoke(reply) {
            Ok(Ok(success)) => match success.stream_session_id {
                Some(sid) => {
                    self.stream_session_id = Some(sid);
                    Ok(())
                },
                None => Err(XtbClientError::MissingSessionMarker),
            },
            Ok(Err(failure)) => Err(XtbClientError::CommandFailed(failure)),
            Err(e) => Err(e),
        }
    }

    /// Reads the reply of a logout: success, or the venue's failure, or why
    /// there is no reply.
    pub fn finish_logout(&self, reply: Option<ResponseInfo>) -> (r: Result<(), XtbClientError>)
        ensures
            match reply {
                None => r matches Err(XtbClientError::NoResponseReceived),
                Some(info) => if info.status {
                    match session_marker(info.payload()) {
                        Some(_) => r is Ok,
                        None => r matches Err(
                            XtbClientError::ParseResponseError(
                                ParseResponseError::DeserializationError(k),
                            ),
                        ) && k@ == stream_session_id_key(),
                    }
                } else {
                    match failure_fields(info.payload()) {
                        Ok((code, description)) => r matches Err(XtbClientError::CommandFailed(f))
                            && code_name(f.error_code) == code && f.error_description@
                            == description,
                        Err(key) => r matches Err(
                            XtbClientError::ParseResponseError(
                                ParseResponseError::DeserializationError(k),
                            ),
                        ) && k@ == key,
                    }
                },
            },
    {
        match XtbClient::finish_invoke(reply) {
            Ok(Ok(_)) => Ok(()),
            Ok(Err(failure)) => Err(XtbClientError::CommandFailed(failure)),
            Err(e) => Err(e),
        }
    }
}

/// The settings that a client is built from.
pub struct XtbClientBuilder {
    protocol: Option<String>,
    host: String,
    port: Option<u32>,
    api_endpoint: String,
    stream_api_endpoint: String,
}

/// The settings of a [`XtbClientBuilder`].
pub struct BuilderModel {
    pub protocol: Option<Seq<char>>,
    pub host: Seq<char>,
    pub port: Option<u32>,
    pub api_endpoint: Seq<char>,
    pub stream_api_endpoint: Seq<char>,
}

/// Why a client could not be built.
#[derive(Debug, PartialEq, Eq)]
pub enum XtbClientBuilderError {
    /// The address, given here, is not a URL.
    InvalidUrl(String),
}

#[verifier::external_type_specification]
#[verifier::external_body]
pub struct ExUrl(url::Url);

/// Whether `text` is a URL, as the `url` crate reads one.
pub uninterp spec fn is_url(text: Seq<char>) -> bool;

/// Relies on `url::Url::parse`: whether the text parses depends on the text alone.
#[verifier::external_body]
fn parse_url(text: &str) -> (r: Option<url::Url>)
    ensures
        r is Some == is_url(text@),
{
    url::Url::parse(text).ok()
}

/// The scheme used when none is set.
pub open spec fn default_protocol() -> Seq<char> {
    seq!['w', 's', 's']
}

/// The addresses of the command and the stream connections.
pub open spec fn builder_urls(b: BuilderModel) -> (Seq<char>, Seq<char>) {
    let protocol = match b.protocol {
        Some(p) => p,
        None => default_protocol(),
    };
    (
        url_text(protocol, b.host, b.port, b.api_endpoint),
        url_text(protocol, b.host, b.port, b.stream_api_endpoint),
    )
}

impl View for XtbClientBuilder {
    type V = BuilderModel;

    closed spec fn view(&self) -> BuilderModel {
        BuilderModel {
            protocol: opt_view(self.protocol),
            host: self.host@,
            port: self.port,
            api_endpoint: self.api_endpoint@,
            stream_api_endpoint: self.stream_api_endpoint@,
        }
    }
}

impl Default for XtbClientBuilder {
    /// No settings: no scheme, no port, and empty host and endpoints.
    fn default() -> (r: XtbClientBuilder)
        ensures
            r@ == (BuilderModel {
                protocol: None,
                host: Seq::empty(),
                port: None,
                api_endpoint: Seq::empty(),
                stream_api_endpoint: Seq::empty(),
            }),
    {
        XtbClientBuilder {
            protocol: None,
            host: String::new(),
            port: None,
            api_endpoint: String::new(),
            stream_api_endpoint: String::new(),
        }
    }
}

impl XtbClientBuilder {
    /// The demo venue: default scheme, the venue's host, no port.
    pub fn xtb_demo(self) -> (r: Self)
        ensures
            r@ == (BuilderModel {
                protocol: None,
                host: venue_host(),
                port: None,
                api_endpoint: demo_endpoint(),
                stream_api_endpoint: demo_stream_endpoint(),
            }),
    {
        self.protocol(None).host(venue_host_text()).port(None).api_endpoint(
            demo_endpoint_text(),
        ).stream_api_endpoint(demo_stream_endpoint_text())
    }

    /// The real venue: as the demo one, with the real endpoints.
    pub fn xtb_real(self) -> (r: Self)
        ensures
            r@ == (BuilderModel {
                protocol: None,
                host: venue_host(),
                port: None,
                api_endpoint: real_endpoint(),
                stream_api_endpoint: real_stream_endpoint(),
            }),
    {
        self.xtb_demo().api_endpoint(real_endpoint_text()).stream_api_endpoint(
            real_stream_endpoint_text(),
        )
    }

    pub fn protocol(self, val: Option<String>) -> (r: Self)
        ensures
            r@ == (BuilderModel { protocol: opt_view(val), ..self@ }),
    {
        let mut s = self;
        s.protocol = val;
        s
    }

    pub fn host(self, val: String) -> (r: Self)
        ensures
            r@ == (BuilderModel { host: val@, ..self@ }),
    {
        let mut s = self;
        s.host = val;
        s
    }

    pub fn port(self, val: Option<u32>) -> (r: Self)
        ensures
            r@ == (BuilderModel { port: val, ..self@ }),
    {
        let mut s = self;
        s.port = val;
        s
    }

    pub fn api_endpoint(self, val: String) -> (r: Self)
        ensures
            r@ == (BuilderModel { api_endpoint: val@, ..self@ }),
    {
        let mut s = self;
        s.api_endpoint = val;
        s
    }

    pub fn stream_api_endpoint(self, val: String) -> (r: Self)
        ensures
            r@ == (BuilderModel { stream_api_endpoint: val@, ..self@ }),
    {
        let mut s = self;
        s.stream_api_endpoint = val;
        s
    }

    /// The addresses of the command and the stream connections.
    pub fn urls(&self) -> (r: (String, String))
        ensures
            (r.0@, r.1@) == builder_urls(self@),
    {
        proof {
            reveal_strlit("wss");
        }
        let protocol = match &self.protocol {
            Some(p) => p.clone(),
            None => "wss".to_owned(),
        };
        let api = format_url(protocol.as_str(), self.host.as_str(), self.port, self.api_endpoint.as_str());
        let stream = format_url(
            protocol.as_str(),
            self.host.as_str(),
            self.port,
            self.stream_api_endpoint.as_str(),
        );
        (api, stream)
    }

    /// The URLs of both connections. The first address that is not a URL is
    /// reported, the command connection's first.
    pub fn endpoints(&self) -> (r: Result<(url::Url, url::Url), XtbClientBuilderError>)
        ensures
            r is Ok <==> is_url(builder_urls(self@).0) && is_url(builder_urls(self@).1),
            !is_url(builder_urls(self@).0) ==> (r matches Err(XtbClientBuilderError::InvalidUrl(u))
                && u@ == builder_urls(self@).0),
            is_url(builder_urls(self@).0) && !is_url(builder_urls(self@).1) ==> (r matches Err(
                XtbClientBuilderError::InvalidUrl(u),
            ) && u@ == builder_urls(self@).1),
    {
        let (api, stream) = self.urls();
        let api_url = match parse_url(api.as_str()) {
            Some(u) => u,
            None => return Err(XtbClientBuilderError::InvalidUrl(api)),
        };
        let stream_url = match parse_url(stream.as_str()) {
            Some(u) => u,
            None => return Err(XtbClientBuilderError::InvalidUrl(stream)),
        };
        Ok((api_url, stream_url))
    }
}

} // verus!
