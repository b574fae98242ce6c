//! Outgoing command envelopes: their builder, their encoding as a JSON object,
//! and the reading of such an object back into an envelope.

use vstd::prelude::*;
use crate::json::{
    lemma_lookup_append, lookup, opt_view, parsed_object, read_optional_text, render_object,
    Field, FieldModel, JsonObject, Members,
};
use crate::wire::{
    arguments_key, arguments_name, command_key, command_name, custom_tag_key, custom_tag_name,
    password_key, password_name, stream_session_id_key, stream_session_id_name, user_id_key,
    user_id_name,
};

verus! {

/// A command envelope: the command name, its optional arguments, the optional
/// correlation tag and the optional session marker.
pub struct ApiCommand<A> {
    pub command: String,
    pub stream_session_id: Option<String>,
    pub custom_tag: Option<String>,
    pub arguments: Option<A>,
}

/// The mathematical value of a command envelope whose arguments are a [`Field`].
pub struct CommandModel {
    pub command: Seq<char>,
    pub stream_session_id: Option<Seq<char>>,
    pub custom_tag: Option<Seq<char>>,
    pub arguments: Option<FieldModel>,
}

pub open spec fn opt_field_view(f: Option<Field>) -> Option<FieldModel> {
    match f {
        Some(v) => Some(v@),
        None => None,
    }
}

/// A member that is written only when its value is present.
pub open spec fn optional_member(key: Seq<char>, v: Option<FieldModel>) -> Members {
    match v {
        Some(f) => seq![(key, f)],
        None => Seq::empty(),
    }
}

pub open spec fn text_value(v: Option<Seq<char>>) -> Option<FieldModel> {
    match v {
        Some(t) => Some(FieldModel::Text(t)),
        None => None,
    }
}

/// The members of an encoded envelope: the command name, then the session
/// marker, the tag and the arguments, each only when present.
pub open spec fn command_members(c: CommandModel) -> Members {
    seq![(command_key(), FieldModel::Text(c.command))] + optional_member(
        stream_session_id_key(),
        text_value(c.stream_session_id),
    ) + optional_member(custom_tag_key(), text_value(c.custom_tag)) + optional_member(
        arguments_key(),
        c.arguments,
    )
}

/// The envelope that an object's members describe: the command name must be a
/// string; the session marker and the tag must be absent, null or a string;
/// the arguments are whatever value is there.
pub open spec fn decode_command(m: Members) -> Option<CommandModel> {
    match (
        lookup(m, command_key()),
        read_optional_text(lookup(m, stream_session_id_key())),
        read_optional_text(lookup(m, custom_tag_key())),
    ) {
        (Some(FieldModel::Text(c)), Some(sid), Some(tag)) => Some(
            CommandModel {
                command: c,
                stream_session_id: sid,
                custom_tag: tag,
                arguments: lookup(m, arguments_key()),
            },
        ),
        _ => None,
    }
}

proof fn lemma_lookup_optional(key: Seq<char>, v: Option<FieldModel>, other: Seq<char>)
    ensures
        lookup(optional_member(key, v), other) == if key == other {
            v
        } else {
            None
        },
{
    match v {
        Some(f) => {
            let m = optional_member(key, v);
            assert(m.drop_first() =~= Seq::<(Seq<char>, FieldModel)>::empty());
            assert(lookup(m.drop_first(), other) is None);
        },
        None => {},
    }
}

/// Reading an encoded envelope gives back the envelope: its command name, tag,
/// session marker and arguments.
pub proof fn lemma_command_round_trip(c: CommandModel)
    ensures
        decode_command(command_members(c)) == Some(c),
{
    lemma_lookup_in_envelope(c, command_key());
    lemma_lookup_in_envelope(c, stream_session_id_key());
    lemma_lookup_in_envelope(c, custom_tag_key());
    lemma_lookup_in_envelope(c, arguments_key());
}

proof fn lemma_lookup_in_envelope(c: CommandModel, k: Seq<char>)
    ensures
        lookup(command_members(c), k) == if k == command_key() {
            Some(FieldModel::Text(c.command))
        } else if k == stream_session_id_key() {
            text_value(c.stream_session_id)
        } else if k == custom_tag_key() {
            text_value(c.custom_tag)
        } else if k == arguments_key() {
            c.arguments
        } else {
            None
        },
{
    let head = seq![(command_key(), FieldModel::Text(c.command))];
    let sid = optional_member(stream_session_id_key(), text_value(c.stream_session_id));
    let tag = optional_member(custom_tag_key(), text_value(c.custom_tag));
    let args = optional_member(arguments_key(), c.arguments);
    assert(head.drop_first() =~= Seq::<(Seq<char>, FieldModel)>::empty());
    assert(lookup(head.drop_first(), k) is None);
    assert(command_members(c) == head + sid + tag + args);
    assert(command_key() != stream_session_id_key()) by {
        assert(command_key()[0] != stream_session_id_key()[0]);
    }
    assert(command_key() != custom_tag_key()) by {
        assert(command_key()[1] != custom_tag_key()[1]);
    }
    assert(command_key() != arguments_key()) by {
        assert(command_key()[0] != arguments_key()[0]);
    }
    assert(stream_session_id_key() != custom_tag_key()) by {
        assert(stream_session_id_key()[0] != custom_tag_key()[0]);
    }
    assert(stream_session_id_key() != arguments_key()) by {
        assert(stream_session_id_key()[0] != arguments_key()[0]);
    }
    assert(custom_tag_key() != arguments_key()) by {
        assert(custom_tag_key()[0] != arguments_key()[0]);
    }
    lemma_lookup_append(head + sid + tag, args, k);
    lemma_lookup_append(head + sid, tag, k);
    lemma_lookup_append(head, sid, k);
    lemma_lookup_optional(stream_session_id_key(), text_value(c.stream_session_id), k);
    lemma_lookup_optional(custom_tag_key(), text_value(c.custom_tag), k);
    lemma_lookup_optional(arguments_key(), c.arguments, k);
}

impl<A> ApiCommand<A> {
    /// A builder that starts from an empty command name and no optional parts.
    pub fn builder() -> (r: ApiCommandBuilder<A>)
        ensures
            r.spec_command().command@ == Seq::<char>::empty(),
            r.spec_command().stream_session_id is None,
            r.spec_command().custom_tag is None,
            r.spec_command().arguments is None,
    {
        ApiCommandBuilder {
            command: ApiCommand {
                command: String::new(),
                stream_session_id: None,
                custom_tag: None,
                arguments: None,
            },
        }
    }
}

/// Builds a command envelope part by part.
pub struct ApiCommandBuilder<A> {
    command: ApiCommand<A>,
}

impl<A> ApiCommandBuilder<A> {
    /// The envelope built so far.
    pub closed spec fn spec_command(&self) -> ApiCommand<A> {
        self.command
    }

    pub fn command(self, command: String) -> (r: Self)
        ensures
            r.spec_command() == (ApiCommand { command, ..self.spec_command() }),
    {
        let mut s = self;
        s.command.command = command;
        s
    }

    pub fn stream_session_id(self, stream_session_id: Option<String>) -> (r: Self)
        ensures
            r.spec_command() == (ApiCommand { stream_session_id, ..self.spec_command() }),
    {
        let mut s = self;
        s.command.stream_session_id = stream_session_id;
        s
    }

    pub fn custom_tag(self, custom_tag: Option<String>) -> (r: Self)
        ensures
            r.spec_command() == (ApiCommand { custom_tag, ..self.spec_command() }),
    {
        let mut s = self;
        s.command.custom_tag = custom_tag;
        s
    }

    pub fn arguments(self, arguments: Option<A>) -> (r: Self)
        ensures
            r.spec_command() == (ApiCommand { arguments, ..self.spec_command() }),
    {
        let mut s = self;
        s.command.arguments = arguments;
        s
    }

    /// The built envelope.
    pub fn build(self) -> (r: ApiCommand<A>)
        ensures
            r == self.spec_command(),
    {
        self.command
    }
}

impl ApiCommand<Field> {
    pub open spec fn model(&self) -> CommandModel {
        CommandModel {
            command: self.command@,
            stream_session_id: opt_view(self.stream_session_id),
            custom_tag: opt_view(self.custom_tag),
            arguments: opt_field_view(self.arguments),
        }
    }

    /// The envelope as a JSON object; absent parts are left out, never written as null.
    pub fn to_object(&self) -> (r: JsonObject)
        ensures
            r@ == command_members(self.model()),
    {
        let mut o = JsonObject::new();
        o.push(command_name().to_owned(), Field::Text(self.command.clone()));
        let ghost m1 = o@;
        if let Some(s) = &self.stream_session_id {
            o.push(stream_session_id_name().to_owned(), Field::Text(s.clone()));
        }
        let ghost m2 = o@;
        if let Some(t) = &self.custom_tag {
            o.push(custom_tag_name().to_owned(), Field::Text(t.clone()));
        }
        let ghost m3 = o@;
        if let Some(a) = &self.arguments {
            o.push(arguments_name().to_owned(), a.duplicate());
        }
        proof {
            let c = self.model();
            assert(m1 =~= seq![(command_key(), FieldModel::Text(c.command))]);
            assert(m2 =~= m1 + optional_member(stream_session_id_key(), text_value(c.stream_session_id)));
            assert(m3 =~= m2 + optional_member(custom_tag_key(), text_value(c.custom_tag)));
            assert(o@ =~= m3 + optional_member(arguments_key(), c.arguments));
        }
        o
    }

    /// The JSON text of the envelope, as sent on the wire.
    pub fn encode(&self) -> (r: String)
        ensures
            r@ == render_object(command_members(self.model())),
    {
        self.to_object().render()
    }

    /// The envelope that an object describes (see [`decode_command`]).
    pub fn from_object(o: &JsonObject) -> (r: Option<ApiCommand<Field>>)
        ensures
            r matches Some(c) ==> decode_command(o@) == Some(c.model()),
            r is None ==> decode_command(o@) is None,
    {
        let command = match o.get(command_name()) {
            Some(Field::Text(c)) => c.clone(),
            _ => return None,
        };
        let stream_session_id = match o.get_optional_text(stream_session_id_name()) {
            Some(s) => s,
            None => return None,
        };
        let custom_tag = match o.get_optional_text(custom_tag_name()) {
            Some(t) => t,
            None => return None,
        };
        let arguments = match o.get(arguments_name()) {
            Some(a) => Some(a.duplicate()),
            None => None,
        };
        Some(ApiCommand { command, stream_session_id, custom_tag, arguments })
    }

    /// Reads an envelope from JSON text: `None` when the text is not a JSON
    /// object or the object is not an envelope.
    pub fn decode(text: &str) -> (r: Option<ApiCommand<Field>>)
        ensures
            r matches Some(c) ==> (parsed_object(text@) matches Some(m) && decode_command(m) == Some(
                c.model(),
            )),
            r is None ==> (parsed_object(text@) matches Some(m) ==> decode_command(m) is None),
    {
        match JsonObject::parse(text) {
            Some(o) => ApiCommand::from_object(&o),
            None => None,
        }
    }
}

/// The arguments of a login request.
pub struct LoginArg {
    user_id: String,
    password: String,
}

/// The members of the arguments of a login request.
pub open spec fn login_members(user_id: Seq<char>, password: Seq<char>) -> Members {
    seq![(user_id_key(), FieldModel::Text(user_id)), (password_key(), FieldModel::Text(password))]
}

impl LoginArg {
    pub fn new(user_id: String, password: String) -> (r: LoginArg)
        ensures
            r.spec_user_id() == user_id@,
            r.spec_password() == password@,
    {
        LoginArg { user_id, password }
    }

    pub closed spec fn spec_user_id(&self) -> Seq<char> {
        self.user_id@
    }

    pub closed spec fn spec_password(&self) -> Seq<char> {
        self.password@
    }

    /// The arguments as a nested JSON object: `userId`, then `password`.
    pub fn to_field(&self) -> (r: Field)
        ensures
            r@ == FieldModel::Raw(render_object(login_members(self.spec_user_id(), self.spec_password()))),
    {
        let mut o = JsonObject::new();
        o.push(user_id_name().to_owned(), Field::Text(self.user_id.clone()));
        o.push(password_name().to_owned(), Field::Text(self.password.clone()));
        assert(o@ =~= login_members(self.spec_user_id(), self.spec_password()));
        Field::Raw(o.render())
    }
}

/// The credentials of a login.
pub struct LoginArgs {
    pub user_id: String,
    pub password: String,
}

impl LoginArgs {
    /// The request arguments that carry these credentials.
    pub fn to_login_arg(&self) -> (r: LoginArg)
        ensures
            r.spec_user_id() == self.user_id@,
            r.spec_password() == self.password@,
    {
        LoginArg::new(self.user_id.clone(), self.password.clone())
    }
}

/// What a successful login returns besides the session marker: nothing.
pub struct LoginResponse {}

} // verus!
