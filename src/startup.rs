//! The startup of a connection: TLS negotiation, the startup message,
//! authentication, and the parameters the server reports before it is ready.
use vstd::prelude::*;
use vstd::string::*;
use vstd::utf8::encode_utf8;
use crate::config::{Config, SslMode};
use crate::error::{DbError, Error};
use crate::frontend::{
    body_fits, cstr_ok, encode_password, encode_ssl_request, encode_startup, pair_bytes, pairs_ok,
    password_msg, ssl_request_msg, startup_body, startup_msg,
};
use crate::message::BackendMessage;

verus! {

/// Whether an `SSLRequest` is sent before startup.
pub open spec fn tls_requested(mode: SslMode) -> bool {
    mode != SslMode::Disable
}

/// Tells whether an `SSLRequest` is sent before startup.
pub fn wants_tls(mode: SslMode) -> (r: bool)
    ensures
        r == tls_requested(mode),
{
    match mode {
        SslMode::Disable => false,
        _ => true,
    }
}

/// The `SSLRequest` sent before startup when TLS is wanted.
pub fn ssl_request() -> (r: Vec<u8>)
    ensures
        r@ == ssl_request_msg(),
{
    encode_ssl_request()
}

/// What the one-byte answer to `SSLRequest` means: `S` upgrades the stream,
/// `N` continues in cleartext unless TLS is required.
pub open spec fn tls_answer(mode: SslMode, response: u8) -> Result<bool, Error> {
    if response == 0x53 {
        Ok(true)
    } else if response == 0x4e {
        if mode == SslMode::Require {
            Err(Error::Tls)
        } else {
            Ok(false)
        }
    } else {
        Err(Error::UnexpectedMessage)
    }
}

/// Reads the server's answer to `SSLRequest`: whether to upgrade to TLS.
pub fn tls_response(mode: SslMode, response: u8) -> (r: Result<bool, Error>)
    ensures
        r == tls_answer(mode, response),
{
    if response == 0x53 {
        Ok(true)
    } else if response == 0x4e {
        match mode {
            SslMode::Require => Err(Error::Tls),
            _ => Ok(false),
        }
    } else {
        Err(Error::UnexpectedMessage)
    }
}

/// The parameters of the startup message for `config`: the user, then the
/// database, the application name, the options and the replication mode
/// where set, then the
/// client encoding `UTF8`.
pub open spec fn startup_params_of(user: Seq<char>, config: Config) -> Seq<(Seq<char>, Seq<char>)> {
    let with_user = seq![("user"@, user)];
    let with_db = match config.dbname {
        Some(d) => with_user.push(("database"@, d@)),
        None => with_user,
    };
    let with_app = match config.application_name {
        Some(a) => with_db.push(("application_name"@, a@)),
        None => with_db,
    };
    let with_options = match config.options {
        Some(o) => with_app.push(("options"@, o@)),
        None => with_app,
    };
    let with_replication = match config.replication {
        Some(m) => with_options.push(("replication"@, m@)),
        None => with_options,
    };
    with_replication.push(("client_encoding"@, "UTF8"@))
}

/// The views of the keys and values of `ps`.
pub open spec fn pair_views(ps: Seq<(String, String)>) -> Seq<(Seq<char>, Seq<char>)> {
    ps.map_values(|p: (String, String)| (p.0@, p.1@))
}

fn push_pair(ps: &mut Vec<(String, String)>, key: &str, value: &String)
    ensures
        pair_views(final(ps)@) == pair_views(old(ps)@).push((key@, value@)),
{
    ps.push((String::from_str(key), value.clone()));
    assert(pair_views(ps@) =~= pair_views(old(ps)@).push((key@, value@)));
}

/// The startup message for `config`; a missing user is a configuration
/// error.
pub fn startup_request(config: &Config) -> (r: Result<Vec<u8>, Error>)
    ensures
        config.user is None ==> (r matches Err(Error::Config(m)) && m@ == "user missing"@),
        config.user matches Some(u) ==> exists|ps: Seq<(String, String)>|
            #![trigger pair_views(ps)]
            pair_views(ps) == startup_params_of(u@, *config) && (r.is_ok() == (pairs_ok(
                pair_bytes(ps),
            ) && body_fits(startup_body(pair_bytes(ps)).len()))) && (r matches Ok(b) ==> b@
                == startup_msg(pair_bytes(ps))) && (r matches Err(e) ==> e is Encode),
{
    let user = match &config.user {
        Some(u) => u,
        None => return Err(Error::Config(String::from_str("user missing"))),
    };
    let mut ps: Vec<(String, String)> = Vec::new();
    push_pair(&mut ps, "user", user);
    assert(pair_views(ps@) =~= seq![("user"@, user@)]);
    if let Some(d) = &config.dbname {
        push_pair(&mut ps, "database", d);
    }
    if let Some(a) = &config.application_name {
        push_pair(&mut ps, "application_name", a);
    }
    if let Some(o) = &config.options {
        push_pair(&mut ps, "options", o);
    }
    if let Some(m) = &config.replication {
        push_pair(&mut ps, "replication", m);
    }
    let utf8 = String::from_str("UTF8");
    push_pair(&mut ps, "client_encoding", &utf8);
    match encode_startup(&ps) {
        Some(b) => Ok(b),
        None => Err(Error::Encode),
    }
}

/// The password that MD5 authentication sends: `md5`, then the hex digest of
/// the hex digest of password and user, followed by the salt.
pub uninterp spec fn md5_password(user: Seq<u8>, password: Seq<u8>, salt: Seq<u8>) -> Seq<char>;

/// Relies on postgres_protocol::authentication::md5_hash, which computes the
/// MD5 password from the user, the password and the salt alone.
#[verifier::external_body]
fn md5_hash(user: &[u8], password: &[u8], salt: [u8; 4]) -> (r: String)
    ensures
        r@ == md5_password(user@, password@, salt@),
{
    postgres_protocol::authentication::md5_hash(user, password, salt)
}

/// An authentication request of the server.
#[derive(Debug)]
pub enum AuthRequest {
    /// Authentication succeeded.
    Success,
    CleartextPassword,
    /// MD5 with this salt.
    Md5Password([u8; 4]),
    /// SASL with these mechanisms.
    Sasl(Vec<String>),
    /// A method the client does not support.
    Other,
}

/// Whether channel binding is used in SCRAM authentication.
#[derive(Debug, Clone, Copy, PartialEq, Eq, Structural)]
pub enum ChannelBinding {
    Disable,
    Prefer,
    Require,
}

/// What the client does about an authentication request.
#[derive(Debug)]
pub enum AuthAction {
    /// Authentication is complete.
    Done,
    /// Send this message and await the next request.
    Send(Vec<u8>),
    /// Run the SCRAM-SHA-256 exchange, with or without channel binding.
    Scram { channel_binding: bool },
}

/// Whether `ms` offers the mechanism `m`.
pub open spec fn offers(ms: Seq<String>, m: Seq<char>) -> bool {
    exists|i: int| 0 <= i < ms.len() && #[trigger] ms[i]@ == m
}

/// The SCRAM variant chosen for the offered mechanisms: with channel binding
/// where it is offered, the TLS stream can provide it and it is not
/// disabled; without it where plain SCRAM is offered and binding is not
/// required; otherwise authentication fails.
pub open spec fn scram_choice(ms: Seq<String>, binding: ChannelBinding, tls_binding: bool) -> Result<
    bool,
    Error,
> {
    if offers(ms, "SCRAM-SHA-256-PLUS"@) && tls_binding && binding != ChannelBinding::Disable {
        Ok(true)
    } else if offers(ms, "SCRAM-SHA-256"@) && binding != ChannelBinding::Require {
        Ok(false)
    } else {
        Err(Error::Authentication)
    }
}

fn has_mechanism(ms: &Vec<String>, m: &str) -> (r: bool)
    ensures
        r == offers(ms@, m@),
{
    let mut i: usize = 0;
    while i < ms.len()
        invariant
            i <= ms@.len(),
            forall|j: int| 0 <= j < i ==> ms@[j]@ != m@,
        decreases ms@.len() - i,
    {
        let wanted = String::from_str(m);
        if ms[i] == wanted {
            return true;
        }
        i = i + 1;
    }
    false
}

/// The password of `password`, or a configuration error where there is none.
fn password_reply(password: Option<&[u8]>) -> (r: Result<Vec<u8>, Error>)
    ensures
        match password {
            None => r matches Err(Error::Config(m)) && m@ == "password missing"@,
            Some(p) => (r.is_ok() == (cstr_ok(p@) && body_fits(p@.len() + 1))) && (r matches Ok(b)
                ==> b@ == password_msg(p@)) && (r matches Err(e) ==> e is Encode),
        },
{
    match password {
        None => Err(Error::Config(String::from_str("password missing"))),
        Some(p) => password_message(p),
    }
}

/// The `PasswordMessage` carrying `password`, as sent for cleartext and MD5
/// authentication.
pub fn password_message(password: &[u8]) -> (r: Result<Vec<u8>, Error>)
    ensures
        r.is_ok() == (cstr_ok(password@) && body_fits(password@.len() + 1)),
        r matches Ok(b) ==> b@ == password_msg(password@),
        r matches Err(e) ==> e is Encode,
{
    match encode_password(password) {
        Some(b) => Ok(b),
        None => Err(Error::Encode),
    }
}

/// Answers an authentication request. Cleartext sends the password as it
/// is, MD5 sends it hashed with the user and the salt, SASL picks the SCRAM
/// variant, and any other method fails.
pub fn authenticate(
    request: AuthRequest,
    user: &str,
    password: Option<&[u8]>,
    binding: ChannelBinding,
    tls_binding: bool,
) -> (r: Result<AuthAction, Error>)
    ensures
        match request {
            AuthRequest::Success => r matches Ok(AuthAction::Done),
            AuthRequest::CleartextPassword => match password {
                None => r matches Err(Error::Config(m)) && m@ == "password missing"@,
                Some(p) => (r.is_ok() == (cstr_ok(p@) && body_fits(p@.len() + 1))) && (r matches Ok(
                    a,
                ) ==> (a matches AuthAction::Send(b) && b@ == password_msg(p@))),
            },
            AuthRequest::Md5Password(salt) => match password {
                None => r matches Err(Error::Config(m)) && m@ == "password missing"@,
                Some(p) => {
                    let hashed = encode_utf8(md5_password(user.spec_bytes(), p@, salt@));
                    (r.is_ok() == (cstr_ok(hashed) && body_fits(hashed.len() + 1))) && (r matches Ok(
                        a,
                    ) ==> (a matches AuthAction::Send(b) && b@ == password_msg(hashed)))
                },
            },
            AuthRequest::Sasl(ms) => match scram_choice(ms@, binding, tls_binding) {
                Ok(cb) => r matches Ok(AuthAction::Scram { channel_binding }) && channel_binding
                    == cb,
                Err(e) => r == Result::<AuthAction, Error>::Err(e),
            },
            AuthRequest::Other => r matches Err(Error::Authentication),
        },
{
    match request {
        AuthRequest::Success => Ok(AuthAction::Done),
        AuthRequest::CleartextPassword => match password_reply(password) {
            Ok(b) => Ok(AuthAction::Send(b)),
            Err(e) => Err(e),
        },
        AuthRequest::Md5Password(salt) => match password {
            None => Err(Error::Config(String::from_str("password missing"))),
            Some(p) => {
                let hashed = md5_hash(user.as_bytes(), p, salt);
                match password_message(hashed.as_str().as_bytes()) {
                    Ok(b) => Ok(AuthAction::Send(b)),
                    Err(e) => Err(e),
                }
            },
        },
        AuthRequest::Sasl(ms) => {
            let plus = has_mechanism(&ms, "SCRAM-SHA-256-PLUS");
            let plain = has_mechanism(&ms, "SCRAM-SHA-256");
            let disabled = match binding {
                ChannelBinding::Disable => true,
                _ => false,
            };
            let required = match binding {
                ChannelBinding::Require => true,
                _ => false,
            };
            if plus && tls_binding && !disabled {
                Ok(AuthAction::Scram { channel_binding: true })
            } else if plain && !required {
                Ok(AuthAction::Scram { channel_binding: false })
            } else {
                Err(Error::Authentication)
            }
        },
        AuthRequest::Other => Err(Error::Authentication),
    }
}

/// What the server reports between authentication and readiness.
pub struct ReadyPhase {
    /// The server parameters, in the order reported.
    pub parameters: Vec<(String, String)>,
    /// The backend's process id and secret key.
    pub key: Option<(i32, i32)>,
}

impl ReadyPhase {
    pub fn new() -> (r: ReadyPhase)
        ensures
            r.parameters@.len() == 0,
            r.key is None,
    {
        ReadyPhase { parameters: Vec::new(), key: None }
    }

    /// Consumes a message after authentication: parameters and the key are
    /// recorded, notices pass, and `ReadyForQuery` ends the startup
    /// (`Ok(true)`).
    pub fn on_message(&mut self, m: BackendMessage) -> (r: Result<bool, Error>)
        ensures
            match m {
                BackendMessage::ParameterStatus { name, value } => r == Result::<bool, Error>::Ok(
                    false) && final(self).parameters@ == old(self).parameters@.push((name, value))
                    && final(self).key == old(self).key,
                BackendMessage::BackendKeyData { process_id, secret_key } => r == Result::<
                    bool,
                    Error,
                >::Ok(false) && final(self).key == Some((process_id, secret_key)) && final(
                    self).parameters == old(self).parameters,
                BackendMessage::NoticeResponse(_) => r == Result::<bool, Error>::Ok(false) && *final(
                    self) == *old(self),
                BackendMessage::ReadyForQuery(_) => r == Result::<bool, Error>::Ok(true) && *final(
                    self) == *old(self),
                BackendMessage::ErrorResponse(e) => r == Result::<bool, Error>::Err(Error::Db(e))
                    && *final(self) == *old(self),
                _ => r == Result::<bool, Error>::Err(Error::UnexpectedMessage) && *final(self)
                    == *old(self),
            },
    {
        match m {
            BackendMessage::ParameterStatus { name, value } => {
                self.parameters.push((name, value));
                Ok(false)
            },
            BackendMessage::BackendKeyData { process_id, secret_key } => {
                self.key = Some((process_id, secret_key));
                Ok(false)
            },
            BackendMessage::NoticeResponse(_) => Ok(false),
            BackendMessage::ReadyForQuery(_) => Ok(true),
            BackendMessage::ErrorResponse(e) => Err(Error::Db(e)),
            _ => Err(Error::UnexpectedMessage),
        }
    }
}

} // verus!
