//! The presence-service status update: the authorised PATCH that carries an encoded
//! settings payload, and the decision on its reply.
use vstd::prelude::*;
use base64::Engine;
use crate::json::{json_quoted, quote_json};

verus! {

/// The endpoint that takes the encoded user settings.
pub const PROTO_SETTINGS_URL: &'static str = "https://discord.com/api/v9/users/@me/settings-proto/1";

/// The standard base64 text (with padding) of some bytes.
pub uninterp spec fn base64_of(bytes: Seq<u8>) -> Seq<char>;

/// Relies on `base64::engine::general_purpose::STANDARD.encode`: the padded standard
/// base64 text of the bytes, four characters per started group of three bytes. Its
/// length computation overflows only past half the address space.
#[verifier::external_body]
fn encode_base64(bytes: &Vec<u8>) -> (r: String)
    requires
        bytes@.len() <= usize::MAX / 2,
    ensures
        r@ == base64_of(bytes@),
        r@.len() == 4 * ((bytes@.len() + 2) / 3),
{
    base64::engine::general_purpose::STANDARD.encode(bytes)
}

/// A failure of the status update.
#[derive(Debug, Clone, PartialEq, Eq)]
pub enum Error {
    /// The service refused the update; holds its reply body.
    Unknown(String),
}

/// A PATCH to send: `body` (JSON) to `url`, with `authorization` as the header value.
#[derive(Debug, Clone, PartialEq, Eq)]
pub struct StatusUpdate {
    pub url: String,
    pub authorization: String,
    pub body: String,
}

/// The JSON body that carries an encoded settings payload.
pub open spec fn settings_body(settings: Seq<u8>) -> Seq<char> {
    "{\"settings\":"@ + json_quoted(base64_of(settings)) + "}"@
}

/// A client of the presence service, holding the account's token.
#[derive(Debug)]
pub struct Api {
    token: String,
}

impl View for Api {
    type V = Seq<char>;

    closed spec fn view(&self) -> Seq<char> {
        self.token@
    }
}

impl Api {
    /// A client that authorises with `token`.
    pub fn new(token: &str) -> (r: Api)
        ensures
            r@ == token@,
    {
        Api { token: String::from_str(token) }
    }

    /// The update that sets the status to what the encoded user-settings payload
    /// `settings` holds: its base64 text in a JSON object, sent with the token.
    pub fn set_status(&self, settings: &Vec<u8>) -> (r: StatusUpdate)
        requires
            settings@.len() <= usize::MAX / 2,
        ensures
            r.url@ == PROTO_SETTINGS_URL@,
            r.authorization@ == self@,
            r.body@ == settings_body(settings@),
    {
        let encoded = encode_base64(settings);
        let mut body = String::from_str("{\"settings\":");
        body.append(quote_json(encoded.as_str()).as_str());
        body.append("}");
        assert(body@ =~= settings_body(settings@));
        StatusUpdate {
            url: String::from_str(PROTO_SETTINGS_URL),
            authorization: self.token.clone(),
            body,
        }
    }

    /// Decides the reply to a status update: success when the status code reports it,
    /// else `Unknown` with the reply body.
    pub fn status_reply(success: bool, body: String) -> (r: Result<(), Error>)
        ensures
            r == (if success {
                Ok::<(), Error>(())
            } else {
                Err(Error::Unknown(body))
            }),
    {
        if success {
            Ok(())
        } else {
            Err(Error::Unknown(body))
        }
    }
}

} // verus!
