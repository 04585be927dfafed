//! Who a request of the JSON API comes from: the bearer token is the id of
//! a registered device, and nothing else lets a request through.

use vstd::prelude::*;
use crate::client::Client;
use crate::db::DBManager;

verus! {

/// Status of the answer to a request that is not let through.
pub const STATUS_UNAUTHORIZED: u16 = 401;

/// Phrase of the answer to a request that is not let through.
pub const UNAUTHORIZED: &'static str = "Unauthorized";

/// The identity that a request was let through with.
#[derive(Debug)]
pub struct Claims {
    pub client_id: String,
}

impl Clone for Claims {
    fn clone(&self) -> (copy: Self)
        ensures
            copy == *self,
    {
        Claims { client_id: self.client_id.clone() }
    }
}

impl Claims {
    /// The claims of the device `client_id`.
    pub fn new(client_id: String) -> (claims: Self)
        ensures
            claims.client_id == client_id,
    {
        Claims { client_id }
    }

    /// The claims of a request that passed the guard; a request that carries
    /// none is answered with 401.
    pub fn from_request_parts(attached: Option<&Claims>) -> (claims: Result<
        Claims,
        (u16, &'static str),
    >)
        ensures
            match attached {
                Some(found) => claims == Ok::<Claims, (u16, &'static str)>(*found),
                None => claims == Err::<Claims, (u16, &'static str)>(
                    (STATUS_UNAUTHORIZED, UNAUTHORIZED),
                ),
            },
    {
        match attached {
            Some(found) => Ok(found.clone()),
            None => Err((STATUS_UNAUTHORIZED, UNAUTHORIZED)),
        }
    }
}

/// The guard in front of the protected routes.
#[derive(Debug)]
pub struct AuthGuard;

impl AuthGuard {
    /// Decides on a request once the registry was asked for its bearer
    /// token: a registered device passes with claims under its id, anything
    /// else is answered with 401.
    pub fn let_through(device: Option<Client>) -> (claims: Result<Claims, (u16, &'static str)>)
        ensures
            match device {
                Some(d) => claims matches Ok(c) && c.client_id == d.id,
                None => claims == Err::<Claims, (u16, &'static str)>(
                    (STATUS_UNAUTHORIZED, UNAUTHORIZED),
                ),
            },
    {
        match device {
            Some(d) => Ok(Claims::new(d.id)),
            None => Err((STATUS_UNAUTHORIZED, UNAUTHORIZED)),
        }
    }

    /// Decides on a request by its bearer token. The request passes exactly
    /// if it carries a token under which a device is registered; it then
    /// gets claims under the device's id. A request without a token, with an
    /// unknown one, or at a time when the registry cannot be asked, is
    /// answered with 401.
    pub fn from_request_parts(bearer: Option<&str>, db: &DBManager) -> (claims: Result<
        Claims,
        (u16, &'static str),
    >)
        requires
            db.wf(),
        ensures
            match claims {
                Ok(c) => {
                    &&& bearer matches Some(token)
                    &&& db.ready()
                    &&& db.devices().contains_key(token@)
                    &&& c.client_id == db.devices()[token@].id
                },
                Err(e) => {
                    &&& e == (STATUS_UNAUTHORIZED, UNAUTHORIZED)
                    &&& bearer matches Some(token) ==> !db.ready() || !db.devices().contains_key(
                        token@,
                    )
                },
            },
    {
        let token = match bearer {
            Some(token) => token,
            None => {
                return Err((STATUS_UNAUTHORIZED, UNAUTHORIZED));
            },
        };
        match Client::get_by_id(db, token) {
            Ok(device) => Self::let_through(device),
            Err(_) => Err((STATUS_UNAUTHORIZED, UNAUTHORIZED)),
        }
    }
}

} // verus!
