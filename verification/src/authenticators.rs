//! The authentication capability the handshake consumes.
//!
//! An authenticator offers an optional protocol name, to match against the
//! name the server advertises in AUTHENTICATE, and produces an opaque token
//! for AUTH_RESPONSE. It must be duplicable without losing either: the
//! handshake duplicates it before asking for the name. How a concrete scheme
//! derives its token from credentials is a collaborator concern; the core
//! only forwards the bytes.

use vstd::prelude::*;

use crate::compression::opt_string_view;

verus! {

/// A database user's credentials.
#[derive(Clone, Debug)]
pub struct Credentials {
    /// The user's name.
    pub username: String,
    /// The user's password.
    pub password: String,
}

/// A credential scheme the handshake can drive: a name to match against the
/// server's advertised authenticator, and a token to answer the challenge
/// with.
pub trait Authenticator: Sized {
    /// The protocol name this scheme advertises, if any.
    spec fn spec_name(&self) -> Option<Seq<char>>;

    /// The token this scheme produces for AUTH_RESPONSE.
    spec fn spec_token(&self) -> Seq<u8>;

    /// Returns the advertised protocol name, or nothing if the scheme has
    /// none to offer.
    fn get_cassandra_name(&self) -> (r: Option<String>)
        ensures
            opt_string_view(r) == self.spec_name(),
    ;

    /// Produces the opaque token sent as AUTH_RESPONSE.
    fn get_auth_token(&self) -> (r: Vec<u8>)
        ensures
            r@ == self.spec_token(),
    ;

    /// Duplicates the scheme without losing its name or its token.
    fn duplicate(&self) -> (r: Self)
        ensures
            r.spec_name() == self.spec_name(),
            r.spec_token() == self.spec_token(),
    ;
}

/// The password scheme: advertises the class name Cassandra's password
/// authentication uses, and produces the SASL PLAIN-style token
/// `0x00 username 0x00 password` over the credential bytes.
#[derive(Debug)]
pub struct PasswordAuthenticator {
    username: Vec<u8>,
    password: Vec<u8>,
}

impl PasswordAuthenticator {
    /// Builds the scheme from a user's credentials, taking their UTF-8
    /// bytes as the token material.
    pub fn new(credentials: &Credentials) -> (r: Self)
        ensures
            r.spec_name() == Some("org.apache.cassandra.auth.PasswordAuthenticator"@),
    {
        PasswordAuthenticator {
            username: credentials.username.as_str().as_bytes_vec(),
            password: credentials.password.as_str().as_bytes_vec(),
        }
    }
}

impl Authenticator for PasswordAuthenticator {
    open spec fn spec_name(&self) -> Option<Seq<char>> {
        Some("org.apache.cassandra.auth.PasswordAuthenticator"@)
    }

    closed spec fn spec_token(&self) -> Seq<u8> {
        seq![0u8] + self.username@ + seq![0u8] + self.password@
    }

    fn get_cassandra_name(&self) -> (r: Option<String>) {
        Some(String::from_str("org.apache.cassandra.auth.PasswordAuthenticator"))
    }

    fn get_auth_token(&self) -> (r: Vec<u8>) {
        let mut token: Vec<u8> = Vec::new();
        token.push(0);
        token.extend_from_slice(self.username.as_slice());
        token.push(0);
        token.extend_from_slice(self.password.as_slice());
        proof {
            assert(token@ =~= self.spec_token());
        }
        token
    }

    fn duplicate(&self) -> (r: Self) {
        PasswordAuthenticator {
            username: vstd::slice::slice_to_vec(self.username.as_slice()),
            password: vstd::slice::slice_to_vec(self.password.as_slice()),
        }
    }
}

/// The no-op scheme for servers that require no authentication: it offers
/// no protocol name and an empty token.
#[derive(Clone, Copy, Debug)]
pub struct NoneAuthenticator;

impl Authenticator for NoneAuthenticator {
    open spec fn spec_name(&self) -> Option<Seq<char>> {
        None
    }

    open spec fn spec_token(&self) -> Seq<u8> {
        Seq::empty()
    }

    fn get_cassandra_name(&self) -> (r: Option<String>) {
        None
    }

    fn get_auth_token(&self) -> (r: Vec<u8>) {
        let token: Vec<u8> = Vec::new();
        proof {
            assert(token@ =~= self.spec_token());
        }
        token
    }

    fn duplicate(&self) -> (r: Self) {
        NoneAuthenticator
    }
}

} // verus!
