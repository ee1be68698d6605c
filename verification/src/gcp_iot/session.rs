//! The life of one session: connecting, the classification of disconnects,
//! and the rotation of the credential when the session has lapsed.

use crate::gcp_iot::credential::{
    mint, minted, text_of, Credential, CredentialError, CredentialView,
};
use crate::gcp_iot::{
    get_connect_ops, get_create_ops, is_connect_settings, ConnectSettings, CreateSettings,
    DeviceIdentity, DeviceIdentityView, SslSettings, SERVER_URI,
};
use vstd::prelude::*;

verus! {

/// The reason code with which the transport reports that the keep-alive
/// ceiling has passed.
pub const KEEP_ALIVE_TIMEOUT_CODE: u8 = 141;

/// Where a session stands.
#[derive(Clone, Copy, Debug, PartialEq, Eq, Structural)]
pub enum ConnectionState {
    Disconnected,
    Connecting,
    Connected,
    Reconnecting,
}

/// Why a session dropped, as far as the session manager tells reasons apart.
#[derive(Clone, Copy, Debug, PartialEq, Eq, Structural)]
pub enum DisconnectReason {
    /// The session lapsed at the endpoint's ceiling on inactivity.
    KeepAliveTimeout,
    /// Anything else. It may need an operator, so it is not repaired.
    Other,
}

/// Why a connection attempt failed.
#[derive(Clone, Copy, Debug, PartialEq, Eq, Structural)]
pub enum SessionError {
    AuthenticationRejected,
    TransportUnavailable,
}

/// What the session manager does about a disconnect.
#[derive(Clone, Copy, Debug, PartialEq, Eq, Structural)]
pub enum SessionAction {
    /// Nothing: the session was not connected when the report came.
    Ignore,
    /// Mint a new credential and reconnect with it.
    RotateCredential,
    /// Report the disconnect and leave the session down.
    ReportUnresolved,
}

/// Why a rotation gave no connection options.
#[derive(Clone, Copy, Debug, PartialEq, Eq, Structural)]
pub enum RotationError {
    /// The session is not waiting for a new credential.
    NotReconnecting,
    /// No credential could be minted.
    Credential(CredentialError),
}

impl SessionError {
    /// A refused connection is a rejected authentication where the endpoint
    /// answers with the return code for a bad user name or password, 4, or
    /// for a client that is not authorised, 5; every other failure is the
    /// transport's.
    pub open spec fn spec_from_connect_code(code: i32) -> SessionError {
        if code == 4 || code == 5 {
            SessionError::AuthenticationRejected
        } else {
            SessionError::TransportUnavailable
        }
    }

    /// Classifies the code with which a connection attempt failed.
    pub fn from_connect_code(code: i32) -> (r: SessionError)
        ensures
            r == Self::spec_from_connect_code(code),
    {
        if code == 4 || code == 5 {
            SessionError::AuthenticationRejected
        } else {
            SessionError::TransportUnavailable
        }
    }
}

impl DisconnectReason {
    pub open spec fn spec_from_code(code: u8) -> DisconnectReason {
        if code == KEEP_ALIVE_TIMEOUT_CODE {
            DisconnectReason::KeepAliveTimeout
        } else {
            DisconnectReason::Other
        }
    }

    /// Classifies the reason code of a disconnect report.
    pub fn from_code(code: u8) -> (r: DisconnectReason)
        ensures
            r == Self::spec_from_code(code),
    {
        if code == KEEP_ALIVE_TIMEOUT_CODE {
            DisconnectReason::KeepAliveTimeout
        } else {
            DisconnectReason::Other
        }
    }
}

impl ConnectionState {
    /// The state after a disconnect report, and what is done about it. Only
    /// a connected session accepts the report; only a keep-alive timeout is
    /// repaired.
    pub open spec fn after_disconnect(self, reason: DisconnectReason) -> (
        ConnectionState,
        SessionAction,
    ) {
        match (self, reason) {
            (ConnectionState::Connected, DisconnectReason::KeepAliveTimeout) => (
                ConnectionState::Reconnecting,
                SessionAction::RotateCredential,
            ),
            (ConnectionState::Connected, DisconnectReason::Other) => (
                ConnectionState::Disconnected,
                SessionAction::ReportUnresolved,
            ),
            _ => (self, SessionAction::Ignore),
        }
    }

    /// The state after the transport has reported how a connection attempt
    /// ended. Only a session with an attempt under way takes the report.
    pub open spec fn after_attempt(self, established: bool) -> ConnectionState {
        match self {
            ConnectionState::Connecting | ConnectionState::Reconnecting => if established {
                ConnectionState::Connected
            } else {
                ConnectionState::Disconnected
            },
            _ => self,
        }
    }
}

/// How many rotations a session in `state` starts when the disconnect
/// reports `reasons` arrive one after the other, with no connection attempt
/// completing in between.
pub open spec fn rotations_started(state: ConnectionState, reasons: Seq<DisconnectReason>) -> nat
    decreases reasons.len(),
{
    if reasons.len() == 0 {
        0
    } else {
        let (next, action) = state.after_disconnect(reasons[0]);
        let started: nat = if action == SessionAction::RotateCredential {
            1
        } else {
            0
        };
        started + rotations_started(next, reasons.skip(1))
    }
}

/// A session that is not connected starts no rotation, whatever is reported.
pub proof fn lemma_unconnected_session_never_rotates(
    state: ConnectionState,
    reasons: Seq<DisconnectReason>,
)
    requires
        state != ConnectionState::Connected,
    ensures
        rotations_started(state, reasons) == 0,
    decreases reasons.len(),
{
    if reasons.len() > 0 {
        lemma_unconnected_session_never_rotates(state, reasons.skip(1));
    }
}

/// A connected session that is told of a keep-alive timeout starts exactly
/// one rotation, however many further disconnects are reported before the
/// reconnect has completed.
pub proof fn lemma_timeout_rotates_exactly_once(further: Seq<DisconnectReason>)
    ensures
        rotations_started(
            ConnectionState::Connected,
            seq![DisconnectReason::KeepAliveTimeout] + further,
        ) == 1,
{
    let reasons = seq![DisconnectReason::KeepAliveTimeout] + further;
    assert(reasons[0] == DisconnectReason::KeepAliveTimeout);
    assert(reasons.skip(1) =~= further);
    lemma_unconnected_session_never_rotates(ConnectionState::Reconnecting, further);
}

/// A connected session that is told of any other disconnect starts no
/// rotation, then or on any later report.
pub proof fn lemma_other_disconnect_never_reconnects(further: Seq<DisconnectReason>)
    ensures
        rotations_started(ConnectionState::Connected, seq![DisconnectReason::Other] + further)
            == 0,
{
    let reasons = seq![DisconnectReason::Other] + further;
    assert(reasons[0] == DisconnectReason::Other);
    assert(reasons.skip(1) =~= further);
    lemma_unconnected_session_never_rotates(ConnectionState::Disconnected, further);
}

/// What a session holds, as plain values.
pub struct SessionView {
    pub identity: DeviceIdentityView,
    pub credential: CredentialView,
    pub trust_store: Seq<char>,
    pub private_key: Seq<char>,
    pub state: ConnectionState,
}

/// One authenticated session. Its state and its credential change only
/// through the methods below.
pub struct Session {
    identity: DeviceIdentity,
    credential: Credential,
    ssl: SslSettings,
    state: ConnectionState,
}

impl View for Session {
    type V = SessionView;

    closed spec fn view(&self) -> SessionView {
        SessionView {
            identity: self.identity@,
            credential: self.credential@,
            trust_store: self.ssl.trust_store@,
            private_key: self.ssl.private_key@,
            state: self.state,
        }
    }
}

impl Session {
    /// The security settings that every attempt of this session is made
    /// with.
    pub closed spec fn ssl(&self) -> SslSettings {
        self.ssl
    }

    /// Whether `options` are those of an attempt of this session with its
    /// present credential.
    pub open spec fn offers(&self, options: ConnectSettings) -> bool {
        is_connect_settings(options, self.ssl(), self@.credential.token)
    }

    /// Starts a session: the first connection attempt is under way, with
    /// `identity` as the client and `credential` as the password.
    pub fn connect(identity: DeviceIdentity, credential: Credential, ssl: SslSettings) -> (r:
        Session)
        ensures
            r@.identity == identity@,
            r@.credential == credential@,
            r@.state == ConnectionState::Connecting,
            r.ssl() == ssl,
    {
        Session { identity, credential, ssl, state: ConnectionState::Connecting }
    }

    pub fn state(&self) -> (r: ConnectionState)
        ensures
            r == self@.state,
    {
        self.state
    }

    pub fn identity(&self) -> (r: &DeviceIdentity)
        ensures
            r@ == self@.identity,
    {
        &self.identity
    }

    pub fn credential(&self) -> (r: &Credential)
        ensures
            r@ == self@.credential,
    {
        &self.credential
    }

    /// What the session's client is created with.
    pub fn create_options(&self) -> (r: CreateSettings)
        ensures
            r.server_uri@ == SERVER_URI@,
            r.client_id@ == self@.identity.client_id(),
    {
        get_create_ops(&self.identity)
    }

    /// What the attempt that is under way, or the next one, is made with.
    pub fn connect_options(&self) -> (r: ConnectSettings)
        ensures
            self.offers(r),
    {
        get_connect_ops(self.ssl.duplicate(), self.credential.token())
    }

    /// Takes the transport's report of how the attempt under way ended, and
    /// hands a failure on. A session with no attempt under way is left as it
    /// is.
    pub fn connection_result(&mut self, outcome: Result<(), SessionError>) -> (r: Result<
        (),
        SessionError,
    >)
        ensures
            r == outcome,
            final(self)@.state == old(self)@.state.after_attempt(outcome is Ok),
            final(self)@.identity == old(self)@.identity,
            final(self)@.credential == old(self)@.credential,
            final(self).ssl() == old(self).ssl(),
    {
        match self.state {
            ConnectionState::Connecting | ConnectionState::Reconnecting => {
                if outcome.is_ok() {
                    self.state = ConnectionState::Connected;
                } else {
                    self.state = ConnectionState::Disconnected;
                }
            },
            _ => {},
        }
        outcome
    }

    /// Takes the transport's report that the session dropped. A keep-alive
    /// timeout on a connected session starts one rotation; any other reason
    /// takes the session down for good; a session that is not connected does
    /// not accept the report.
    pub fn disconnected(&mut self, reason: DisconnectReason) -> (r: SessionAction)
        ensures
            (final(self)@.state, r) == old(self)@.state.after_disconnect(reason),
            final(self)@.identity == old(self)@.identity,
            final(self)@.credential == old(self)@.credential,
            final(self).ssl() == old(self).ssl(),
    {
        match self.state {
            ConnectionState::Connected => match reason {
                DisconnectReason::KeepAliveTimeout => {
                    self.state = ConnectionState::Reconnecting;
                    SessionAction::RotateCredential
                },
                DisconnectReason::Other => {
                    self.state = ConnectionState::Disconnected;
                    SessionAction::ReportUnresolved
                },
            },
            _ => SessionAction::Ignore,
        }
    }

    /// Completes a rotation with the outcome of minting. With a new
    /// credential the session takes it in place of the lapsed one and gives
    /// the options of the reconnect, to the same identity and endpoint; with
    /// none the session goes down. A session that is not reconnecting is
    /// left as it is.
    pub fn rotate_with(&mut self, outcome: Result<Credential, CredentialError>) -> (r: Result<
        ConnectSettings,
        RotationError,
    >)
        ensures
            final(self)@.identity == old(self)@.identity,
            final(self).ssl() == old(self).ssl(),
            old(self)@.state != ConnectionState::Reconnecting ==> {
                &&& r == Err::<ConnectSettings, RotationError>(RotationError::NotReconnecting)
                &&& final(self)@ == old(self)@
            },
            old(self)@.state == ConnectionState::Reconnecting ==> match outcome {
                Ok(fresh) => {
                    &&& r matches Ok(options)
                    &&& final(self).offers(options)
                    &&& final(self)@.credential == fresh@
                    &&& final(self)@.state == ConnectionState::Reconnecting
                },
                Err(e) => {
                    &&& r == Err::<ConnectSettings, RotationError>(RotationError::Credential(e))
                    &&& final(self)@.credential == old(self)@.credential
                    &&& final(self)@.state == ConnectionState::Disconnected
                },
            },
    {
        match self.state {
            ConnectionState::Reconnecting => match outcome {
                Ok(fresh) => {
                    self.credential = fresh;
                    Ok(self.connect_options())
                },
                Err(e) => {
                    self.state = ConnectionState::Disconnected;
                    Err(RotationError::Credential(e))
                },
            },
            _ => Err(RotationError::NotReconnecting),
        }
    }

    /// Rotates the credential of a reconnecting session: mints a new one at
    /// the moment of the call, with the key material `key_pem` (`None`: it
    /// could not be read), and completes the rotation with it. Which
    /// credential comes depends on the clock; whichever it is, it is the one
    /// that minting at its own issue time yields, and the options returned
    /// carry its token.
    pub fn rotate(&mut self, key_pem: Option<&str>) -> (r: Result<ConnectSettings, RotationError>)
        ensures
            final(self)@.identity == old(self)@.identity,
            final(self).ssl() == old(self).ssl(),
            old(self)@.state != ConnectionState::Reconnecting ==> {
                &&& r == Err::<ConnectSettings, RotationError>(RotationError::NotReconnecting)
                &&& final(self)@ == old(self)@
            },
            old(self)@.state == ConnectionState::Reconnecting ==> match r {
                Ok(options) => {
                    &&& final(self).offers(options)
                    &&& final(self)@.state == ConnectionState::Reconnecting
                    &&& key_pem is Some
                    &&& minted(
                        old(self)@.identity.project,
                        text_of(key_pem),
                        final(self)@.credential.issued_at,
                    ) == Ok::<CredentialView, CredentialError>(final(self)@.credential)
                },
                Err(e) => {
                    &&& e matches RotationError::Credential(c)
                    &&& (c == CredentialError::KeyUnavailable <==> key_pem is None)
                    &&& final(self)@.credential == old(self)@.credential
                    &&& final(self)@.state == ConnectionState::Disconnected
                },
            },
    {
        match self.state {
            ConnectionState::Reconnecting => {
                let outcome = mint(self.identity.project(), key_pem);
                self.rotate_with(outcome)
            },
            _ => Err(RotationError::NotReconnecting),
        }
    }
}

} // verus!
