//! Minting of the time-bounded credential that a session authenticates with.

use crate::utils::read_clock;
use vstd::prelude::*;

verus! {

/// For how many seconds after its issue time a credential is valid.
pub const TOKEN_LIFETIME_SECS: u64 = 86_400;

/// Why no credential could be minted.
#[derive(Clone, Copy, Debug, PartialEq, Eq, Structural)]
pub enum CredentialError {
    /// The private-key material could not be read.
    KeyUnavailable,
    /// The token could not be constructed from the key and the claims.
    SigningFailed,
}

/// The ES256-signed token that `google_cloud_iot_jwt` builds for the audience
/// `project`, with the private key `key_pem` and the issue time `issued_at`;
/// `None` where it builds none.
pub uninterp spec fn jwt_es256(project: Seq<char>, key_pem: Seq<char>, issued_at: usize) -> Option<
    Seq<char>,
>;

/// `google_cloud_iot_jwt::create_google_jwt_es256`. It signs with the
/// deterministic nonce of RFC 6979, so the token is a function of the three
/// arguments alone; the contract gives the outcome its name, `jwt_es256`, and
/// claims nothing else of it. The crate adds the lifetime to the issue time
/// without a check, so an issue time that leaves no room for it is left out.
/// (The signing call itself would panic if the nonce or the signature came
/// out as zero, which no known input brings about.)
#[verifier::external_body]
fn create_jwt(project: &str, key_pem: &str, issued_at: usize) -> (token: Option<String>)
    requires
        issued_at + TOKEN_LIFETIME_SECS <= usize::MAX,
    ensures
        match token {
            Some(t) => jwt_es256(project@, key_pem@, issued_at) == Some(t@),
            None => jwt_es256(project@, key_pem@, issued_at) is None,
        },
{
    match google_cloud_iot_jwt::create_google_jwt_es256(project, key_pem, issued_at) {
        Ok(token) => Some(String::from(token.as_str())),
        Err(_) => None,
    }
}

/// What a credential holds, as plain values.
pub struct CredentialView {
    pub token: Seq<char>,
    pub issued_at: u64,
    pub valid_until: u64,
}

/// A signed token with the window of time in which it is valid. It is handed
/// to one connection attempt and not kept beyond it.
pub struct Credential {
    token: String,
    issued_at: u64,
    valid_until: u64,
}

impl View for Credential {
    type V = CredentialView;

    closed spec fn view(&self) -> CredentialView {
        CredentialView {
            token: self.token@,
            issued_at: self.issued_at,
            valid_until: self.valid_until,
        }
    }
}

/// The text of a string that may be missing.
pub open spec fn text_of(text: Option<&str>) -> Option<Seq<char>> {
    match text {
        Some(t) => Some(t@),
        None => None,
    }
}

/// The text of a token that may be missing.
pub open spec fn token_of(token: Option<String>) -> Option<Seq<char>> {
    match token {
        Some(t) => Some(t@),
        None => None,
    }
}

/// Whether a token can be issued at `now`: the end of its validity has to
/// fit the machine's word, which the signer counts in.
pub open spec fn issuable_at(now: u64) -> bool {
    now + TOKEN_LIFETIME_SECS <= usize::MAX
}

/// The outcome of signing `token` at `now`: the credential that carries it,
/// or `SigningFailed` where there is no token.
pub open spec fn sealed(token: Option<Seq<char>>, now: u64) -> Result<
    CredentialView,
    CredentialError,
> {
    match token {
        Some(t) if issuable_at(now) => Ok(
            CredentialView {
                token: t,
                issued_at: now,
                valid_until: (now + TOKEN_LIFETIME_SECS) as u64,
            },
        ),
        _ => Err(CredentialError::SigningFailed),
    }
}

/// The outcome of minting for `project` at the clock reading `now`, with the
/// key material `key_pem` (`None`: it could not be read).
pub open spec fn minted(project: Seq<char>, key_pem: Option<Seq<char>>, now: u64) -> Result<
    CredentialView,
    CredentialError,
> {
    match key_pem {
        None => Err(CredentialError::KeyUnavailable),
        Some(key) => if issuable_at(now) {
            sealed(jwt_es256(project, key, now as usize), now)
        } else {
            Err(CredentialError::SigningFailed)
        },
    }
}

impl Credential {
    #[verifier::type_invariant]
    spec fn valid_for_lifetime(&self) -> bool {
        self.valid_until == self.issued_at + TOKEN_LIFETIME_SECS
    }

    /// The credential around a token that was signed at `now`.
    pub fn seal(token: Option<String>, now: u64) -> (r: Result<Credential, CredentialError>)
        ensures
            match r {
                Ok(c) => sealed(token_of(token), now) == Ok::<CredentialView, CredentialError>(c@),
                Err(e) => sealed(token_of(token), now) == Err::<CredentialView, CredentialError>(
                    e,
                ),
            },
    {
        match token {
            Some(t) => {
                if now <= u64::MAX - TOKEN_LIFETIME_SECS && now + TOKEN_LIFETIME_SECS
                    <= usize::MAX as u64 {
                    Ok(Credential { token: t, issued_at: now, valid_until: now + TOKEN_LIFETIME_SECS })
                } else {
                    Err(CredentialError::SigningFailed)
                }
            },
            None => Err(CredentialError::SigningFailed),
        }
    }

    /// The signed token, which serves as the session's password.
    pub fn token(&self) -> (r: &str)
        ensures
            r@ == self@.token,
    {
        self.token.as_str()
    }

    /// The clock reading, in seconds since the Unix epoch, at which the
    /// credential was minted.
    pub fn issued_at(&self) -> (r: u64)
        ensures
            r == self@.issued_at,
    {
        self.issued_at
    }

    /// The second at which the credential lapses: always one lifetime after
    /// its issue time.
    pub fn valid_until(&self) -> (r: u64)
        ensures
            r == self@.valid_until,
            r == self@.issued_at + TOKEN_LIFETIME_SECS,
    {
        proof {
            use_type_invariant(self);
        }
        self.valid_until
    }
}

/// Mints a credential for `project` whose issue time is the clock reading
/// `now`. Fails with `KeyUnavailable` where there is no key material, and
/// with `SigningFailed` where no token can be built from it.
pub fn mint_at(project: &str, key_pem: Option<&str>, now: u64) -> (r: Result<
    Credential,
    CredentialError,
>)
    ensures
        match r {
            Ok(c) => minted(project@, text_of(key_pem), now) == Ok::<
                CredentialView,
                CredentialError,
            >(c@),
            Err(e) => minted(project@, text_of(key_pem), now) == Err::<
                CredentialView,
                CredentialError,
            >(e),
        },
{
    match key_pem {
        None => Err(CredentialError::KeyUnavailable),
        Some(key) => {
            if now <= u64::MAX - TOKEN_LIFETIME_SECS && now + TOKEN_LIFETIME_SECS
                <= usize::MAX as u64 {
                let token = create_jwt(project, key, now as usize);
                Credential::seal(token, now)
            } else {
                Err(CredentialError::SigningFailed)
            }
        },
    }
}

/// Mints a credential for `project` at the moment of the call: the wall
/// clock is read anew each time, so the issue time is never a stale one.
/// Whatever the clock gave, a credential that comes back is the one that
/// minting at its own issue time yields. A clock that stands before the Unix
/// epoch gives no issue time, which counts as `SigningFailed`.
pub fn mint(project: &str, key_pem: Option<&str>) -> (r: Result<Credential, CredentialError>)
    ensures
        r matches Ok(c) ==> key_pem is Some && minted(project@, text_of(key_pem), c@.issued_at)
            == Ok::<CredentialView, CredentialError>(c@),
        r matches Err(e) ==> (e == CredentialError::KeyUnavailable <==> key_pem is None),
{
    match key_pem {
        None => Err(CredentialError::KeyUnavailable),
        Some(_) => match read_clock() {
            Some(reading) => mint_at(project, key_pem, reading.secs),
            None => Err(CredentialError::SigningFailed),
        },
    }
}

/// A credential's issue time is the clock reading it was minted at, so of
/// two credentials, for whichever projects and keys, the one minted later
/// carries the later issue time and lapses later.
pub proof fn lemma_issue_time_follows_clock(
    first_project: Seq<char>,
    first_key: Option<Seq<char>>,
    t1: u64,
    second_project: Seq<char>,
    second_key: Option<Seq<char>>,
    t2: u64,
)
    requires
        t1 < t2,
        minted(first_project, first_key, t1) is Ok,
        minted(second_project, second_key, t2) is Ok,
    ensures
        minted(first_project, first_key, t1)->Ok_0.issued_at == t1,
        minted(second_project, second_key, t2)->Ok_0.issued_at == t2,
        minted(first_project, first_key, t1)->Ok_0.issued_at < minted(
            second_project,
            second_key,
            t2,
        )->Ok_0.issued_at,
        minted(first_project, first_key, t1)->Ok_0.valid_until < minted(
            second_project,
            second_key,
            t2,
        )->Ok_0.valid_until,
{
}

} // verus!
