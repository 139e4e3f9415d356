use vstd::prelude::*;
use crate::config::DevConfig;

verus! {

/// The role that lets a user administer other users.
pub const ADMIN_USERS_ROLE: &'static str = "admin_users";

/// The status with which a request is refused for want of a client certificate.
pub const UNAUTHORIZED_STATUS: u16 = 401;

/// The body with which a request is refused for want of a client certificate.
pub const CERTIFICATE_REQUIRED_MESSAGE: &'static str = "Valid client certificate required";

/// Why a request is refused: the status and the body of the answer.
#[derive(Debug, Clone, Copy)]
pub struct AuthRejection {
    pub status: u16,
    pub message: &'static str,
}

/// The value that the TLS proxy puts in the verification header when the
/// client's certificate checked out: `SUCCESS`.
pub open spec fn success_marker() -> Seq<u8> {
    seq![83u8, 85u8, 67u8, 67u8, 69u8, 83u8, 83u8]
}

/// How a request is authenticated.
pub enum AuthMode {
    /// The proxy verified the client certificate.
    Certificate,
    /// No certificate header and development settings are configured.
    Development,
    /// Neither: the request is refused.
    Refused,
}

/// The authentication mode for a request with the given verification header
/// (`None` when absent), depending on whether development settings exist.
pub open spec fn auth_mode(verify_status: Option<Seq<u8>>, has_dev: bool) -> AuthMode {
    match verify_status {
        Some(v) => if v == success_marker() {
            AuthMode::Certificate
        } else {
            AuthMode::Refused
        },
        None => if has_dev {
            AuthMode::Development
        } else {
            AuthMode::Refused
        },
    }
}

pub open spec fn bytes_option(o: Option<&[u8]>) -> Option<Seq<u8>> {
    match o {
        Some(b) => Some(b@),
        None => None,
    }
}

fn is_success_marker(v: &[u8]) -> (res: bool)
    ensures
        res == (v@ == success_marker()),
{
    let res = v.len() == 7 && v[0] == 83u8 && v[1] == 85u8 && v[2] == 67u8 && v[3] == 67u8 && v[4]
        == 69u8 && v[5] == 83u8 && v[6] == 83u8;
    proof {
        if res {
            assert(v@ =~= success_marker());
        }
    }
    res
}

/// Decides whether a request may go on: `Ok(None)` when the proxy verified
/// the client certificate, `Ok(Some(dev))` when there is no verification
/// header and development settings exist, and the refusal otherwise.
pub fn validate_auth<'a>(verify_status: Option<&[u8]>, dev: &'a Option<DevConfig>) -> (res: Result<
    Option<&'a DevConfig>,
    AuthRejection,
>)
    ensures
        match auth_mode(bytes_option(verify_status), dev.is_some()) {
            AuthMode::Certificate => res matches Ok(None),
            AuthMode::Development => res matches Ok(Some(d)) && *d == dev.unwrap(),
            AuthMode::Refused => res == Err::<Option<&'a DevConfig>, AuthRejection>(
                AuthRejection { status: UNAUTHORIZED_STATUS, message: CERTIFICATE_REQUIRED_MESSAGE },
            ),
        },
{
    let refused = AuthRejection { status: UNAUTHORIZED_STATUS, message: CERTIFICATE_REQUIRED_MESSAGE };
    match verify_status {
        Some(v) => {
            if is_success_marker(v) {
                Ok(None)
            } else {
                Err(refused)
            }
        },
        None => match dev {
            Some(d) => Ok(Some(d)),
            None => Err(refused),
        },
    }
}

/// The authenticated client of a request.
pub struct ClientAuth {
    pub username: String,
    pub roles: Vec<String>,
}

/// The text of each of a list of strings.
pub open spec fn texts(v: Seq<String>) -> Seq<Seq<char>> {
    v.map_values(|s: String| s@)
}

impl ClientAuth {
    /// The client that development settings stand for.
    pub fn for_dev(dev: &DevConfig) -> (res: ClientAuth)
        ensures
            res.username@ == dev.user@,
            texts(res.roles@) == texts(dev.roles@),
    {
        let roles = dev.roles.clone();
        proof {
            assert(texts(roles@) =~= texts(dev.roles@));
        }
        ClientAuth { username: dev.user.clone(), roles }
    }

    /// Whether the client holds `role`.
    pub fn has_role(&self, role: &str) -> (res: bool)
        ensures
            res == exists|i: int| 0 <= i < self.roles@.len() && (#[trigger] self.roles@[i])@ == role@,
    {
        let wanted = String::from_str(role);
        let mut i: usize = 0;
        while i < self.roles.len()
            invariant
                i <= self.roles@.len(),
                wanted@ == role@,
                forall|j: int| 0 <= j < i ==> (#[trigger] self.roles@[j])@ != role@,
            decreases self.roles@.len() - i,
        {
            if self.roles[i].eq(&wanted) {
                return true;
            }
            i = i + 1;
        }
        false
    }
}

} // verus!
