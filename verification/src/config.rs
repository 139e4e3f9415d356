use vstd::prelude::*;

verus! {

/// Where the certificate authority's files live unless configured.
pub const CA_DEFAULT_PATH: &'static str = "certs/CA";

/// Where the users' certificates live unless configured.
pub const USER_CERTS_DEFAULT_PATH: &'static str = "certs/users";

/// Development settings: when present, requests without a client
/// certificate act as this user with these roles.
#[derive(Debug, Clone)]
pub struct DevConfig {
    pub user: String,
    pub roles: Vec<String>,
}

/// Where certificates are kept, and whether the proxy is reloaded after a
/// change. Paths are kept as text.
#[derive(Debug, Clone)]
pub struct CertConfig {
    pub ca: String,
    pub user_certs: String,
    pub reload_nginx: bool,
}

/// The default path of the certificate authority's files.
pub fn ca_default() -> (res: String)
    ensures
        res@ == CA_DEFAULT_PATH@,
{
    String::from_str(CA_DEFAULT_PATH)
}

/// The default path of the users' certificates.
pub fn user_certs_default() -> (res: String)
    ensures
        res@ == USER_CERTS_DEFAULT_PATH@,
{
    String::from_str(USER_CERTS_DEFAULT_PATH)
}

impl Default for CertConfig {
    fn default() -> (res: Self)
        ensures
            res.ca@ == CA_DEFAULT_PATH@,
            res.user_certs@ == USER_CERTS_DEFAULT_PATH@,
            !res.reload_nginx,
    {
        CertConfig { ca: ca_default(), user_certs: user_certs_default(), reload_nginx: false }
    }
}

} // verus!
