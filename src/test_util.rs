//! Paths of a host installation that tests drive: the binary, the
//! configuration, the logs and the temporary directories, all under one
//! prefix.
use vstd::prelude::*;

verus! {

/// The host's default installation prefix.
pub const NGINX_PREFIX: &'static str = "/usr/local/nginx";

pub const NGINX_SBIN_SUFFIX: &'static str = "sbin/nginx";

pub const NGINX_MODULES_SUFFIX: &'static str = "modules";

pub const NGINX_CONF_SUFFIX: &'static str = "conf/nginx.conf";

pub const NGINX_CONF_PREFIX_SUFFIX: &'static str = "conf";

pub const NGINX_ERROR_LOG_SUFFIX: &'static str = "logs/error.log";

pub const NGINX_PID_SUFFIX: &'static str = "logs/nginx.pid";

pub const NGINX_LOCK_SUFFIX: &'static str = "logs/nginx.lock";

pub const NGINX_HTTP_LOG_SUFFIX: &'static str = "logs/access.log";

pub const NGINX_HTTP_CLIENT_BODY_SUFFIX: &'static str = "client_body_temp";

pub const NGINX_HTTP_PROXY_TEMP_SUFFIX: &'static str = "proxy_temp";

pub const NGINX_HTTP_FASTCGI_TEMP_SUFFIX: &'static str = "fastcgi_temp";

pub const NGINX_HTTP_UWSGI_TEMP_SUFFIX: &'static str = "uwsgi_temp";

pub const NGINX_HTTP_SCGI_TEMP_SUFFIX: &'static str = "scgi_temp";

/// The path `suffix` resolved against the directory `base`, as `Path::join`
/// gives it.
pub uninterp spec fn path_join(base: Seq<char>, suffix: Seq<char>) -> Seq<char>;

/// Relies on `std::path::Path::join`, read back as a string (both inputs are
/// UTF-8, so nothing is lost): the path `suffix` resolved against `base`.
#[verifier::external_body]
fn join(base: &str, suffix: &str) -> (r: String)
    ensures
        r@ == path_join(base@, suffix@),
{
    std::path::Path::new(base).join(suffix).to_string_lossy().into_owned()
}

/// The paths of one host installation.
pub struct Nginx {
    pub prefix: String,
    pub sbin_path: String,
    pub modules_path: String,
    pub conf_path: String,
    pub conf_prefix: String,
    pub error_log_path: String,
    pub pid_path: String,
    pub lock_path: String,
    pub http_log_path: String,
    pub http_client_body_temp_path: String,
    pub http_proxy_temp_path: String,
    pub http_fastcgi_temp_path: String,
    pub http_uwsgi_temp_path: String,
    pub http_scgi_temp_path: String,
}

impl Nginx {
    /// Every path of the installation lies at its fixed suffix under the
    /// prefix.
    pub open spec fn under_prefix(&self, p: Seq<char>) -> bool {
        &&& self.prefix@ == p
        &&& self.sbin_path@ == path_join(p, NGINX_SBIN_SUFFIX@)
        &&& self.modules_path@ == path_join(p, NGINX_MODULES_SUFFIX@)
        &&& self.conf_path@ == path_join(p, NGINX_CONF_SUFFIX@)
        &&& self.conf_prefix@ == path_join(p, NGINX_CONF_PREFIX_SUFFIX@)
        &&& self.error_log_path@ == path_join(p, NGINX_ERROR_LOG_SUFFIX@)
        &&& self.pid_path@ == path_join(p, NGINX_PID_SUFFIX@)
        &&& self.lock_path@ == path_join(p, NGINX_LOCK_SUFFIX@)
        &&& self.http_log_path@ == path_join(p, NGINX_HTTP_LOG_SUFFIX@)
        &&& self.http_client_body_temp_path@ == path_join(p, NGINX_HTTP_CLIENT_BODY_SUFFIX@)
        &&& self.http_proxy_temp_path@ == path_join(p, NGINX_HTTP_PROXY_TEMP_SUFFIX@)
        &&& self.http_fastcgi_temp_path@ == path_join(p, NGINX_HTTP_FASTCGI_TEMP_SUFFIX@)
        &&& self.http_uwsgi_temp_path@ == path_join(p, NGINX_HTTP_UWSGI_TEMP_SUFFIX@)
        &&& self.http_scgi_temp_path@ == path_join(p, NGINX_HTTP_SCGI_TEMP_SUFFIX@)
    }

    /// The installation under `prefix`, every path at its default suffix.
    pub fn new_with_prefix(prefix: String) -> (r: Nginx)
        ensures
            r.under_prefix(prefix@),
    {
        let p = prefix.as_str();
        Nginx {
            sbin_path: join(p, NGINX_SBIN_SUFFIX),
            modules_path: join(p, NGINX_MODULES_SUFFIX),
            conf_path: join(p, NGINX_CONF_SUFFIX),
            conf_prefix: join(p, NGINX_CONF_PREFIX_SUFFIX),
            error_log_path: join(p, NGINX_ERROR_LOG_SUFFIX),
            pid_path: join(p, NGINX_PID_SUFFIX),
            lock_path: join(p, NGINX_LOCK_SUFFIX),
            http_log_path: join(p, NGINX_HTTP_LOG_SUFFIX),
            http_client_body_temp_path: join(p, NGINX_HTTP_CLIENT_BODY_SUFFIX),
            http_proxy_temp_path: join(p, NGINX_HTTP_PROXY_TEMP_SUFFIX),
            http_fastcgi_temp_path: join(p, NGINX_HTTP_FASTCGI_TEMP_SUFFIX),
            http_uwsgi_temp_path: join(p, NGINX_HTTP_UWSGI_TEMP_SUFFIX),
            http_scgi_temp_path: join(p, NGINX_HTTP_SCGI_TEMP_SUFFIX),
            prefix,
        }
    }

    /// The installation prefix.
    pub fn prefix(&self) -> (r: &str)
        ensures
            r@ == self.prefix@,
    {
        self.prefix.as_str()
    }
}

impl Default for Nginx {
    /// The installation under the default prefix.
    fn default() -> (r: Nginx)
        ensures
            r.under_prefix(NGINX_PREFIX@),
    {
        Nginx::new_with_prefix(NGINX_PREFIX.to_owned())
    }
}

} // verus!
