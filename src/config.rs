//! Server configuration: where to listen, what to serve, and how.

use vstd::prelude::*;
use vstd::string::*;

verus! {

/// The view of an optional string.
pub open spec fn opt_view(o: Option<String>) -> Option<Seq<char>> {
    match o {
        Some(s) => Some(s@),
        None => None,
    }
}

/// The port that HTTPS listens on.
pub const TLS_PORT: &'static str = "8443";

/// The host used when none is configured.
pub open spec fn default_host() -> Seq<char> {
    "127.0.0.1"@
}

/// The port used when none is configured.
pub open spec fn default_port() -> Seq<char> {
    "8080"@
}

/// A configuration, as values.
pub struct ConfigModel {
    pub host: Seq<char>,
    pub port: Seq<char>,
    pub app: Option<Seq<char>>,
    pub static_folder: Option<Seq<char>>,
    pub https_cert: Option<Seq<char>>,
    pub cert_password: Option<Seq<char>>,
    pub app_path: Option<Seq<char>>,
    pub threads: Option<usize>,
}

/// A partial configuration, as values.
pub struct BuilderModel {
    pub host: Option<Seq<char>>,
    pub port: Option<Seq<char>>,
    pub app: Option<Seq<char>>,
    pub static_folder: Option<Seq<char>>,
    pub https_cert: Option<Seq<char>>,
    pub cert_password: Option<Seq<char>>,
    pub app_path: Option<Seq<char>>,
    pub threads: Option<usize>,
}

/// The server configuration.
pub struct Config {
    pub host: String,
    pub port: String,
    pub app: Option<String>,
    pub static_folder: Option<String>,
    pub https_cert: Option<String>,
    pub cert_password: Option<String>,
    pub app_path: Option<String>,
    pub threads: Option<usize>,
}

impl View for Config {
    type V = ConfigModel;

    open spec fn view(&self) -> ConfigModel {
        ConfigModel {
            host: self.host@,
            port: self.port@,
            app: opt_view(self.app),
            static_folder: opt_view(self.static_folder),
            https_cert: opt_view(self.https_cert),
            cert_password: opt_view(self.cert_password),
            app_path: opt_view(self.app_path),
            threads: self.threads,
        }
    }
}

/// A configuration being assembled; unset fields take their defaults when
/// it is built.
pub struct ConfigBuilder {
    pub host: Option<String>,
    pub port: Option<String>,
    pub app: Option<String>,
    pub static_folder: Option<String>,
    pub https_cert: Option<String>,
    pub cert_password: Option<String>,
    pub app_path: Option<String>,
    pub threads: Option<usize>,
}

impl View for ConfigBuilder {
    type V = BuilderModel;

    open spec fn view(&self) -> BuilderModel {
        BuilderModel {
            host: opt_view(self.host),
            port: opt_view(self.port),
            app: opt_view(self.app),
            static_folder: opt_view(self.static_folder),
            https_cert: opt_view(self.https_cert),
            cert_password: opt_view(self.cert_password),
            app_path: opt_view(self.app_path),
            threads: self.threads,
        }
    }
}

impl Default for ConfigBuilder {
    fn default() -> (r: ConfigBuilder)
        ensures
            r@ == (BuilderModel {
                host: None,
                port: None,
                app: None,
                static_folder: None,
                https_cert: None,
                cert_password: None,
                app_path: None,
                threads: None,
            }),
    {
        ConfigBuilder {
            host: None,
            port: None,
            app: None,
            static_folder: None,
            https_cert: None,
            cert_password: None,
            app_path: None,
            threads: None,
        }
    }
}

impl ConfigBuilder {
    /// Sets the host to listen on.
    pub fn set_host(&mut self, host: &str) -> (r: &mut Self)
        ensures
            r@ == (BuilderModel { host: Some(host@), ..old(self)@ }),
            *final(self) == *final(r),
    {
        self.host = Some(String::from_str(host));
        self
    }

    /// Sets the port to listen on.
    pub fn set_port(&mut self, port: &str) -> (r: &mut Self)
        ensures
            r@ == (BuilderModel { port: Some(port@), ..old(self)@ }),
            *final(self) == *final(r),
    {
        self.port = Some(String::from_str(port));
        self
    }

    /// Sets the application identifier, `<module>:<callable>`.
    pub fn set_app(&mut self, app: &str) -> (r: &mut Self)
        ensures
            r@ == (BuilderModel { app: Some(app@), ..old(self)@ }),
            *final(self) == *final(r),
    {
        self.app = Some(String::from_str(app));
        self
    }

    /// Sets the folder whose files are served.
    pub fn set_static_folder(&mut self, static_folder: &str) -> (r: &mut Self)
        ensures
            r@ == (BuilderModel { static_folder: Some(static_folder@), ..old(self)@ }),
            *final(self) == *final(r),
    {
        self.static_folder = Some(String::from_str(static_folder));
        self
    }

    /// Sets the path of the PKCS #12 identity that enables HTTPS.
    pub fn set_https_cert(&mut self, https_cert: &str) -> (r: &mut Self)
        ensures
            r@ == (BuilderModel { https_cert: Some(https_cert@), ..old(self)@ }),
            *final(self) == *final(r),
    {
        self.https_cert = Some(String::from_str(https_cert));
        self
    }

    /// Sets the password of the PKCS #12 identity.
    pub fn set_cert_password(&mut self, cert_password: &str) -> (r: &mut Self)
        ensures
            r@ == (BuilderModel { cert_password: Some(cert_password@), ..old(self)@ }),
            *final(self) == *final(r),
    {
        self.cert_password = Some(String::from_str(cert_password));
        self
    }

    /// Sets the number of worker threads.
    pub fn set_threads(&mut self, threads: usize) -> (r: &mut Self)
        ensures
            r@ == (BuilderModel { threads: Some(threads), ..old(self)@ }),
            *final(self) == *final(r),
    {
        self.threads = Some(threads);
        self
    }

    /// The configuration, with the default host and port where none was set.
    /// The application path is left unset.
    pub fn build(self) -> (r: Config)
        ensures
            r@ == (ConfigModel {
                host: match self@.host {
                    Some(h) => h,
                    None => default_host(),
                },
                port: match self@.port {
                    Some(p) => p,
                    None => default_port(),
                },
                app: self@.app,
                static_folder: self@.static_folder,
                https_cert: self@.https_cert,
                cert_password: self@.cert_password,
                app_path: None,
                threads: self@.threads,
            }),
    {
        let host = match self.host {
            Some(h) => h,
            None => String::from_str("127.0.0.1"),
        };
        let port = match self.port {
            Some(p) => p,
            None => String::from_str("8080"),
        };
        Config {
            host,
            port,
            app: self.app,
            static_folder: self.static_folder,
            https_cert: self.https_cert,
            cert_password: self.cert_password,
            app_path: None,
            threads: self.threads,
        }
    }
}

/// `p` is a prefix of `s`.
pub open spec fn has_prefix(s: Seq<char>, p: Seq<char>) -> bool {
    p.len() <= s.len() && s.take(p.len() as int) == p
}

/// `s` with every match of `from`, found from left to right without
/// overlapping, replaced by `to`.
pub open spec fn replace_all(s: Seq<char>, from: Seq<char>, to: Seq<char>) -> Seq<char>
    decreases s.len(),
{
    if from.len() == 0 || s.len() < from.len() {
        s
    } else if s.take(from.len() as int) == from {
        to + replace_all(s.skip(from.len() as int), from, to)
    } else {
        seq![s[0]] + replace_all(s.skip(1), from, to)
    }
}

/// The first argument that starts with `key`.
pub open spec fn first_with_prefix(args: Seq<Seq<char>>, key: Seq<char>) -> Option<Seq<char>>
    decreases args.len(),
{
    if args.len() == 0 {
        None
    } else if has_prefix(args[0], key) {
        Some(args[0])
    } else {
        first_with_prefix(args.drop_first(), key)
    }
}

/// The value that the arguments give for `key` (such as `port:`): the first
/// argument that starts with the key, with every occurrence of the key taken
/// out.
pub open spec fn arg_value(args: Seq<Seq<char>>, key: Seq<char>) -> Option<Seq<char>> {
    match first_with_prefix(args, key) {
        Some(a) => Some(replace_all(a, key, Seq::empty())),
        None => None,
    }
}

/// The configuration that command-line arguments of the form `host:<host>`
/// and `port:<port>` give; the rest is unset.
pub open spec fn args_config(args: Seq<Seq<char>>) -> ConfigModel {
    ConfigModel {
        host: match arg_value(args, "host:"@) {
            Some(h) => h,
            None => default_host(),
        },
        port: match arg_value(args, "port:"@) {
            Some(p) => p,
            None => default_port(),
        },
        app: None,
        static_folder: None,
        https_cert: None,
        cert_password: None,
        app_path: None,
        threads: None,
    }
}

/// Relies on `str::replace`: a new string in which every match of `from`,
/// found from left to right without overlapping, is replaced by `to`.
#[verifier::external_body]
fn replace_text(s: &str, from: &str, to: &str) -> (r: String)
    requires
        from@.len() > 0,
    ensures
        r@ == replace_all(s@, from@, to@),
{
    s.replace(from, to)
}

/// Whether `s` starts with `prefix`.
fn starts_with(s: &str, prefix: &str) -> (r: bool)
    ensures
        r == has_prefix(s@, prefix@),
{
    let n = s.unicode_len();
    let m = prefix.unicode_len();
    if m > n {
        return false;
    }
    let mut i: usize = 0;
    while i < m
        invariant
            n == s@.len(),
            m == prefix@.len(),
            m <= n,
            i <= m,
            s@.take(i as int) == prefix@.take(i as int),
        decreases m - i,
    {
        if s.get_char(i) != prefix.get_char(i) {
            return false;
        }
        i = i + 1;
    }
    assert(prefix@.take(m as int) =~= prefix@);
    true
}

/// The value that the arguments give for `key`.
fn get_arg(args: &Vec<String>, key: &str) -> (r: Option<String>)
    requires
        key@.len() > 0,
    ensures
        opt_view(r) == arg_value(args@.map_values(|a: String| a@), key@),
{
    let ghost all = args@.map_values(|a: String| a@);
    let n = args.len();
    let mut i: usize = 0;
    assert(all.skip(0) =~= all);
    proof {
        reveal_strlit("");
    }
    while i < n
        invariant
            n == args@.len(),
            all == args@.map_values(|a: String| a@),
            key@.len() > 0,
            ""@ == Seq::<char>::empty(),
            i <= n,
            first_with_prefix(all, key@) == first_with_prefix(all.skip(i as int), key@),
        decreases n - i,
    {
        assert(all.skip(i as int).drop_first() =~= all.skip(i + 1));
        if starts_with(args[i].as_str(), key) {
            return Some(replace_text(args[i].as_str(), key, ""));
        }
        i = i + 1;
    }
    None
}

/// The host that the arguments give, `host:<host>`.
fn get_host(args: &Vec<String>) -> (r: Option<String>)
    ensures
        opt_view(r) == arg_value(args@.map_values(|a: String| a@), "host:"@),
{
    proof {
        reveal_strlit("host:");
    }
    get_arg(args, "host:")
}

/// The port that the arguments give, `port:<port>`.
fn get_port(args: &Vec<String>) -> (r: Option<String>)
    ensures
        opt_view(r) == arg_value(args@.map_values(|a: String| a@), "port:"@),
{
    proof {
        reveal_strlit("port:");
    }
    get_arg(args, "port:")
}

/// The configuration that the command-line arguments give.
fn from_args(args: &Vec<String>) -> (r: Config)
    ensures
        r@ == args_config(args@.map_values(|a: String| a@)),
{
    let host = match get_host(args) {
        Some(h) => h,
        None => String::from_str("127.0.0.1"),
    };
    let port = match get_port(args) {
        Some(p) => p,
        None => String::from_str("8080"),
    };
    Config {
        host,
        port,
        app: None,
        static_folder: None,
        https_cert: None,
        cert_password: None,
        app_path: None,
        threads: None,
    }
}

impl Config {
    /// The configuration read from the configuration file when there is
    /// one, else the one that the command-line arguments give.
    pub fn new(file: Option<Config>, args: &Vec<String>) -> (r: Config)
        ensures
            r@ == match file {
                Some(c) => c@,
                None => args_config(args@.map_values(|a: String| a@)),
            },
    {
        match file {
            Some(c) => c,
            None => from_args(args),
        }
    }

    /// A configuration from the given values, with the default host and
    /// port where none is given and no thread count.
    pub fn from(
        host: Option<String>,
        port: Option<String>,
        app: Option<String>,
        static_folder: Option<String>,
        https_cert: Option<String>,
        cert_password: Option<String>,
        app_path: Option<String>,
    ) -> (r: Config)
        ensures
            r@ == (ConfigModel {
                host: match opt_view(host) {
                    Some(h) => h,
                    None => default_host(),
                },
                port: match opt_view(port) {
                    Some(p) => p,
                    None => default_port(),
                },
                app: opt_view(app),
                static_folder: opt_view(static_folder),
                https_cert: opt_view(https_cert),
                cert_password: opt_view(cert_password),
                app_path: opt_view(app_path),
                threads: None,
            }),
    {
        let host = match host {
            Some(h) => h,
            None => String::from_str("127.0.0.1"),
        };
        let port = match port {
            Some(p) => p,
            None => String::from_str("8080"),
        };
        Config { host, port, app, static_folder, https_cert, cert_password, app_path, threads: None }
    }

    /// The number of worker threads: as configured, else one.
    pub fn thread_count(&self) -> (r: usize)
        ensures
            r == match self.threads {
                Some(t) => t,
                None => 1,
            },
    {
        match self.threads {
            Some(t) => t,
            None => 1,
        }
    }

    /// The folder whose files are served: as configured, else `static`.
    pub fn static_folder_or_default(&self) -> (r: String)
        ensures
            r@ == match self@.static_folder {
                Some(f) => f,
                None => "static"@,
            },
    {
        match &self.static_folder {
            Some(f) => f.clone(),
            None => String::from_str("static"),
        }
    }

    /// The plaintext listening address, `<host>:<port>`.
    pub fn address(&self) -> (r: String)
        ensures
            r@ == self.host@ + ":"@ + self.port@,
    {
        let mut a = self.host.clone();
        a.append(":");
        a.append(self.port.as_str());
        a
    }

    /// The HTTPS listening address: the host, on the fixed HTTPS port
    /// whatever port is configured.
    pub fn tls_address(&self) -> (r: String)
        ensures
            r@ == self.host@ + ":"@ + TLS_PORT@,
    {
        let mut a = self.host.clone();
        a.append(":");
        a.append(TLS_PORT);
        a
    }

    /// The password of the PKCS #12 identity: the one the environment gives
    /// takes priority over the configured one. None when neither is given.
    pub fn resolve_cert_password(&self, from_env: Option<String>) -> (r: Option<String>)
        ensures
            opt_view(r) == match opt_view(from_env) {
                Some(p) => Some(p),
                None => self@.cert_password,
            },
    {
        match from_env {
            Some(p) => Some(p),
            None => self.cert_password.clone(),
        }
    }

    /// Whether HTTPS is enabled: a certificate is configured.
    pub fn https(&self) -> (r: bool)
        ensures
            r == self@.https_cert.is_some(),
    {
        self.https_cert.is_some()
    }
}

} // verus!
