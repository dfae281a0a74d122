//! A WSGI application: which callable of which module answers requests, and
//! the environment each call receives.

use vstd::prelude::*;
use vstd::string::*;
use crate::request::{Request, method_name, split_on, chars_of, nth_piece, text_between};

verus! {

/// A value of the WSGI environment.
pub enum EnvValue {
    Text(String),
    Flag(bool),
}

/// A value of the WSGI environment, as a value.
pub enum EnvModel {
    Text(Seq<char>),
    Flag(bool),
}

impl View for EnvValue {
    type V = EnvModel;

    open spec fn view(&self) -> EnvModel {
        match self {
            EnvValue::Text(s) => EnvModel::Text(s@),
            EnvValue::Flag(b) => EnvModel::Flag(*b),
        }
    }
}

/// The environment entries, as values.
pub open spec fn entries_view(entries: Seq<(String, EnvValue)>) -> Seq<(Seq<char>, EnvModel)> {
    entries.map_values(|e: (String, EnvValue)| (e.0@, e.1@))
}

/// The module and the callable that an identifier `<module>:<callable>`
/// names: the first two pieces of the identifier cut at each colon.
pub open spec fn app_string_spec(s: Seq<char>) -> Option<(Seq<char>, Seq<char>)> {
    let pieces = split_on(s, ':');
    if pieces.len() < 2 {
        None
    } else {
        Some((pieces[0], pieces[1]))
    }
}

/// A WSGI application.
#[derive(Debug, Clone)]
pub struct Application {
    pub module: String,
    pub callable: String,
    pub headers_set: Vec<String>,
    pub path_to_app: String,
    pub path_to_bindings: String,
    pub port: String,
}

impl Application {
    /// The module and the callable that an identifier `<module>:<callable>`
    /// names; None when it holds no colon.
    pub fn parse_app_string(string: &str) -> (r: Option<(String, String)>)
        ensures
            match r {
                Some((module, callable)) => app_string_spec(string@) == Some((module@, callable@)),
                None => app_string_spec(string@).is_none(),
            },
    {
        let chars = chars_of(string);
        let (a0, b0) = match nth_piece(&chars, ':', 0) {
            Some(p) => p,
            None => return None,
        };
        let (a1, b1) = match nth_piece(&chars, ':', 1) {
            Some(p) => p,
            None => return None,
        };
        Some((text_between(string, a0, b0), text_between(string, a1, b1)))
    }

    /// The environment that a call for `request` receives.
    pub fn environ(&self, request: &Request) -> (r: Vec<(String, EnvValue)>)
        ensures
            entries_view(r@) == seq![
                ("wsgi.version"@, EnvModel::Text("1.0"@)),
                ("wsgi.url_scheme"@, EnvModel::Text("http"@)),
                ("wsgi.input"@, EnvModel::Text(request.data@)),
                ("wsgi.errors"@, EnvModel::Text("2>"@)),
                ("wsgi.multithread"@, EnvModel::Flag(true)),
                ("wsgi.multiprocess"@, EnvModel::Flag(true)),
                ("wsgi.run_once"@, EnvModel::Flag(false)),
                ("REQUEST_METHOD"@, EnvModel::Text(method_name(request.kind))),
                ("PATH_INFO"@, EnvModel::Text(request.path@)),
                ("SERVER_NAME"@, EnvModel::Text(request.host@)),
                ("SERVER_PORT"@, EnvModel::Text(self.port@)),
            ],
    {
        let mut env: Vec<(String, EnvValue)> = Vec::new();
        env.push((String::from_str("wsgi.version"), EnvValue::Text(String::from_str("1.0"))));
        env.push((String::from_str("wsgi.url_scheme"), EnvValue::Text(String::from_str("http"))));
        env.push((String::from_str("wsgi.input"), EnvValue::Text(request.data.clone())));
        env.push((String::from_str("wsgi.errors"), EnvValue::Text(String::from_str("2>"))));
        env.push((String::from_str("wsgi.multithread"), EnvValue::Flag(true)));
        env.push((String::from_str("wsgi.multiprocess"), EnvValue::Flag(true)));
        env.push((String::from_str("wsgi.run_once"), EnvValue::Flag(false)));
        env.push(
            (
                String::from_str("REQUEST_METHOD"),
                EnvValue::Text(String::from_str(request.kind.name())),
            ),
        );
        env.push((String::from_str("PATH_INFO"), EnvValue::Text(request.path.clone())));
        env.push((String::from_str("SERVER_NAME"), EnvValue::Text(request.host.clone())));
        env.push((String::from_str("SERVER_PORT"), EnvValue::Text(self.port.clone())));
        assert(entries_view(env@) =~= seq![
            ("wsgi.version"@, EnvModel::Text("1.0"@)),
            ("wsgi.url_scheme"@, EnvModel::Text("http"@)),
            ("wsgi.input"@, EnvModel::Text(request.data@)),
            ("wsgi.errors"@, EnvModel::Text("2>"@)),
            ("wsgi.multithread"@, EnvModel::Flag(true)),
            ("wsgi.multiprocess"@, EnvModel::Flag(true)),
            ("wsgi.run_once"@, EnvModel::Flag(false)),
            ("REQUEST_METHOD"@, EnvModel::Text(method_name(request.kind))),
            ("PATH_INFO"@, EnvModel::Text(request.path@)),
            ("SERVER_NAME"@, EnvModel::Text(request.host@)),
            ("SERVER_PORT"@, EnvModel::Text(self.port@)),
        ]);
        env
    }

    /// The expression that calls the application through the bindings:
    /// `bind.Application.call_callable(env, <module>.<callable>)`.
    pub fn call_statement(&self) -> (r: String)
        ensures
            r@ == "bind.Application.call_callable(env, "@ + self.module@ + "."@ + self.callable@
                + ")"@,
    {
        let mut s = String::from_str("bind.Application.call_callable(env, ");
        s.append(self.module.as_str());
        s.append(".");
        s.append(self.callable.as_str());
        s.append(")");
        s
    }
}

} // verus!
