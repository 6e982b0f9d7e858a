use crate::record::PasswordData;
use crate::text::{trim_spec, trim_str};
use vstd::prelude::*;
use vstd::string::{StrSliceExecFns, StringExecFns};

verus! {

/// Where the vault lives: a server, or a local container file.
#[derive(Debug)]
pub enum Config {
    Http(HttpConfig),
    Library(LibraryConfig),
}

/// A vault server, the account on it, and the password typed for this session.
#[derive(Debug, Clone)]
pub struct HttpConfig {
    pub server: String,
    pub user: String,
    pub password: String,
}

/// A local container file and the password typed for this session.
#[derive(Debug)]
pub struct LibraryConfig {
    pub path: String,
    pub password: String,
}

/// The records opened from a local container.
#[derive(Debug)]
pub struct LibraryClient {
    pub passwords: Vec<PasswordData>,
}

/// The short description of a configuration shown when asking for its password.
pub open spec fn tips_spec(c: Config) -> Seq<char> {
    match c {
        Config::Http(h) => trim_spec(h.server@ + " -> "@ + h.user@),
        Config::Library(l) => trim_spec(l.path@),
    }
}

/// A server address without one trailing slash.
pub open spec fn base_url_spec(server: Seq<char>) -> Seq<char> {
    if server.len() > 0 && server.last() == '/' {
        server.drop_last()
    } else {
        server
    }
}

impl Config {
    pub fn tips(&self) -> (r: String)
        ensures
            r@ == tips_spec(*self),
    {
        match self {
            Config::Http(c) => {
                let s = c.server.clone().concat(" -> ").concat(c.user.as_str());
                trim_str(s.as_str())
            },
            Config::Library(c) => trim_str(c.path.as_str()),
        }
    }
}

impl HttpConfig {
    /// The server address that request paths are appended to.
    pub fn base_url(&self) -> (r: String)
        ensures
            r@ == base_url_spec(self.server@),
    {
        let s = self.server.as_str();
        let n = s.unicode_len();
        if n > 0 && s.get_char(n - 1) == '/' {
            s.substring_char(0, n - 1).to_owned()
        } else {
            s.to_owned()
        }
    }
}

} // verus!
