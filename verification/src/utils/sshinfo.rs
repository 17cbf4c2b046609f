use crate::text::{
    find_char, first_index_of, lemma_first_index_of_absent, lemma_first_index_of_append,
    option_text, parse_i32, parsed_i32,
};
use vstd::prelude::*;

verus! {

/// Where to reach a remote directory over SSH.
#[derive(Debug)]
pub struct SSHInfo {
    host: String,
    port: i32,
    username: Option<String>,
    password: Option<String>,
}

/// An [`SSHInfo`] as plain values.
pub struct SSHInfoView {
    pub host: Seq<char>,
    pub port: i32,
    pub username: Option<Seq<char>>,
    pub password: Option<Seq<char>>,
}

impl View for SSHInfo {
    type V = SSHInfoView;

    closed spec fn view(&self) -> SSHInfoView {
        SSHInfoView {
            host: self.host@,
            port: self.port,
            username: option_text(self.username),
            password: option_text(self.password),
        }
    }
}

/// The SSH port used when the target names none.
pub open spec fn default_ssh_port() -> i32 {
    22
}

/// `[user@]host[:port]` read as an SSH target: the user is what precedes
/// the first `@`, the host what follows it up to the first `:` after it, and
/// the port, 22 when no `:` follows, is the rest read as an `i32`. No
/// password is ever read from the target.
pub open spec fn spec_parse_ssh_info(path: Seq<char>) -> Result<SSHInfoView, Seq<char>> {
    let (username, rest) = match first_index_of(path, '@') {
        Some(i) => (Some(path.take(i)), path.skip(i + 1)),
        None => (None, path),
    };
    let (host, port) = match first_index_of(rest, ':') {
        Some(j) => (rest.take(j), parsed_i32(rest.skip(j + 1))),
        None => (rest, Some(default_ssh_port())),
    };
    match port {
        Some(port) => Ok(SSHInfoView { host, port, username, password: None }),
        None => Err("Invalid port"@),
    }
}

impl SSHInfo {
    /// Reads an SSH target of the form `[user@]host[:port]`; fails with
    /// `"Invalid port"` when the text after the host is not an `i32`.
    pub fn parse_ssh_info(path: &str) -> (res: Result<Self, &'static str>)
        ensures
            match spec_parse_ssh_info(path@) {
                Ok(v) => res is Ok && res.unwrap()@ == v,
                Err(m) => res is Err && res->Err_0@ == m,
            },
    {
        let len = path.unicode_len();
        let (username, rest): (Option<String>, &str) = match find_char(path, '@') {
            Some(i) => (Some(path.substring_char(0, i).to_string()), path.substring_char(i + 1, len)),
            None => (None, path),
        };
        let rest_len = rest.unicode_len();
        let (host, port): (&str, i32) = match find_char(rest, ':') {
            Some(j) => {
                match parse_i32(rest.substring_char(j + 1, rest_len)) {
                    Some(port) => (rest.substring_char(0, j), port),
                    None => {
                        return Err("Invalid port");
                    },
                }
            },
            None => (rest, 22),
        };
        Ok(SSHInfo { host: host.to_string(), port, username, password: None })
    }

    /// The host to connect to.
    pub fn host(&self) -> (res: &str)
        ensures
            res@ == self@.host,
    {
        self.host.as_str()
    }

    /// The port to connect to.
    pub fn port(&self) -> (res: i32)
        ensures
            res == self@.port,
    {
        self.port
    }

    /// The user to log in as, when the target names one.
    pub fn username(&self) -> (res: Option<String>)
        ensures
            option_text(res) == self@.username,
    {
        match &self.username {
            Some(u) => Some(u.clone()),
            None => None,
        }
    }

    /// The password to log in with, when there is one.
    pub fn password(&self) -> (res: Option<String>)
        ensures
            option_text(res) == self@.password,
    {
        match &self.password {
            Some(p) => Some(p.clone()),
            None => None,
        }
    }
}

/// Reading `user@host:port` gives back the user, the host and the port it
/// was written from, and no password.
pub proof fn lemma_parse_ssh_info_parts(user: Seq<char>, host: Seq<char>, port_text: Seq<char>)
    requires
        !user.contains('@'),
        !host.contains(':'),
        parsed_i32(port_text) is Some,
    ensures
        spec_parse_ssh_info(user + seq!['@'] + host + seq![':'] + port_text) == Ok::<
            SSHInfoView,
            Seq<char>,
        >(
            SSHInfoView {
                host,
                port: parsed_i32(port_text).unwrap(),
                username: Some(user),
                password: None,
            },
        ),
{
    let rest = host + seq![':'] + port_text;
    let path = user + seq!['@'] + host + seq![':'] + port_text;
    assert(path =~= user + (seq!['@'] + rest));
    lemma_first_index_of_append(user, seq!['@'] + rest, '@');
    assert(first_index_of(seq!['@'] + rest, '@') == Some(0int));
    assert(path.take(user.len() as int) =~= user);
    assert(path.skip(user.len() + 1int) =~= rest);
    assert(rest =~= host + (seq![':'] + port_text));
    lemma_first_index_of_append(host, seq![':'] + port_text, ':');
    assert(first_index_of(seq![':'] + port_text, ':') == Some(0int));
    assert(rest.take(host.len() as int) =~= host);
    assert(rest.skip(host.len() + 1int) =~= port_text);
}

/// Reading a bare host, with neither a user nor a port, gives that host on
/// the default port 22.
pub proof fn lemma_parse_ssh_info_host_only(host: Seq<char>)
    requires
        !host.contains('@'),
        !host.contains(':'),
    ensures
        spec_parse_ssh_info(host) == Ok::<SSHInfoView, Seq<char>>(
            SSHInfoView { host, port: 22, username: None, password: None },
        ),
{
    lemma_first_index_of_absent(host, '@');
    lemma_first_index_of_absent(host, ':');
}

} // verus!
