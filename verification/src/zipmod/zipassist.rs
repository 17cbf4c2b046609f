//! From the command line to a pair of packages: which arguments are paths,
//! which ends are remote, and the credentials that a remote end is given.

use crate::pathnames::{is_plain_relative, path_has_root, path_is_absolute};
use crate::text::{
    all_ascii_digits, decimal_value, is_blank, is_trimmed, lemma_trimmed, parse_u16, parsed_u16,
    trim_white_space, trimmed,
};
use crate::zipmod::zipackage::ZIPackage;
use crate::zipmod::ziperror::ZIPError;
use crate::zipmod::zipperman::{lemma_route_is_local_iff_hostless, spec_route, UnzipRoute};
use vstd::prelude::*;

verus! {

pub open spec fn network_flag() -> Seq<char> {
    "-n"@
}

pub open spec fn flags_message() -> Seq<char> {
    "Flags are not recognized."@
}

pub open spec fn orientation_message() -> Seq<char> {
    "Argument orientation not recognized..."@
}

pub open spec fn paths_message() -> Seq<char> {
    "One of the paths provided did not validate as an absolute path."@
}

pub open spec fn starts_with_slash(p: Seq<char>) -> bool {
    p.len() > 0 && p[0] == '/'
}

/// The command line's shape, `args[0]` being the program:
/// `src dest` copies locally; `-n src dest` fetches the source over the
/// network; `src -n dest` sends to a remote destination; `-n src -n dest`
/// does both, and five arguments with any other flag are refused. The result names the argument that is
/// the source path, the one that is the destination path, and which ends are
/// remote, or the message of the error for a command line of another shape.
pub open spec fn spec_arg_layout(a: Seq<Seq<char>>) -> Result<(int, int, bool, bool), Seq<char>> {
    if a.len() == 5 {
        if a[1] != network_flag() || a[3] != network_flag() {
            Err(flags_message())
        } else {
            Ok((2, 4, true, true))
        }
    } else if a.len() == 4 {
        if a[1] != network_flag() && a[2] == network_flag() {
            Ok((1, 3, false, true))
        } else if a[1] == network_flag() && a[2] != network_flag() {
            Ok((2, 3, true, false))
        } else {
            Err(orientation_message())
        }
    } else if a.len() == 3 {
        Ok((1, 2, false, false))
    } else {
        Err(orientation_message())
    }
}

pub open spec fn arg_texts(args: Seq<String>) -> Seq<Seq<char>> {
    args.map_values(|s: String| s@)
}

/// A package that names a path and nothing else yet.
pub open spec fn is_bare_package(pkg: ZIPackage, path: Seq<char>) -> bool {
    &&& pkg.path@ == path
    &&& pkg.host@.len() == 0
    &&& pkg.port == 0
    &&& pkg.username@.len() == 0
    &&& pkg.password@.len() == 0
}

/// The two ends of a transfer as the command line gives them, and whether
/// each must be reached over the network (and so needs credentials).
pub struct ValidatedArgs {
    pub src: ZIPackage,
    pub dest: ZIPackage,
    pub src_needs_network: bool,
    pub dest_needs_network: bool,
}

/// Whether `p` is absolute or has a root, as `std::path::Path` judges it.
fn path_is_rooted(p: &str) -> (res: bool)
    ensures
        res ==> p@.len() > 0,
        starts_with_slash(p@) ==> res,
        is_plain_relative(p@) ==> !res,
{
    path_is_absolute(p) || path_has_root(p)
}

/// The verdict on two paths, given whether each is absolute or rooted.
pub fn check_path_roots(src_rooted: bool, dest_rooted: bool) -> (res: Result<(), ZIPError>)
    ensures
        res is Ok <==> src_rooted && dest_rooted,
        res matches Err(e) ==> e.message@ == paths_message(),
{
    if src_rooted && dest_rooted {
        Ok(())
    } else {
        Err(ZIPError::new("One of the paths provided did not validate as an absolute path."))
    }
}

/// Stores `src` and `dest` as the two paths and accepts them when each is
/// absolute or has a root. A path that starts with `/` is always accepted,
/// and a plainly relative one (see [`is_plain_relative`]), the empty path
/// among them, never; how paths with a `\` or a `:` are judged depends on
/// the target's path rules.
pub fn validate_and_set_paths(
    src_buf: &mut String,
    dest_buf: &mut String,
    src: &String,
    dest: &String,
) -> (res: Result<(), ZIPError>)
    ensures
        final(src_buf)@ == src@,
        final(dest_buf)@ == dest@,
        res is Ok ==> src@.len() > 0 && dest@.len() > 0,
        starts_with_slash(src@) && starts_with_slash(dest@) ==> res is Ok,
        is_plain_relative(src@) || is_plain_relative(dest@) ==> res is Err,
        res matches Err(e) ==> e.message@ == paths_message(),
{
    *src_buf = src.clone();
    *dest_buf = dest.clone();
    let src_rooted = path_is_rooted(src_buf.as_str());
    let dest_rooted = path_is_rooted(dest_buf.as_str());
    check_path_roots(src_rooted, dest_rooted)
}

/// Reads the command line (see [`spec_arg_layout`]) into the two packages
/// to transfer between, their paths checked by [`validate_and_set_paths`].
pub fn validate_args(args: &Vec<String>) -> (res: Result<ValidatedArgs, ZIPError>)
    ensures
        match spec_arg_layout(arg_texts(args@)) {
            Err(m) => res matches Err(e) && e.message@ == m,
            Ok((si, di, sn, dn)) => {
                let a = arg_texts(args@);
                &&& res matches Ok(v) ==> {
                    &&& is_bare_package(v.src, a[si])
                    &&& is_bare_package(v.dest, a[di])
                    &&& v.src_needs_network == sn
                    &&& v.dest_needs_network == dn
                    &&& a[si].len() > 0
                    &&& a[di].len() > 0
                }
                &&& res matches Err(e) ==> e.message@ == paths_message()
                &&& starts_with_slash(a[si]) && starts_with_slash(a[di]) ==> res is Ok
                &&& is_plain_relative(a[si]) || is_plain_relative(a[di]) ==> res is Err
            },
        },
{
    let flag = "-n".to_string();
    let ghost a = arg_texts(args@);
    assert(flag@ == network_flag());
    let (si, di, sn, dn): (usize, usize, bool, bool) = if args.len() == 5 {
        assert(args[1]@ == a[1] && args[3]@ == a[3]);
        if !(args[1] == flag) || !(args[3] == flag) {
            return Err(ZIPError::new("Flags are not recognized."));
        }
        (2, 4, true, true)
    } else if args.len() == 4 {
        assert(args[1]@ == a[1] && args[2]@ == a[2]);
        if !(args[1] == flag) && args[2] == flag {
            (1, 3, false, true)
        } else if args[1] == flag && !(args[2] == flag) {
            (2, 3, true, false)
        } else {
            return Err(ZIPError::new("Argument orientation not recognized..."));
        }
    } else if args.len() == 3 {
        (1, 2, false, false)
    } else {
        return Err(ZIPError::new("Argument orientation not recognized..."));
    };
    assert(args[si as int]@ == a[si as int] && args[di as int]@ == a[di as int]);
    let mut src_path = String::new();
    let mut dest_path = String::new();
    match validate_and_set_paths(&mut src_path, &mut dest_path, &args[si], &args[di]) {
        Ok(()) => {},
        Err(e) => {
            return Err(e);
        },
    }
    Ok(
        ValidatedArgs {
            src: ZIPackage::local(src_path),
            dest: ZIPackage::local(dest_path),
            src_needs_network: sn,
            dest_needs_network: dn,
        },
    )
}

/// What `map_network_creds` asks of its data: a port, when there is one,
/// that reads as a `u16`.
pub open spec fn creds_are_mappable(data: Seq<Seq<char>>) -> bool {
    data.len() > 1 ==> parsed_u16(data[1]) is Some
}

/// Copies network credentials into `obj`: `data` holds, in this order, the
/// host, the port, the user name and the password. Entries that are
/// missing leave the field as it was; entries past the fourth are ignored.
pub fn map_network_creds(obj: &mut ZIPackage, data: Vec<String>)
    requires
        creds_are_mappable(arg_texts(data@)),
    ensures
        final(obj).path == old(obj).path,
        final(obj).host@ == if data.len() > 0 {
            data[0]@
        } else {
            old(obj).host@
        },
        final(obj).port == if data.len() > 1 {
            parsed_u16(data[1]@).unwrap()
        } else {
            old(obj).port
        },
        final(obj).username@ == if data.len() > 2 {
            data[2]@
        } else {
            old(obj).username@
        },
        final(obj).password@ == if data.len() > 3 {
            data[3]@
        } else {
            old(obj).password@
        },
{
    proof {
        if data.len() > 1 {
            assert(arg_texts(data@)[1] == data[1]@);
        }
    }
    let mut index: usize = 0;
    while index < data.len()
        invariant
            index <= data.len(),
            data.len() > 1 ==> parsed_u16(data[1]@) is Some,
            obj.path == old(obj).path,
            obj.host@ == if index > 0 {
                data[0]@
            } else {
                old(obj).host@
            },
            obj.port == if index > 1 {
                parsed_u16(data[1]@).unwrap()
            } else {
                old(obj).port
            },
            obj.username@ == if index > 2 {
                data[2]@
            } else {
                old(obj).username@
            },
            obj.password@ == if index > 3 {
                data[3]@
            } else {
                old(obj).password@
            },
        decreases data.len() - index,
    {
        if index == 0 {
            obj.host = data[0].clone();
        } else if index == 1 {
            obj.port = parse_u16(data[1].as_str()).unwrap();
        } else if index == 2 {
            obj.username = data[2].clone();
        } else if index == 3 {
            obj.password = data[3].clone();
        }
        index = index + 1;
    }
}

/// The next entry a credential form asks for.
#[derive(Clone, Copy, Debug, PartialEq, Eq, Structural)]
pub enum CredentialStep {
    Host,
    Port,
    UserName,
    Password,
    Done,
}

pub open spec fn step_rank(step: CredentialStep) -> int {
    match step {
        CredentialStep::Host => 0,
        CredentialStep::Port => 1,
        CredentialStep::UserName => 2,
        CredentialStep::Password => 3,
        CredentialStep::Done => 4,
    }
}

/// The credentials for one remote end, asked for one entry at a time: a
/// host and a user name that are not blank, a port (22 when left blank) and
/// a password. Each entry is kept trimmed of surrounding whitespace.
pub struct CredentialForm {
    step: CredentialStep,
    host: String,
    port: String,
    username: String,
    password: String,
}

/// A [`CredentialForm`] as plain values.
pub struct CredentialFormView {
    pub step: CredentialStep,
    pub host: Seq<char>,
    pub port: Seq<char>,
    pub username: Seq<char>,
    pub password: Seq<char>,
}

impl View for CredentialForm {
    type V = CredentialFormView;

    closed spec fn view(&self) -> CredentialFormView {
        CredentialFormView {
            step: self.step,
            host: self.host@,
            port: self.port@,
            username: self.username@,
            password: self.password@,
        }
    }
}

/// What holds of every entry a form has accepted.
pub open spec fn form_wf(v: CredentialFormView) -> bool {
    &&& step_rank(v.step) > 0 ==> v.host.len() > 0 && is_trimmed(v.host)
    &&& step_rank(v.step) > 1 ==> parsed_u16(v.port) is Some && is_trimmed(v.port)
    &&& step_rank(v.step) > 2 ==> v.username.len() > 0 && is_trimmed(v.username)
    &&& step_rank(v.step) > 3 ==> is_trimmed(v.password)
}

pub open spec fn default_port_text() -> Seq<char> {
    "22"@
}

pub open spec fn host_message() -> Seq<char> {
    "Host must not be blank."@
}

pub open spec fn port_message() -> Seq<char> {
    "Invalid Port Number. Please enter a valid port."@
}

pub open spec fn username_message() -> Seq<char> {
    "UserName must not be blank."@
}

/// The default port text reads as port 22.
proof fn lemma_default_port_text()
    ensures
        parsed_u16(default_port_text()) == Some(22u16),
        is_trimmed(default_port_text()),
{
    reveal_strlit("22");
    let d = default_port_text();
    assert(d.drop_last() =~= seq!['2']);
    assert(d.drop_last().drop_last() =~= Seq::<char>::empty());
    assert(decimal_value(Seq::<char>::empty()) == 0);
    assert(d.drop_last().last() == '2');
    assert(('2' as int) - ('0' as int) == 2);
    assert(decimal_value(d.drop_last()) == 2);
    assert(all_ascii_digits(d));
}

/// The port a line gives: 22 when it is blank, the trimmed line when that
/// reads as a `u16`, and none otherwise.
pub open spec fn accepted_port(line: Seq<char>) -> Option<Seq<char>> {
    let t = trimmed(line);
    if t.len() == 0 {
        Some(default_port_text())
    } else if parsed_u16(t) is Some {
        Some(t)
    } else {
        None
    }
}

/// A blank port entry stands for port 22.
pub proof fn lemma_blank_port_is_22(line: Seq<char>)
    requires
        is_blank(line),
    ensures
        accepted_port(line) == Some(default_port_text()),
        parsed_u16(default_port_text()) == Some(22u16),
{
    lemma_trimmed(line);
    lemma_default_port_text();
}

/// A port entry is accepted exactly when it is blank (port 22) or its
/// trimmed text reads as a `u16` (any `u16`, from 0 to 65535), and is then
/// kept as that trimmed text.
pub proof fn lemma_port_entries(line: Seq<char>)
    ensures
        parsed_u16(trimmed(line)) is Some ==> accepted_port(line) == Some(trimmed(line)),
        is_blank(line) ==> accepted_port(line) == Some(default_port_text()),
        !is_blank(line) && parsed_u16(trimmed(line)) is None ==> accepted_port(line) is None,
{
    lemma_trimmed(line);
}

/// The form after `line` is entered at `v`, or the message that rejects
/// the line (the form then stays as it was).
pub open spec fn form_after(v: CredentialFormView, line: Seq<char>) -> Result<
    CredentialFormView,
    Seq<char>,
> {
    let t = trimmed(line);
    match v.step {
        CredentialStep::Host => if t.len() > 0 {
            Ok(CredentialFormView { step: CredentialStep::Port, host: t, ..v })
        } else {
            Err(host_message())
        },
        CredentialStep::Port => match accepted_port(line) {
            Some(port) => Ok(CredentialFormView { step: CredentialStep::UserName, port, ..v }),
            None => Err(port_message()),
        },
        CredentialStep::UserName => if t.len() > 0 {
            Ok(CredentialFormView { step: CredentialStep::Password, username: t, ..v })
        } else {
            Err(username_message())
        },
        CredentialStep::Password => Ok(
            CredentialFormView { step: CredentialStep::Done, password: t, ..v },
        ),
        CredentialStep::Done => Ok(v),
    }
}

impl CredentialForm {
    #[verifier::type_invariant]
    closed spec fn inv(self) -> bool {
        form_wf(self@)
    }

    /// An empty form, asking for the host.
    pub fn new() -> (form: CredentialForm)
        ensures
            form@.step == CredentialStep::Host,
            form@.host.len() == 0,
            form@.port.len() == 0,
            form@.username.len() == 0,
            form@.password.len() == 0,
    {
        CredentialForm {
            step: CredentialStep::Host,
            host: String::new(),
            port: String::new(),
            username: String::new(),
            password: String::new(),
        }
    }

    /// The entry the form asks for next.
    pub fn step(&self) -> (step: CredentialStep)
        ensures
            step == self@.step,
    {
        self.step
    }

    /// Enters `line` as the entry the form asks for; on a rejected line
    /// returns the message to show and leaves the form as it was.
    pub fn submit(&mut self, line: &str) -> (res: Result<(), &'static str>)
        ensures
            form_wf(final(self)@),
            match form_after(old(self)@, line@) {
                Ok(v) => res is Ok && final(self)@ == v,
                Err(m) => res matches Err(msg) && msg@ == m && final(self)@ == old(self)@,
            },
            old(self)@.step == CredentialStep::Port && parsed_u16(trimmed(line@)) is Some ==> res is Ok
                && final(self)@.port == trimmed(line@) && final(self)@.step
                == CredentialStep::UserName,
            old(self)@.step == CredentialStep::Port && is_blank(line@) ==> res is Ok
                && final(self)@.port == default_port_text()
                && final(self)@.step == CredentialStep::UserName,
            old(self)@.step == CredentialStep::Port && !is_blank(line@) && parsed_u16(trimmed(line@))
                is None ==> res is Err && final(self)@ == old(self)@,
    {
        proof {
            lemma_port_entries(line@);
        }
        proof {
            use_type_invariant(&*self);
        }
        let t = trim_white_space(line);
        proof {
            lemma_trimmed(line@);
        }
        match self.step {
            CredentialStep::Host => {
                if t.is_empty() {
                    return Err("Host must not be blank.");
                }
                self.host = t.to_string();
                self.step = CredentialStep::Port;
            },
            CredentialStep::Port => {
                if t.is_empty() {
                    proof {
                        lemma_default_port_text();
                    }
                    self.port = "22".to_string();
                } else {
                    match parse_u16(t) {
                        Some(_) => {
                            self.port = t.to_string();
                        },
                        None => {
                            return Err("Invalid Port Number. Please enter a valid port.");
                        },
                    }
                }
                self.step = CredentialStep::UserName;
            },
            CredentialStep::UserName => {
                if t.is_empty() {
                    return Err("UserName must not be blank.");
                }
                self.username = t.to_string();
                self.step = CredentialStep::Password;
            },
            CredentialStep::Password => {
                self.password = t.to_string();
                self.step = CredentialStep::Done;
            },
            CredentialStep::Done => {},
        }
        proof {
            use_type_invariant(&*self);
        }
        Ok(())
    }

    /// The entries of a completed form in the order `map_network_creds`
    /// reads them: host, port, user name, password.
    pub fn inputs(&self) -> (data: Vec<String>)
        requires
            self@.step == CredentialStep::Done,
        ensures
            arg_texts(data@) == seq![self@.host, self@.port, self@.username, self@.password],
            creds_are_mappable(arg_texts(data@)),
    {
        proof {
            use_type_invariant(self);
        }
        let mut data: Vec<String> = Vec::new();
        data.push(self.host.clone());
        data.push(self.port.clone());
        data.push(self.username.clone());
        data.push(self.password.clone());
        assert(arg_texts(data@) =~= seq![self@.host, self@.port, self@.username, self@.password]);
        data
    }
}

/// The entries of a completed form are accepted by `map_network_creds`, and
/// its host is not blank.
pub proof fn lemma_completed_form_is_mappable(v: CredentialFormView)
    requires
        form_wf(v),
        v.step == CredentialStep::Done,
    ensures
        creds_are_mappable(seq![v.host, v.port, v.username, v.password]),
        !is_blank(v.host),
{
    lemma_trimmed(v.host);
}

/// A command line names no remote end exactly when it has three arguments.
pub proof fn lemma_unflagged_command_lines(a: Seq<Seq<char>>)
    ensures
        (spec_arg_layout(a) matches Ok((_, _, sn, dn)) && !sn && !dn) <==> a.len() == 3,
{
}

/// The host an end of a validated command line holds once every remote end
/// has been given the entries of a completed form.
pub open spec fn host_after_creds(needs_network: bool, form: CredentialFormView) -> Seq<char> {
    if needs_network {
        form.host
    } else {
        Seq::<char>::empty()
    }
}

/// Once each remote end of a validated command line holds the host of a
/// completed form, the transfer is local exactly when neither end was
/// remote.
pub proof fn lemma_route_follows_network_flags(
    src_needs_network: bool,
    dest_needs_network: bool,
    src_form: CredentialFormView,
    dest_form: CredentialFormView,
)
    requires
        form_wf(src_form),
        src_form.step == CredentialStep::Done,
        form_wf(dest_form),
        dest_form.step == CredentialStep::Done,
    ensures
        spec_route(
            host_after_creds(src_needs_network, src_form),
            host_after_creds(dest_needs_network, dest_form),
        ) == if !src_needs_network && !dest_needs_network {
            UnzipRoute::Local
        } else {
            UnzipRoute::Network
        },
{
    lemma_completed_form_is_mappable(src_form);
    lemma_completed_form_is_mappable(dest_form);
    let s = host_after_creds(src_needs_network, src_form);
    let d = host_after_creds(dest_needs_network, dest_form);
    lemma_route_is_local_iff_hostless(s, d);
}

} // verus!
