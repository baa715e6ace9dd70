//! Anonymous per-browser identities.
use crate::ids::random_id;
use vstd::prelude::*;
use vstd::string::StringExecFns;

verus! {

/// A user profile: an immutable id and a display name.
#[derive(Clone, Debug)]
pub struct User {
    pub id: String,
    pub user_name: String,
}

/// The operating system and the browser name that woothee reads from a
/// user-agent string, if it recognises it.
pub uninterp spec fn user_agent_fields(ua: Seq<char>) -> Option<(Seq<char>, Seq<char>)>;

/// `s` with every occurrence of `from` replaced by `to`.
pub uninterp spec fn replaced(s: Seq<char>, from: Seq<char>, to: Seq<char>) -> Seq<char>;

/// Relies on `woothee::parser::Parser::parse`: the `os` and `name` fields of
/// its result, which depend on the user-agent string alone.
#[verifier::external_body]
fn parse_user_agent(ua: &str) -> (r: Option<(String, String)>)
    ensures
        match r {
            Some(p) => user_agent_fields(ua@) == Some((p.0@, p.1@)),
            None => user_agent_fields(ua@) is None,
        },
{
    woothee::parser::Parser::new().parse(ua).map(|w| (w.os.to_string(), w.name.to_string()))
}

/// Relies on `str::replace`: the result depends on its arguments alone.
#[verifier::external_body]
fn replace_all(s: &str, from: &str, to: &str) -> (r: String)
    ensures
        r@ == replaced(s@, from@, to@),
{
    s.replace(from, to)
}

/// The display name made of a (shortened) operating system name and a
/// browser name.
pub open spec fn display_name(os: Seq<char>, browser: Seq<char>) -> Seq<char> {
    os + seq![' '] + browser
}

/// The default display name for a user agent: its operating system, with
/// "Windows" shortened to "Win", a space, and its browser name.
pub open spec fn default_user_name_spec(ua: Seq<char>) -> Option<Seq<char>> {
    match user_agent_fields(ua) {
        Some(f) => Some(display_name(replaced(f.0, "Windows"@, "Win"@), f.1)),
        None => None,
    }
}

/// Joins an operating system name and a browser name with a space.
pub fn join_display_name(os: &str, browser: &str) -> (r: String)
    ensures
        r@ == display_name(os@, browser@),
{
    let mut r = String::from_str(os);
    r.append(" ");
    r.append(browser);
    proof {
        reveal_strlit(" ");
    }
    r
}

/// The default display name read from a user-agent string, `None` when the
/// user agent is not recognised.
pub fn get_default_user_name_from_ua(ua: &str) -> (r: Option<String>)
    ensures
        match r {
            Some(n) => default_user_name_spec(ua@) == Some(n@),
            None => default_user_name_spec(ua@) is None,
        },
{
    match parse_user_agent(ua) {
        Some(fields) => {
            let os = replace_all(fields.0.as_str(), "Windows", "Win");
            Some(join_display_name(os.as_str(), fields.1.as_str()))
        },
        None => None,
    }
}

impl User {
    /// A copy of the profile, field by field.
    pub fn duplicate(&self) -> (r: User)
        ensures
            r == *self,
    {
        User { id: self.id.clone(), user_name: self.user_name.clone() }
    }

    /// A profile for `id`, named after its first three characters.
    pub fn with_id(id: String) -> (r: User)
        requires
            id@.len() >= 3,
        ensures
            r.id == id,
            r.user_name@ == id@.subrange(0, 3),
    {
        let user_name = id.as_str().substring_char(0, 3).to_string();
        User { id, user_name }
    }

    /// A profile with a fresh random id of sixteen characters, named after
    /// its first three.
    pub fn new() -> (r: User)
        ensures
            r.id@.len() == 16,
            r.user_name@ == r.id@.subrange(0, 3),
    {
        User::with_id(random_id(16))
    }

    /// Takes the display name of `user`; the id stays.
    pub fn update(&mut self, user: User)
        ensures
            final(self).id == old(self).id,
            final(self).user_name == user.user_name,
    {
        self.user_name = user.user_name;
    }

    /// The profile for a request: the one stored in its session if any
    /// (`false`: nothing to store), else a new profile, named after the user
    /// agent when that is recognised (`true`: to be stored).
    pub fn from_session(stored: Option<User>, user_agent: &str) -> (r: (User, bool))
        ensures
            stored is Some ==> r == (stored.unwrap(), false),
            stored is None ==> {
                &&& r.1
                &&& r.0.id@.len() == 16
                &&& r.0.user_name@ == match default_user_name_spec(user_agent@) {
                    Some(n) => n,
                    None => r.0.id@.subrange(0, 3),
                }
            },
    {
        match stored {
            Some(user) => (user, false),
            None => {
                let mut user = User::new();
                match get_default_user_name_from_ua(user_agent) {
                    Some(name) => {
                        user.user_name = name;
                    },
                    None => {},
                }
                (user, true)
            },
        }
    }
}

} // verus!
