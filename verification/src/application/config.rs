//! Runtime configuration, sourced from environment variables.

use crate::numbers;
use crate::paths;
use crate::text;
use vstd::prelude::*;
use vstd::string::*;

verus! {

/// The environment variables that matter, each with its value if it is set.
#[derive(Debug)]
pub struct Environment {
    /// `DISCORD_TOKEN`
    pub discord_token: Option<String>,
    /// `OPENCODE_URL`
    pub opencode_url: Option<String>,
    /// `LILY_DATA_DIR`
    pub data_dir: Option<String>,
    /// `HOME`
    pub home: Option<String>,
    /// `LILY_INTERRUPT_STEP_TIMEOUT_MS`
    pub interrupt_timeout_ms: Option<String>,
    /// `LILY_ALLOWED_USERS`
    pub allowed_users: Option<String>,
    /// `MATRIX_HOMESERVER`
    pub matrix_homeserver: Option<String>,
    /// `MATRIX_USER`
    pub matrix_user: Option<String>,
    /// `MATRIX_PASSWORD`
    pub matrix_password: Option<String>,
}

#[derive(Debug)]
pub struct Config {
    /// Discord bot token (`DISCORD_TOKEN`). Only needed by `lily run`.
    pub discord_token: Option<String>,
    /// Base URL of the OpenCode server (`OPENCODE_URL`).
    pub opencode_url: String,
    /// Data directory for the database and worktrees (`LILY_DATA_DIR`).
    pub data_dir: String,
    /// How long a message waits behind a running step before lily aborts the step and
    /// force-delivers it (`LILY_INTERRUPT_STEP_TIMEOUT_MS`).
    pub interrupt_timeout_ms: u64,
    /// The users that are listened to; everyone where it is not set
    /// (`LILY_ALLOWED_USERS`).
    pub allowed_users: Option<Vec<String>>,
    pub matrix_homeserver: Option<String>,
    pub matrix_user: Option<String>,
    pub matrix_password: Option<String>,
}

/// The entries of a comma-separated list, trimmed, without the empty ones.
pub open spec fn list_entries(parts: Seq<Seq<char>>) -> Seq<Seq<char>>
    decreases parts.len(),
{
    if parts.len() == 0 {
        Seq::empty()
    } else {
        let before = list_entries(parts.drop_last());
        if text::trim(parts.last()).len() == 0 {
            before
        } else {
            before.push(text::trim(parts.last()))
        }
    }
}

/// The users that a value of `LILY_ALLOWED_USERS` names.
pub open spec fn user_list(value: Seq<char>) -> Seq<Seq<char>> {
    list_entries(text::split(value, ','))
}

fn parse_users(value: &str) -> (r: Vec<String>)
    ensures
        text::texts(r@) == user_list(value@),
{
    let parts = text::split_char(value, ',');
    let ghost all = text::texts(parts@);
    let mut out: Vec<String> = Vec::new();
    let mut i: usize = 0;
    proof {
        assert(all.take(0) =~= Seq::<Seq<char>>::empty());
        assert(text::texts(out@) =~= Seq::<Seq<char>>::empty());
    }
    while i < parts.len()
        invariant
            i <= parts@.len(),
            all == text::texts(parts@),
            text::texts(out@) == list_entries(all.take(i as int)),
        decreases parts@.len() - i,
    {
        let ghost before = text::texts(out@);
        proof {
            assert(all.take(i + 1).drop_last() =~= all.take(i as int));
            assert(all.take(i + 1).last() == parts@[i as int]@);
        }
        let entry = text::trimmed(parts[i].as_str());
        if !entry.as_str().is_empty() {
            out.push(entry);
            proof {
                assert(text::texts(out@) =~= before.push(entry@));
            }
        }
        i = i + 1;
    }
    proof {
        assert(all.take(parts@.len() as int) =~= all);
    }
    out
}

/// The data directory: the one that is set, or `.lily` in the home directory.
pub open spec fn data_directory(dir: Option<Seq<char>>, home: Option<Seq<char>>) -> Option<
    Seq<char>,
> {
    match dir {
        Some(d) => Some(d),
        None => match home {
            Some(h) => Some(paths::joined(h, ".lily"@)),
            None => None,
        },
    }
}

/// The grace period: the number that is set, or 3000 milliseconds.
pub open spec fn grace_period(value: Option<Seq<char>>) -> nat {
    match value {
        Some(v) => match numbers::unsigned_value(v, u64::MAX as nat) {
            Ok(n) => n,
            Err(_) => 3000,
        },
        None => 3000,
    }
}

pub open spec fn opt_users(o: Option<Vec<String>>) -> Option<Seq<Seq<char>>> {
    match o {
        Some(v) => Some(text::texts(v@)),
        None => None,
    }
}

/// Whether a user is listened to.
pub open spec fn allows(users: Option<Seq<Seq<char>>>, user: Seq<char>) -> bool {
    match users {
        Some(list) => list.contains(user),
        None => true,
    }
}

impl Config {
    /// The configuration that an environment describes. The home directory is only
    /// needed where no data directory is set.
    pub fn from_env(env: Environment) -> (r: Result<Config, String>)
        ensures
            match r {
                Ok(c) => {
                    &&& c.discord_token == env.discord_token
                    &&& c.opencode_url@ == match env.opencode_url {
                        Some(u) => u@,
                        None => "http://127.0.0.1:4096"@,
                    }
                    &&& data_directory(text::opt_view(env.data_dir), text::opt_view(env.home)) == Some(
                        c.data_dir@,
                    )
                    &&& c.interrupt_timeout_ms == grace_period(text::opt_view(env.interrupt_timeout_ms))
                    &&& opt_users(c.allowed_users) == match env.allowed_users {
                        Some(v) => Some(user_list(v@)),
                        None => None,
                    }
                    &&& c.matrix_homeserver == env.matrix_homeserver
                    &&& c.matrix_user == env.matrix_user
                    &&& c.matrix_password == env.matrix_password
                },
                Err(e) => env.data_dir is None && env.home is None && e@ == "HOME is not set"@,
            },
    {
        let data_dir = match env.data_dir {
            Some(d) => d,
            None => match env.home {
                Some(home) => paths::join_path(home.as_str(), ".lily"),
                None => return Err("HOME is not set".to_owned()),
            },
        };
        let opencode_url = match env.opencode_url {
            Some(u) => u,
            None => "http://127.0.0.1:4096".to_owned(),
        };
        let interrupt_timeout_ms: u64 = match &env.interrupt_timeout_ms {
            Some(v) => match numbers::parse_u64(v.as_str()) {
                Ok(n) => n,
                Err(_) => 3000,
            },
            None => 3000,
        };
        let allowed_users = match &env.allowed_users {
            Some(v) => Some(parse_users(v.as_str())),
            None => None,
        };
        Ok(
            Config {
                discord_token: env.discord_token,
                opencode_url,
                data_dir,
                interrupt_timeout_ms,
                allowed_users,
                matrix_homeserver: env.matrix_homeserver,
                matrix_user: env.matrix_user,
                matrix_password: env.matrix_password,
            },
        )
    }

    /// Where the database lives.
    pub fn db_path(&self) -> (r: String)
        ensures
            r@ == paths::joined(self.data_dir@, "lily.db"@),
    {
        paths::join_path(self.data_dir.as_str(), "lily.db")
    }

    /// Whether a user is listened to: where users are named, no one else is.
    pub fn is_user_allowed(&self, user: &str) -> (r: bool)
        ensures
            r == allows(opt_users(self.allowed_users), user@),
    {
        match &self.allowed_users {
            None => true,
            Some(list) => {
                let ghost all = text::texts(list@);
                let mut i: usize = 0;
                while i < list.len()
                    invariant
                        i <= list@.len(),
                        self.allowed_users == Some(*list),
                        all == text::texts(list@),
                        forall|k: int| 0 <= k < i ==> all[k] != user@,
                    decreases list@.len() - i,
                {
                    if text::same_text(list[i].as_str(), user) {
                        proof {
                            assert(all[i as int] == user@);
                        }
                        return true;
                    }
                    i = i + 1;
                }
                false
            },
        }
    }

    /// Which platforms are configured: Discord and Matrix. At least one has to be.
    pub fn connectors(&self) -> (r: Result<(bool, bool), String>)
        ensures
            match r {
                Ok(p) => p.0 == self.discord_token is Some && p.1 == self.matrix_homeserver is Some
                    && (p.0 || p.1),
                Err(e) => self.discord_token is None && self.matrix_homeserver is None && e@
                    == "no connector configured: set DISCORD_TOKEN and/or MATRIX_HOMESERVER (+ MATRIX_USER, MATRIX_PASSWORD)"@,
            },
    {
        let discord = self.discord_token.is_some();
        let matrix = self.matrix_homeserver.is_some();
        if !discord && !matrix {
            return Err(
                "no connector configured: set DISCORD_TOKEN and/or MATRIX_HOMESERVER (+ MATRIX_USER, MATRIX_PASSWORD)".to_owned(),
            );
        }
        Ok((discord, matrix))
    }

    /// What logging in to Matrix needs: the homeserver, the user and the password.
    pub fn matrix_login(&self) -> (r: Result<(String, String, String), String>)
        ensures
            match r {
                Ok(p) => text::opt_view(self.matrix_homeserver) == Some(p.0@) && text::opt_view(
                    self.matrix_user,
                ) == Some(p.1@) && text::opt_view(self.matrix_password) == Some(p.2@),
                Err(e) => e@ == if self.matrix_homeserver is None {
                    "MATRIX_HOMESERVER is not set"@
                } else if self.matrix_user is None {
                    "MATRIX_USER is not set"@
                } else {
                    "MATRIX_PASSWORD is not set"@
                } && (self.matrix_homeserver is None || self.matrix_user is None
                    || self.matrix_password is None),
            },
    {
        match (&self.matrix_homeserver, &self.matrix_user, &self.matrix_password) {
            (None, _, _) => Err("MATRIX_HOMESERVER is not set".to_owned()),
            (Some(_), None, _) => Err("MATRIX_USER is not set".to_owned()),
            (Some(_), Some(_), None) => Err("MATRIX_PASSWORD is not set".to_owned()),
            (Some(h), Some(u), Some(p)) => Ok((h.clone(), u.clone(), p.clone())),
        }
    }
}

/// Where users are named, exactly they are listened to; a value that names no one
/// shuts everyone out.
pub proof fn law_allowlist_is_exact(value: Seq<char>, user: Seq<char>)
    ensures
        allows(None, user),
        allows(Some(user_list(value)), user) <==> text::trim(user) == user && user.len() > 0 && exists|
            i: int,
        |
            0 <= i < text::split(value, ',').len() && text::trim(#[trigger] text::split(value, ',')[i]) == user,
{
    lemma_entries(text::split(value, ','), user);
}

proof fn lemma_entries(parts: Seq<Seq<char>>, user: Seq<char>)
    ensures
        list_entries(parts).contains(user) <==> text::trim(user) == user && user.len() > 0 && exists|
            i: int,
        |
            0 <= i < parts.len() && text::trim(#[trigger] parts[i]) == user,
    decreases parts.len(),
{
    if parts.len() > 0 {
        let init = parts.drop_last();
        let last = text::trim(parts.last());
        lemma_entries(init, user);
        text::lemma_trim_ends(parts.last());
        let before = list_entries(init);
        let all = list_entries(parts);
        if before.contains(user) {
            let k = choose|k: int| 0 <= k < before.len() && before[k] == user;
            assert(all[k] == user);
            let i = choose|i: int| 0 <= i < init.len() && text::trim(#[trigger] init[i]) == user;
            assert(text::trim(parts[i]) == user);
        }
        if last == user && user.len() > 0 {
            assert(all[all.len() - 1] == user);
            assert(text::trim(parts[parts.len() - 1]) == user);
        }
        if all.contains(user) {
            let k = choose|k: int| 0 <= k < all.len() && all[k] == user;
            if k < before.len() {
                assert(before[k] == user);
            }
        }
        if exists|i: int| 0 <= i < parts.len() && text::trim(#[trigger] parts[i]) == user {
            let i = choose|i: int| 0 <= i < parts.len() && text::trim(#[trigger] parts[i]) == user;
            if i < init.len() {
                assert(text::trim(init[i]) == user);
            }
        }
    }
}

/// The users of a list are its entries in order: what follows a comma adds to what
/// stands before it, an entry loses the whitespace around it, and a blank one names no
/// one.
pub proof fn law_users_are_listed_in_order(a: Seq<Seq<char>>, entry: Seq<char>)
    ensures
        text::trim(entry).len() > 0 ==> list_entries(a.push(entry)) == list_entries(a).push(
            text::trim(entry),
        ),
        text::trim(entry).len() == 0 ==> list_entries(a.push(entry)) == list_entries(a),
        list_entries(Seq::empty()).len() == 0,
{
    assert(a.push(entry).drop_last() =~= a);
}

/// The data directory that is set is taken as it is; without one it is `.lily` below the
/// home directory, and without that there is none.
pub proof fn law_data_directory(dir: Seq<char>, home: Seq<char>)
    ensures
        data_directory(Some(dir), None) == Some(dir),
        data_directory(Some(dir), Some(home)) == Some(dir),
        data_directory(None, None) is None,
        home.len() > 0 && home.last() != '/' ==> data_directory(None, Some(home)) == Some(
            home + "/.lily"@,
        ),
{
    reveal_strlit(".lily");
    reveal_strlit("/.lily");
    assert(".lily"@[0] == '.');
    assert(home.push('/') + ".lily"@ =~= home + "/.lily"@);
}

/// The grace period is the number of milliseconds that is set; what is no number, or
/// not set, stands for three seconds.
pub proof fn law_grace_period(value: Seq<char>, n: nat)
    ensures
        grace_period(None) == 3000,
        numbers::unsigned_value(value, 0xffff_ffff_ffff_ffff) == Ok::<nat, numbers::IntError>(n)
            ==> grace_period(Some(value)) == n,
        numbers::unsigned_value(value, 0xffff_ffff_ffff_ffff) is Err ==> grace_period(Some(value))
            == 3000,
{
}

} // verus!
