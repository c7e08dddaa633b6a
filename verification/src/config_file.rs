//! Profiles: named sets of settings that a configuration can start from.

use vstd::prelude::*;
use crate::grant::Grant;
use crate::text::{decimal_digits, format_u64};
use crate::token_info::{clone_opt_string, opt_view};
use crate::web::pairs_view;

verus! {

/// The settings of one profile. What a profile leaves out stays as it is.
#[derive(Clone, Debug, PartialEq, Eq)]
pub struct Profile {
    /// Authentication grant.
    pub grant: Option<Grant>,
    /// Token exchange URL.
    pub token_url: Option<String>,
    /// Authorization initiation URL.
    pub authorization_url: Option<String>,
    /// OpenID Connect discovery URL.
    pub discovery_url: Option<String>,
    /// Callback URL that is registered for the application.
    pub callback_url: Option<String>,
    /// Client identifier.
    pub client_id: Option<String>,
    /// Client secret.
    pub client_secret: Option<String>,
    /// User name of the resource owner.
    pub username: Option<String>,
    /// Password of the resource owner.
    pub password: Option<String>,
    /// Requested scope.
    pub scope: Option<String>,
    /// Requested audience.
    pub audience: Option<String>,
    /// How long to wait for the callback, in milliseconds.
    pub timeout: Option<u64>,
}

/// A profile under its name.
#[derive(Clone, Debug, PartialEq, Eq)]
pub struct NamedProfile {
    pub name: String,
    pub profile: Profile,
}

/// The profiles of a configuration file.
#[derive(Clone, Debug, PartialEq, Eq)]
pub struct Config {
    pub profile: Vec<NamedProfile>,
}

/// Whether no name occurs twice among `profiles`.
pub open spec fn distinct_names(profiles: Seq<NamedProfile>) -> bool {
    forall|i: int, j: int|
        0 <= i < j < profiles.len() ==> (#[trigger] profiles[i]).name@ != (
        #[trigger] profiles[j]).name@
}

impl Config {
    /// The profiles of a configuration file are well formed when each name
    /// stands for one profile.
    pub open spec fn wf(&self) -> bool {
        distinct_names(self.profile@)
    }

    /// Tells whether each name stands for one profile.
    pub fn is_wf(&self) -> (r: bool)
        ensures
            r == self.wf(),
    {
        let n = self.profile.len();
        let mut j: usize = 0;
        while j < n
            invariant
                j <= n,
                n == self.profile@.len(),
                forall|a: int, b: int|
                    0 <= a < b < j ==> (#[trigger] self.profile@[a]).name@ != (
                    #[trigger] self.profile@[b]).name@,
            decreases n - j,
        {
            let mut i: usize = 0;
            while i < j
                invariant
                    i <= j < n,
                    n == self.profile@.len(),
                    forall|a: int|
                        0 <= a < i ==> (#[trigger] self.profile@[a]).name@
                            != self.profile@[j as int].name@,
                decreases j - i,
            {
                if self.profile[i].name == self.profile[j].name {
                    assert(self.profile@[i as int].name@ == self.profile@[j as int].name@);
                    return false;
                }
                i += 1;
            }
            j += 1;
        }
        true
    }
}

/// Where no name occurs twice, the profile found under a name is the one
/// profile of that name.
pub proof fn lemma_named_profile_is_the_only_one(
    profiles: Seq<NamedProfile>,
    name: Seq<char>,
    i: int,
)
    requires
        distinct_names(profiles),
        0 <= i < profiles.len(),
        profiles[i].name@ == name,
    ensures
        first_named(profiles, name) == Some(profiles[i].profile),
    decreases profiles.len(),
{
    if profiles[0].name@ == name {
        if i != 0 {
            assert(profiles[0].name@ != profiles[i].name@);
        }
    } else {
        let rest = profiles.drop_first();
        assert forall|a: int, b: int| 0 <= a < b < rest.len() implies (#[trigger] rest[a]).name@
            != (#[trigger] rest[b]).name@ by {
            assert(rest[a] == profiles[a + 1] && rest[b] == profiles[b + 1]);
        }
        assert(rest[i - 1] == profiles[i]);
        lemma_named_profile_is_the_only_one(rest, name, i - 1);
    }
}

/// The profile that was asked for is not in the configuration file.
#[derive(Clone, Copy, Debug, PartialEq, Eq, Structural)]
pub struct ProfileNotFound;

/// The setting named `name`, if it has a value.
pub open spec fn setting(name: Seq<char>, value: Option<Seq<char>>) -> Seq<(Seq<char>, Seq<char>)> {
    match value {
        Some(v) => seq![(name, v)],
        None => Seq::empty(),
    }
}

/// The settings that a profile makes, each under the name of the variable
/// that carries it, in the order in which they are applied.
pub open spec fn settings_of(profile: Profile) -> Seq<(Seq<char>, Seq<char>)> {
    setting(
        "DOKEN_GRANT"@,
        match profile.grant {
            Some(grant) => Some(grant.name_text()),
            None => None,
        },
    ) + setting("DOKEN_DISCOVERY_URL"@, opt_view(profile.discovery_url)) + setting(
        "DOKEN_TOKEN_URL"@,
        opt_view(profile.token_url),
    ) + setting("DOKEN_AUTHORIZATION_URL"@, opt_view(profile.authorization_url)) + setting(
        "DOKEN_CALLBACK_URL"@,
        opt_view(profile.callback_url),
    ) + setting("DOKEN_CLIENT_ID"@, opt_view(profile.client_id)) + setting(
        "DOKEN_CLIENT_SECRET"@,
        opt_view(profile.client_secret),
    ) + setting("DOKEN_USERNAME"@, opt_view(profile.username)) + setting(
        "DOKEN_PASSWORD"@,
        opt_view(profile.password),
    ) + setting("DOKEN_SCOPE"@, opt_view(profile.scope)) + setting(
        "DOKEN_AUDIENCE"@,
        opt_view(profile.audience),
    ) + setting(
        "DOKEN_TIMEOUT"@,
        match profile.timeout {
            Some(timeout) => Some(decimal_digits(timeout as nat)),
            None => None,
        },
    )
}

/// The first profile of `profiles` that is named `name`.
pub open spec fn first_named(profiles: Seq<NamedProfile>, name: Seq<char>) -> Option<Profile>
    decreases profiles.len(),
{
    if profiles.len() == 0 {
        None
    } else if profiles[0].name@ == name {
        Some(profiles[0].profile)
    } else {
        first_named(profiles.drop_first(), name)
    }
}

/// Puts the setting named `name` behind `out`, if it has a value.
fn push_setting(out: &mut Vec<(String, String)>, name: &str, value: Option<String>)
    ensures
        pairs_view(final(out)@) == pairs_view(old(out)@) + setting(name@, opt_view(value)),
{
    let ghost before = pairs_view(out@);
    match value {
        Some(v) => {
            out.push((name.to_owned(), v));
            proof {
                assert(pairs_view(out@) =~= before + seq![(name@, v@)]);
            }
        },
        None => {
            proof {
                assert(pairs_view(out@) =~= before + Seq::empty());
            }
        },
    }
}

impl Profile {
    /// The settings that the profile makes, each under the name of the
    /// variable that carries it.
    pub fn settings(&self) -> (r: Vec<(String, String)>)
        ensures
            pairs_view(r@) == settings_of(*self),
    {
        let mut out: Vec<(String, String)> = Vec::new();
        proof {
            assert(pairs_view(out@) =~= Seq::empty());
        }
        let grant = match &self.grant {
            Some(grant) => Some(grant.name().to_owned()),
            None => None,
        };
        push_setting(&mut out, "DOKEN_GRANT", grant);
        push_setting(&mut out, "DOKEN_DISCOVERY_URL", clone_opt_string(&self.discovery_url));
        push_setting(&mut out, "DOKEN_TOKEN_URL", clone_opt_string(&self.token_url));
        push_setting(&mut out, "DOKEN_AUTHORIZATION_URL", clone_opt_string(&self.authorization_url));
        push_setting(&mut out, "DOKEN_CALLBACK_URL", clone_opt_string(&self.callback_url));
        push_setting(&mut out, "DOKEN_CLIENT_ID", clone_opt_string(&self.client_id));
        push_setting(&mut out, "DOKEN_CLIENT_SECRET", clone_opt_string(&self.client_secret));
        push_setting(&mut out, "DOKEN_USERNAME", clone_opt_string(&self.username));
        push_setting(&mut out, "DOKEN_PASSWORD", clone_opt_string(&self.password));
        push_setting(&mut out, "DOKEN_SCOPE", clone_opt_string(&self.scope));
        push_setting(&mut out, "DOKEN_AUDIENCE", clone_opt_string(&self.audience));
        let timeout = match self.timeout {
            Some(timeout) => Some(format_u64(timeout)),
            None => None,
        };
        push_setting(&mut out, "DOKEN_TIMEOUT", timeout);
        proof {
            assert(pairs_view(out@) =~= settings_of(*self));
        }
        out
    }
}

/// The configuration file, once read.
#[derive(Clone, Debug, PartialEq, Eq)]
pub struct ConfigFile {
    pub config: Config,
}

impl ConfigFile {
    /// A configuration file is well formed when its profiles are.
    pub open spec fn wf(&self) -> bool {
        self.config.wf()
    }

    /// Takes over what was read from the configuration file. A file that
    /// is missing or cannot be read counts as one without profiles, and so
    /// does one that names a profile twice.
    pub fn new(loaded: Option<Config>) -> (r: ConfigFile)
        ensures
            r.wf(),
            loaded matches Some(config) ==> (if config.wf() {
                r.config == config
            } else {
                r.config.profile@.len() == 0
            }),
            loaded is None ==> r.config.profile@.len() == 0,
    {
        match loaded {
            Some(config) => {
                if config.is_wf() {
                    ConfigFile { config }
                } else {
                    ConfigFile { config: Config { profile: Vec::new() } }
                }
            },
            None => ConfigFile { config: Config { profile: Vec::new() } },
        }
    }

    /// The settings to apply for the profile that was asked for. No
    /// profile asked for means no settings; a profile that the file does
    /// not hold is an error; otherwise the settings are those of the
    /// profile of that name, which in a well-formed file is the only one.
    pub fn apply_profile(&self, profile: Option<String>) -> (r: Result<
        Vec<(String, String)>,
        ProfileNotFound,
    >)
        ensures
            profile is None ==> r is Ok && r->Ok_0@.len() == 0,
            profile matches Some(name) ==> match first_named(self.config.profile@, name@) {
                Some(found) => r is Ok && pairs_view(r->Ok_0@) == settings_of(found),
                None => r is Err,
            },
    {
        let name = match profile {
            Some(name) => name,
            None => {
                return Ok(Vec::new());
            },
        };
        let profiles = &self.config.profile;
        let mut i: usize = 0;
        proof {
            assert(profiles@.skip(0) =~= profiles@);
        }
        while i < profiles.len()
            invariant
                i <= profiles.len(),
                profile == Some(name),
                *profiles == self.config.profile,
                first_named(profiles@, name@) == first_named(profiles@.skip(i as int), name@),
            decreases profiles.len() - i,
        {
            proof {
                assert(profiles@.skip(i as int)[0] == profiles@[i as int]);
                assert(profiles@.skip(i as int).drop_first() =~= profiles@.skip(i + 1));
            }
            if profiles[i].name == name {
                return Ok(profiles[i].profile.settings());
            }
            i += 1;
        }
        Err(ProfileNotFound)
    }
}

} // verus!
