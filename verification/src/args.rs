//! The configuration of one token acquisition and the rule that says which
//! of its fields each grant needs.

use vstd::prelude::*;
use crate::grant::Grant;

verus! {

/// The timeout of the interactive grants when none is configured, in
/// milliseconds.
pub const DEFAULT_TIMEOUT: u64 = 30_000;

/// Everything one token acquisition is configured with.
#[derive(Clone, Debug, PartialEq, Eq)]
pub struct Arguments {
    /// Authentication grant.
    pub grant: Grant,
    /// Token exchange URL.
    pub token_url: Option<String>,
    /// Authorization initiation URL.
    pub authorization_url: Option<String>,
    /// OpenID Connect discovery URL.
    pub discovery_url: Option<String>,
    /// Callback URL that is registered for the application.
    pub callback_url: Option<String>,
    /// Client identifier.
    pub client_id: String,
    /// Client secret.
    pub client_secret: Option<String>,
    /// Whether the client secret is asked for on standard input.
    pub client_secret_stdin: bool,
    /// User name of the resource owner.
    pub username: Option<String>,
    /// Password of the resource owner.
    pub password: Option<String>,
    /// Whether the password is asked for on standard input.
    pub password_stdin: bool,
    /// Requested scope.
    pub scope: String,
    /// Requested audience.
    pub audience: Option<String>,
    /// How long to wait for the callback, in milliseconds.
    pub timeout: u64,
    /// Whether to pass over the token cache and run a fresh flow.
    pub force: bool,
    /// Whether to print diagnostics.
    pub debug: bool,
    /// The profile of the configuration file to start from.
    pub profile: Option<String>,
}

impl Default for Arguments {
    fn default() -> (r: Arguments)
        ensures
            r.grant == Grant::AuthorizationCodeWithPkce,
            r.token_url is None,
            r.authorization_url is None,
            r.discovery_url is None,
            r.callback_url is None,
            r.client_id@ == Seq::<char>::empty(),
            r.client_secret is None,
            !r.client_secret_stdin,
            r.username is None,
            r.password is None,
            !r.password_stdin,
            r.scope@ == Seq::<char>::empty(),
            r.audience is None,
            r.timeout == DEFAULT_TIMEOUT,
            !r.force,
            !r.debug,
            r.profile is None,
    {
        Arguments {
            grant: Grant::AuthorizationCodeWithPkce,
            token_url: None,
            authorization_url: None,
            discovery_url: None,
            callback_url: None,
            client_id: String::new(),
            client_secret: None,
            client_secret_stdin: false,
            username: None,
            password: None,
            password_stdin: false,
            scope: String::new(),
            audience: None,
            timeout: DEFAULT_TIMEOUT,
            force: false,
            debug: false,
            profile: None,
        }
    }
}

impl Arguments {
    /// An independent copy with the same value.
    pub fn duplicate(&self) -> (r: Arguments)
        ensures
            r == *self,
    {
        Arguments {
            grant: self.grant,
            token_url: crate::token_info::clone_opt_string(&self.token_url),
            authorization_url: crate::token_info::clone_opt_string(&self.authorization_url),
            discovery_url: crate::token_info::clone_opt_string(&self.discovery_url),
            callback_url: crate::token_info::clone_opt_string(&self.callback_url),
            client_id: self.client_id.clone(),
            client_secret: crate::token_info::clone_opt_string(&self.client_secret),
            client_secret_stdin: self.client_secret_stdin,
            username: crate::token_info::clone_opt_string(&self.username),
            password: crate::token_info::clone_opt_string(&self.password),
            password_stdin: self.password_stdin,
            scope: self.scope.clone(),
            audience: crate::token_info::clone_opt_string(&self.audience),
            timeout: self.timeout,
            force: self.force,
            debug: self.debug,
            profile: crate::token_info::clone_opt_string(&self.profile),
        }
    }
}

/// What a configuration lacks for its grant.
#[derive(Clone, Copy, Debug, PartialEq, Eq, Structural)]
pub enum ArgumentError {
    /// An interactive grant without token, authorization and discovery URL.
    MissingEndpoint,
    /// An interactive grant without a callback URL.
    MissingCallbackUrl,
    /// A grant that only talks to the token endpoint, without token and
    /// discovery URL.
    MissingTokenEndpoint,
    /// A grant that authenticates the client, without a client secret and
    /// without the wish to be asked for one.
    MissingClientSecret,
    /// The password grant without a user name.
    MissingUsername,
    /// The password grant without a password and without the wish to be
    /// asked for one.
    MissingPassword,
}

/// The validator of [`Arguments`].
pub struct Args;

impl Args {
    /// What an interactive grant lacks: first the endpoints are looked at,
    /// then the callback URL.
    pub open spec fn interactive_fault(args: Arguments) -> Option<ArgumentError> {
        if args.token_url is None && args.authorization_url is None && args.discovery_url is None {
            Some(ArgumentError::MissingEndpoint)
        } else if args.callback_url is None {
            Some(ArgumentError::MissingCallbackUrl)
        } else {
            None
        }
    }

    /// What a grant that authenticates the client lacks: first the token
    /// endpoint is looked at, then the client secret.
    pub open spec fn client_fault(args: Arguments) -> Option<ArgumentError> {
        if args.token_url is None && args.discovery_url is None {
            Some(ArgumentError::MissingTokenEndpoint)
        } else if args.client_secret is None && !args.client_secret_stdin {
            Some(ArgumentError::MissingClientSecret)
        } else {
            None
        }
    }

    /// What the password grant lacks: what any grant that authenticates
    /// the client lacks, then the user name, then the password.
    pub open spec fn password_fault(args: Arguments) -> Option<ArgumentError> {
        if Args::client_fault(args) is Some {
            Args::client_fault(args)
        } else if args.username is None {
            Some(ArgumentError::MissingUsername)
        } else if args.password is None && !args.password_stdin {
            Some(ArgumentError::MissingPassword)
        } else {
            None
        }
    }

    /// The first thing that `args` lacks for its grant, if it lacks
    /// anything.
    pub open spec fn fault(args: Arguments) -> Option<ArgumentError> {
        match args.grant {
            Grant::AuthorizationCodeWithPkce => Args::interactive_fault(args),
            Grant::AuthorizationCode => Args::interactive_fault(args),
            Grant::Implicit => Args::interactive_fault(args),
            Grant::ResourceOwnerPasswordClientCredentials => Args::password_fault(args),
            Grant::ClientCredentials => Args::client_fault(args),
        }
    }

    /// Checks what every interactive grant needs: one of the three
    /// endpoint URLs and a callback URL.
    pub fn assert_urls_for_authorization_grants(args: &Arguments) -> (r: Result<
        (),
        ArgumentError,
    >)
        ensures
            r is Ok <==> Args::interactive_fault(*args) is None,
            r is Err ==> Some(r->Err_0) == Args::interactive_fault(*args),
    {
        if args.token_url.is_none() && args.authorization_url.is_none()
            && args.discovery_url.is_none() {
            return Err(ArgumentError::MissingEndpoint);
        }
        if args.callback_url.is_none() {
            return Err(ArgumentError::MissingCallbackUrl);
        }
        Ok(())
    }

    /// Checks what every grant that authenticates the client needs: a
    /// token or discovery URL and a client secret, given or to be asked
    /// for.
    pub fn assert_client_credentials(args: &Arguments) -> (r: Result<(), ArgumentError>)
        ensures
            r is Ok <==> Args::client_fault(*args) is None,
            r is Err ==> Some(r->Err_0) == Args::client_fault(*args),
    {
        if args.token_url.is_none() && args.discovery_url.is_none() {
            return Err(ArgumentError::MissingTokenEndpoint);
        }
        if args.client_secret.is_none() && !args.client_secret_stdin {
            return Err(ArgumentError::MissingClientSecret);
        }
        Ok(())
    }

    /// Checks that `args` holds what its grant needs, and names the first
    /// thing that is missing.
    pub fn assert_grant_specific_arguments(args: &Arguments) -> (r: Result<(), ArgumentError>)
        ensures
            r is Ok <==> Args::fault(*args) is None,
            r is Err ==> Some(r->Err_0) == Args::fault(*args),
    {
        match args.grant {
            Grant::AuthorizationCodeWithPkce => Args::assert_urls_for_authorization_grants(args),
            Grant::AuthorizationCode => Args::assert_urls_for_authorization_grants(args),
            Grant::Implicit => Args::assert_urls_for_authorization_grants(args),
            Grant::ResourceOwnerPasswordClientCredentials => {
                match Args::assert_client_credentials(args) {
                    Err(e) => {
                        return Err(e);
                    },
                    Ok(()) => {},
                }
                if args.username.is_none() {
                    return Err(ArgumentError::MissingUsername);
                }
                if args.password.is_none() && !args.password_stdin {
                    return Err(ArgumentError::MissingPassword);
                }
                Ok(())
            },
            Grant::ClientCredentials => Args::assert_client_credentials(args),
        }
    }

    /// Puts the client secret that was typed in, if one was asked for, in
    /// place of the configured one.
    pub fn parse_client_secret(args: Arguments, typed: Option<String>) -> (r: Arguments)
        ensures
            r == (Arguments {
                client_secret: if args.client_secret_stdin && typed is Some {
                    typed
                } else {
                    args.client_secret
                },
                ..args
            }),
    {
        let mut args = args;
        if args.client_secret_stdin {
            if let Some(secret) = typed {
                args.client_secret = Some(secret);
            }
        }
        args
    }

    /// Puts the password that was typed in, if one was asked for, in place
    /// of the configured one.
    pub fn parse_password(args: Arguments, typed: Option<String>) -> (r: Arguments)
        ensures
            r == (Arguments {
                password: if args.password_stdin && typed is Some {
                    typed
                } else {
                    args.password
                },
                ..args
            }),
    {
        let mut args = args;
        if args.password_stdin {
            if let Some(password) = typed {
                args.password = Some(password);
            }
        }
        args
    }

    /// Validates `args` for its grant and then fills in what was typed on
    /// standard input.
    pub fn parse(args: Arguments, typed_secret: Option<String>, typed_password: Option<String>) -> (r:
        Result<Arguments, ArgumentError>)
        ensures
            r is Ok <==> Args::fault(args) is None,
            r is Err ==> Some(r->Err_0) == Args::fault(args),
            r is Ok ==> r->Ok_0 == (Arguments {
                client_secret: if args.client_secret_stdin && typed_secret is Some {
                    typed_secret
                } else {
                    args.client_secret
                },
                password: if args.password_stdin && typed_password is Some {
                    typed_password
                } else {
                    args.password
                },
                ..args
            }),
    {
        match Args::assert_grant_specific_arguments(&args) {
            Err(e) => Err(e),
            Ok(()) => {
                let args = Args::parse_client_secret(args, typed_secret);
                Ok(Args::parse_password(args, typed_password))
            },
        }
    }
}

/// The word that follows the first `--profile` on the command line.
pub open spec fn profile_after(argv: Seq<String>) -> Option<Seq<char>>
    decreases argv.len(),
{
    if argv.len() == 0 {
        None
    } else if argv[0]@ == "--profile"@ {
        if argv.len() > 1 {
            Some(argv[1]@)
        } else {
            None
        }
    } else {
        profile_after(argv.drop_first())
    }
}

/// Whether a word of the command line asks for diagnostics.
pub open spec fn asks_for_debug(argv: Seq<String>) -> bool {
    exists|i: int| 0 <= i < argv.len() && (#[trigger] argv[i]@ == "--debug"@ || argv[i]@ == "-d"@)
}

impl Args {
    /// Finds the profile that the command line names: the word behind the
    /// first `--profile`.
    pub fn profile_argument(argv: &Vec<String>) -> (r: Option<String>)
        ensures
            crate::token_info::opt_view(r) == profile_after(argv@),
    {
        let flag = "--profile".to_owned();
        let mut i: usize = 0;
        proof {
            assert(argv@.skip(0) =~= argv@);
        }
        while i < argv.len()
            invariant
                i <= argv.len(),
                flag@ == "--profile"@,
                profile_after(argv@) == profile_after(argv@.skip(i as int)),
            decreases argv.len() - i,
        {
            proof {
                assert(argv@.skip(i as int)[0] == argv@[i as int]);
                assert(argv@.skip(i as int).drop_first() =~= argv@.skip(i + 1));
            }
            if argv[i] == flag {
                if i + 1 < argv.len() {
                    proof {
                        assert(argv@.skip(i as int)[1] == argv@[i + 1]);
                    }
                    return Some(argv[i + 1].clone());
                } else {
                    return None;
                }
            }
            i += 1;
        }
        None
    }

    /// Tells whether the command line asks for diagnostics, with `--debug`
    /// or `-d`.
    pub fn has_debug_flag(argv: &Vec<String>) -> (r: bool)
        ensures
            r == asks_for_debug(argv@),
    {
        let long = "--debug".to_owned();
        let short = "-d".to_owned();
        let mut i: usize = 0;
        while i < argv.len()
            invariant
                i <= argv.len(),
                long@ == "--debug"@,
                short@ == "-d"@,
                forall|k: int|
                    0 <= k < i ==> !(#[trigger] argv@[k]@ == "--debug"@ || argv@[k]@ == "-d"@),
            decreases argv.len() - i,
        {
            if argv[i] == long || argv[i] == short {
                return true;
            }
            i += 1;
        }
        false
    }
}

impl ArgumentError {
    /// The sentence shown to the user.
    pub fn message(&self) -> (r: &'static str)
        ensures
            r@ == self.text(),
    {
        match self {
            ArgumentError::MissingEndpoint =>
                "<--token-url, --authorization-url|--discovery-url> arguments have to be provided",
            ArgumentError::MissingCallbackUrl => "--callback-url argument have to be provided",
            ArgumentError::MissingTokenEndpoint =>
                "<--token-url|--discovery-url> arguments have to be provided",
            ArgumentError::MissingClientSecret =>
                "--client-secret or --client-secret-stdin is required while used with `client-credentials` grant.",
            ArgumentError::MissingUsername =>
                "--username is required while used with `resource-owner-password-client-credentials` grant.",
            ArgumentError::MissingPassword =>
                "--password or --password-stdin is required while used with `resource-owner-password-client-credentials` grant.",
        }
    }

    /// The sentence that belongs to each fault.
    pub open spec fn text(self) -> Seq<char> {
        match self {
            ArgumentError::MissingEndpoint =>
                "<--token-url, --authorization-url|--discovery-url> arguments have to be provided"@,
            ArgumentError::MissingCallbackUrl => "--callback-url argument have to be provided"@,
            ArgumentError::MissingTokenEndpoint =>
                "<--token-url|--discovery-url> arguments have to be provided"@,
            ArgumentError::MissingClientSecret =>
                "--client-secret or --client-secret-stdin is required while used with `client-credentials` grant."@,
            ArgumentError::MissingUsername =>
                "--username is required while used with `resource-owner-password-client-credentials` grant."@,
            ArgumentError::MissingPassword =>
                "--password or --password-stdin is required while used with `resource-owner-password-client-credentials` grant."@,
        }
    }
}

} // verus!
