//! Resolving one authentication request of the transport into one credential:
//! the accepted methods are tried in a fixed order and the first success wins.

use vstd::prelude::*;
use vstd::string::StringExecFns;
use crate::methods::AllowedMethods;

verus! {

#[verifier::external_type_specification]
#[verifier::external_body]
pub struct ExCred(git2::Cred);

#[verifier::external_type_specification]
#[verifier::external_body]
pub struct ExConfig(git2::Config);

#[verifier::external_type_specification]
#[verifier::external_body]
pub struct ExError(git2::Error);

/// The process environment as the resolver sees it, read once by the caller.
#[derive(Clone, Debug, PartialEq, Eq)]
pub struct Environment {
    /// An access token to be sent as a password (`GH_TOKEN`).
    pub token: Option<String>,
    /// `USER`.
    pub user: Option<String>,
    /// `USERNAME`.
    pub username: Option<String>,
    /// The user's home directory.
    pub home: Option<String>,
}

/// One way of producing a credential, in the order the resolver tries them.
#[derive(Clone, Debug, PartialEq, Eq)]
pub enum CredRequest {
    /// Authenticate as `username` through a running SSH agent.
    SshAgent { username: String },
    /// Authenticate as `username` with the private key file at `private_key`,
    /// which has no passphrase.
    SshKeyFile { username: String, private_key: String },
    /// Send a user name and a password as they are.
    Plaintext { username: String, password: String },
    /// Ask the configured credential helper for the remote's URL.
    Helper,
    /// The default credential, for anonymous or negotiated authentication.
    Default,
}

/// A credential request with its strings as sequences of characters.
pub enum RequestView {
    SshAgent { username: Seq<char> },
    SshKeyFile { username: Seq<char>, private_key: Seq<char> },
    Plaintext { username: Seq<char>, password: Seq<char> },
    Helper,
    Default,
}

impl View for CredRequest {
    type V = RequestView;

    open spec fn view(&self) -> RequestView {
        match self {
            CredRequest::SshAgent { username } => RequestView::SshAgent { username: username@ },
            CredRequest::SshKeyFile { username, private_key } => RequestView::SshKeyFile {
                username: username@,
                private_key: private_key@,
            },
            CredRequest::Plaintext { username, password } => RequestView::Plaintext {
                username: username@,
                password: password@,
            },
            CredRequest::Helper => RequestView::Helper,
            CredRequest::Default => RequestView::Default,
        }
    }
}

/// Why no credential came out.
#[derive(Clone, Copy, Debug, PartialEq, Eq, Structural)]
pub enum AuthError {
    /// The remote asked for a user name alone, which this resolver does not supply.
    UsernameOnly,
    /// A token or default credential was chosen, and producing it failed.
    CredentialFailed,
    /// No accepted method produced a credential.
    NoneAvailable,
}

/// A resolved credential and the request it came from.
pub struct Credential {
    pub request: CredRequest,
    pub cred: git2::Cred,
}

/// Where resolution stands after trying requests in order.
pub enum Resolution {
    /// A request produced this credential.
    Resolved(Credential),
    /// Resolution ended without a credential.
    Failed(AuthError),
    /// The configured credential helper is to be asked next. If it yields
    /// nothing, resolution resumes in `plan` at index `next`.
    AskHelper { plan: Vec<CredRequest>, next: usize },
}

/// What the resolver does after one request was tried.
#[derive(Clone, Copy, Debug, PartialEq, Eq, Structural)]
pub enum Verdict {
    /// Use the credential that was produced.
    Use,
    /// Give up: this request's failure is final.
    Fail,
    /// Go on with the next request.
    TryNext,
}

/// How a whole sequence of tries ends.
pub enum Settled {
    /// The request at this index produced the credential.
    Chosen(int),
    /// The request at this index failed, and its failure is final.
    Failed(int),
    /// Every request failed and each let the next one be tried.
    Exhausted,
    /// The request at this index is the credential helper, which the caller asks.
    AskHelper(int),
}

pub open spec fn opt_view(o: Option<&str>) -> Option<Seq<char>> {
    match o {
        Some(s) => Some(s@),
        None => None,
    }
}

pub open spec fn opt_string_view(o: Option<String>) -> Option<Seq<char>> {
    match o {
        Some(s) => Some(s@),
        None => None,
    }
}

/// The identity used for SSH: the first of the offered user name, the one
/// the credential helper configuration gives, `USER`, `USERNAME`, and `git`.
pub open spec fn ssh_user_spec(
    offered: Option<Seq<char>>,
    helper: Option<Seq<char>>,
    env: Environment,
) -> Seq<char> {
    match offered {
        Some(u) => u,
        None => match helper {
            Some(u) => u,
            None => match env.user {
                Some(u) => u@,
                None => match env.username {
                    Some(u) => u@,
                    None => "git"@,
                },
            },
        },
    }
}

/// The default private key file under a home directory.
pub open spec fn key_path(home: Seq<char>) -> Seq<char> {
    home + "/.ssh/id_rsa"@
}

pub open spec fn ssh_requests(user: Seq<char>, env: Environment) -> Seq<RequestView> {
    seq![RequestView::SshAgent { username: user }] + match env.home {
        Some(h) => seq![RequestView::SshKeyFile { username: user, private_key: key_path(h@) }],
        None => Seq::<RequestView>::empty(),
    }
}

pub open spec fn plaintext_requests(env: Environment) -> Seq<RequestView> {
    match env.token {
        Some(t) => seq![RequestView::Plaintext { username: Seq::<char>::empty(), password: t@ }],
        None => seq![RequestView::Helper],
    }
}

/// The requests tried, in order, when the remote does not ask for a user name alone.
pub open spec fn plan_spec(
    allowed: AllowedMethods,
    offered: Option<Seq<char>>,
    helper: Option<Seq<char>>,
    env: Environment,
) -> Seq<RequestView> {
    (if allowed.ssh_key {
        ssh_requests(ssh_user_spec(offered, helper, env), env)
    } else {
        Seq::<RequestView>::empty()
    }) + (if allowed.plaintext {
        plaintext_requests(env)
    } else {
        Seq::<RequestView>::empty()
    }) + (if allowed.default {
        seq![RequestView::Default]
    } else {
        Seq::<RequestView>::empty()
    })
}

/// A request whose outcome is returned as it is, success or not.
pub open spec fn is_final(r: RequestView) -> bool {
    r is Plaintext || r is Default
}

pub open spec fn verdict_spec(r: RequestView, ok: bool) -> Verdict {
    if ok {
        Verdict::Use
    } else if is_final(r) {
        Verdict::Fail
    } else {
        Verdict::TryNext
    }
}

/// How the tries from index `i` on end, given whether each request succeeds.
pub open spec fn settle_from(plan: Seq<RequestView>, ok: Seq<bool>, i: int) -> Settled
    decreases plan.len() - i,
{
    if i < 0 || i >= plan.len() {
        Settled::Exhausted
    } else if plan[i] is Helper {
        Settled::AskHelper(i)
    } else if ok[i] {
        Settled::Chosen(i)
    } else if is_final(plan[i]) {
        Settled::Failed(i)
    } else {
        settle_from(plan, ok, i + 1)
    }
}

pub open spec fn views(v: Seq<CredRequest>) -> Seq<RequestView> {
    v.map_values(|q: CredRequest| q@)
}

/// Whether a resolver result is the one that `s` describes for `plan`.
pub open spec fn reports(r: Resolution, plan: Seq<RequestView>, s: Settled) -> bool {
    match s {
        Settled::Chosen(i) => r is Resolved && r->Resolved_0.request@ == plan[i],
        Settled::Failed(_) => r is Failed && r->Failed_0 == AuthError::CredentialFailed,
        Settled::Exhausted => r is Failed && r->Failed_0 == AuthError::NoneAvailable,
        Settled::AskHelper(i) => r is AskHelper && r->AskHelper_next == i + 1 && views(
            r->AskHelper_plan@,
        ) == plan,
    }
}

/// Whether, from index `i` on, the tries are bound to produce a credential:
/// the first request that is final or goes to the helper is the default
/// credential, or user name and password without a NUL character, which the
/// credential library always accepts.
pub open spec fn owed_from(plan: Seq<RequestView>, i: int) -> bool
    decreases plan.len() - i,
{
    if i < 0 || i >= plan.len() {
        false
    } else {
        match plan[i] {
            RequestView::Default => true,
            RequestView::Plaintext { username, password } => !username.contains('\0')
                && !password.contains('\0'),
            RequestView::Helper => false,
            _ => owed_from(plan, i + 1),
        }
    }
}

/// The accepted methods and environment for which resolution must produce a
/// credential without the helper: plaintext accepted with a token free of NUL
/// characters, or plaintext not accepted and the default credential accepted.
pub open spec fn success_owed(allowed: AllowedMethods, env: Environment) -> bool {
    !allowed.username_only && if allowed.plaintext {
        env.token is Some && !env.token->Some_0@.contains('\0')
    } else {
        allowed.default
    }
}

/// The SSH identity: the first of the offered user name, the helper's, `USER`,
/// `USERNAME`, and `git`.
pub fn ssh_user(offered: Option<&str>, helper: &Option<String>, env: &Environment) -> (r: String)
    ensures
        r@ == ssh_user_spec(opt_view(offered), opt_string_view(*helper), *env),
{
    if let Some(u) = offered {
        return u.to_owned();
    }
    if let Some(u) = helper {
        return u.clone();
    }
    if let Some(u) = &env.user {
        return u.clone();
    }
    if let Some(u) = &env.username {
        return u.clone();
    }
    String::from_str("git")
}

/// The ordered requests for one authentication attempt. A remote that asks
/// for a user name alone is refused at once. `helper` is the user name the
/// credential helper configuration gives; it is consulted only for SSH and
/// only when no user name was offered.
pub fn credential_plan(
    allowed: &AllowedMethods,
    offered: Option<&str>,
    helper: &Option<String>,
    env: &Environment,
) -> (r: Result<Vec<CredRequest>, AuthError>)
    ensures
        allowed.username_only ==> r == Err::<Vec<CredRequest>, AuthError>(AuthError::UsernameOnly),
        !allowed.username_only ==> r is Ok && r->Ok_0@.map_values(|q: CredRequest| q@)
            =~= plan_spec(*allowed, opt_view(offered), opt_string_view(*helper), *env),
{
    if allowed.username_only {
        return Err(AuthError::UsernameOnly);
    }
    let ghost want = plan_spec(*allowed, opt_view(offered), opt_string_view(*helper), *env);
    let mut plan: Vec<CredRequest> = Vec::new();
    let ghost ssh_part = if allowed.ssh_key {
        ssh_requests(ssh_user_spec(opt_view(offered), opt_string_view(*helper), *env), *env)
    } else {
        Seq::<RequestView>::empty()
    };
    if allowed.ssh_key {
        let user = ssh_user(offered, helper, env);
        plan.push(CredRequest::SshAgent { username: user.clone() });
        if let Some(h) = &env.home {
            let key = h.clone().concat("/.ssh/id_rsa");
            plan.push(CredRequest::SshKeyFile { username: user, private_key: key });
        }
    }
    assert(plan@.map_values(|q: CredRequest| q@) =~= ssh_part);
    let ghost plain_part = if allowed.plaintext {
        plaintext_requests(*env)
    } else {
        Seq::<RequestView>::empty()
    };
    if allowed.plaintext {
        match &env.token {
            Some(t) => plan.push(
                CredRequest::Plaintext { username: String::new(), password: t.clone() },
            ),
            None => plan.push(CredRequest::Helper),
        }
    }
    assert(plan@.map_values(|q: CredRequest| q@) =~= ssh_part + plain_part);
    if allowed.default {
        plan.push(CredRequest::Default);
    }
    Ok(plan)
}

/// Decides what follows one try of `request`, given whether it succeeded.
pub fn verdict(request: &CredRequest, ok: bool) -> (r: Verdict)
    ensures
        r == verdict_spec(request@, ok),
{
    if ok {
        Verdict::Use
    } else {
        match request {
            CredRequest::Plaintext { .. } => Verdict::Fail,
            CredRequest::Default => Verdict::Fail,
            _ => Verdict::TryNext,
        }
    }
}

/// Relies on git2's `CredentialHelper::new` and `CredentialHelper::config`:
/// the user name that the configuration sets for the URL, if any. The answer
/// depends on the configuration files, so nothing is promised of it.
#[verifier::external_body]
fn helper_username(cfg: &git2::Config, url: &str) -> (r: Option<String>) {
    git2::CredentialHelper::new(url).config(cfg).username.clone()
}

/// Relies on git2's `Cred::ssh_key_from_agent`: a credential that asks a
/// running SSH agent. It fails where the library was built without SSH.
#[verifier::external_body]
fn agent_cred(username: &str) -> (r: Result<git2::Cred, git2::Error>) {
    git2::Cred::ssh_key_from_agent(username)
}

/// Relies on git2's `Cred::ssh_key`: a credential from a private key file
/// without a passphrase and without a public key file.
#[verifier::external_body]
fn key_file_cred(username: &str, private_key: &str) -> (r: Result<git2::Cred, git2::Error>) {
    git2::Cred::ssh_key(username, None, std::path::Path::new(private_key), None)
}

/// Relies on git2's `Cred::userpass_plaintext`: a user name and password
/// credential. It fails exactly where either string holds a NUL character,
/// which `CString::new` refuses; libgit2 then only allocates and copies.
#[verifier::external_body]
fn plaintext_cred(username: &str, password: &str) -> (r: Result<git2::Cred, git2::Error>)
    ensures
        r is Ok <==> (!username@.contains('\0') && !password@.contains('\0')),
{
    git2::Cred::userpass_plaintext(username, password)
}

/// Relies on git2's `Cred::default`: the default credential for negotiated
/// or anonymous authentication, which libgit2 builds by allocating alone.
#[verifier::external_body]
fn default_cred() -> (r: Result<git2::Cred, git2::Error>)
    ensures
        r is Ok,
{
    git2::Cred::default()
}

/// Tries one request other than the helper against the credential library.
fn attempt(request: &CredRequest) -> (r: Result<git2::Cred, git2::Error>)
    requires
        !(request@ is Helper),
    ensures
        request@ is Default ==> r is Ok,
        request@ is Plaintext ==> (r is Ok <==> (!request@->Plaintext_username.contains('\0')
            && !request@->Plaintext_password.contains('\0'))),
{
    match request {
        CredRequest::SshAgent { username } => agent_cred(username.as_str()),
        CredRequest::SshKeyFile { username, private_key } => key_file_cred(
            username.as_str(),
            private_key.as_str(),
        ),
        CredRequest::Plaintext { username, password } => plaintext_cred(
            username.as_str(),
            password.as_str(),
        ),
        CredRequest::Helper => vstd::pervasive::unreached(),
        CredRequest::Default => default_cred(),
    }
}

proof fn lemma_settle_skip(plan: Seq<RequestView>, ok: Seq<bool>, s: int, i: int)
    requires
        0 <= s <= i <= plan.len(),
        forall|j: int| s <= j < i ==> !(#[trigger] ok[j]),
        forall|j: int| s <= j < i ==> !is_final(#[trigger] plan[j]) && !(plan[j] is Helper),
    ensures
        settle_from(plan, ok, s) == settle_from(plan, ok, i),
        owed_from(plan, s) == owed_from(plan, i),
    decreases i - s,
{
    if s < i {
        lemma_settle_skip(plan, ok, s + 1, i);
    }
}

/// Goes on with the requests of `plan` from index `start`: each is tried in
/// turn, and the first credential produced is returned. At the credential
/// helper it stops and hands the plan back, for the caller to ask the helper.
pub fn resume_credential(plan: Vec<CredRequest>, start: usize) -> (r: Resolution)
    ensures
        exists|ok: Seq<bool>|
            ok.len() == plan@.len() && #[trigger] reports(
                r,
                views(plan@),
                settle_from(views(plan@), ok, start as int),
            ),
        owed_from(views(plan@), start as int) ==> r is Resolved,
{
    let ghost pv = views(plan@);
    let ghost old_plan = plan@;
    let mut i: usize = if start < plan.len() {
        start
    } else {
        plan.len()
    };
    let ghost begin = i as int;
    let ghost mut oks: Seq<bool> = Seq::new(i as nat, |k: int| false);
    while i < plan.len()
        invariant
            begin <= i <= plan@.len(),
            begin == start || (start > plan@.len() && begin == plan@.len()),
            plan@ == old_plan,
            pv == views(plan@),
            pv.len() == plan@.len(),
            forall|j: int| 0 <= j < plan@.len() ==> #[trigger] pv[j] == plan@[j]@,
            oks.len() == i,
            forall|j: int| begin <= j < i ==> !(#[trigger] oks[j]),
            forall|j: int| begin <= j < i ==> !is_final(#[trigger] pv[j]) && !(pv[j] is Helper),
        decreases plan@.len() - i,
    {
        let is_helper = match &plan[i] {
            CredRequest::Helper => true,
            _ => false,
        };
        if is_helper {
            let ghost full = oks.push(false) + Seq::new((pv.len() - i - 1) as nat, |k: int| false);
            assert(forall|j: int| 0 <= j < i ==> #[trigger] full[j] == oks[j]);
            proof {
                lemma_settle_skip(pv, full, begin, i as int);
            }
            let r = Resolution::AskHelper { plan, next: i + 1 };
            assert(reports(r, pv, settle_from(pv, full, start as int)));
            return r;
        }
        let outcome = attempt(&plan[i]);
        let ok = outcome.is_ok();
        let v = verdict(&plan[i], ok);
        let ghost full = oks.push(ok) + Seq::new((pv.len() - i - 1) as nat, |k: int| false);
        assert(full.len() == pv.len());
        assert(forall|j: int| 0 <= j < i ==> #[trigger] full[j] == oks[j]);
        assert(full[i as int] == ok);
        proof {
            lemma_settle_skip(pv, full, begin, i as int);
        }
        match v {
            Verdict::Use => {
                match outcome {
                    Ok(cred) => {
                        let mut plan = plan;
                        let request = plan.remove(i);
                        let r = Resolution::Resolved(Credential { request, cred });
                        assert(reports(r, pv, settle_from(pv, full, start as int)));
                        return r;
                    },
                    Err(_) => {},
                }
            },
            Verdict::Fail => {
                let r = Resolution::Failed(AuthError::CredentialFailed);
                assert(reports(r, pv, settle_from(pv, full, start as int)));
                return r;
            },
            Verdict::TryNext => {},
        }
        proof {
            oks = oks.push(ok);
        }
        i = i + 1;
    }
    proof {
        lemma_settle_skip(pv, oks, begin, i as int);
    }
    let r = Resolution::Failed(AuthError::NoneAvailable);
    assert(reports(r, pv, settle_from(pv, oks, start as int)));
    r
}

proof fn lemma_owed(
    allowed: AllowedMethods,
    offered: Option<Seq<char>>,
    helper: Option<Seq<char>>,
    env: Environment,
)
    requires
        success_owed(allowed, env),
    ensures
        owed_from(plan_spec(allowed, offered, helper, env), 0),
{
    let p = plan_spec(allowed, offered, helper, env);
    let ssh = if allowed.ssh_key {
        ssh_requests(ssh_user_spec(offered, helper, env), env)
    } else {
        Seq::<RequestView>::empty()
    };
    let k = ssh.len() as int;
    assert(forall|j: int| 0 <= j < k ==> #[trigger] p[j] == ssh[j]);
    assert(forall|j: int| 0 <= j < k ==> !is_final(#[trigger] p[j]) && !(p[j] is Helper));
    lemma_settle_skip(p, Seq::new(k as nat, |j: int| false), 0, k);
    if allowed.plaintext {
        let e: Seq<char> = Seq::empty();
        assert(!e.contains('\0'));
        assert(p[k] == RequestView::Plaintext { username: e, password: env.token->Some_0@ });
    } else {
        assert(p[k] == RequestView::Default);
    }
}

/// Resolves one authentication request of the transport for `url`: the
/// accepted methods are tried in order (SSH agent, SSH key file, token,
/// credential helper, default) and the first credential produced is returned.
/// Whatever each try gives, the result is the one the ordered plan settles
/// to; when the plan reaches the credential helper, the caller is asked to
/// consult it and, if it yields nothing, to go on with `resume_credential`.
pub fn resolve_credential(
    url: &str,
    offered: Option<&str>,
    allowed: &AllowedMethods,
    cfg: &git2::Config,
    env: &Environment,
) -> (r: Resolution)
    ensures
        allowed.username_only ==> r is Failed && r->Failed_0 == AuthError::UsernameOnly,
        !allowed.username_only ==> exists|helper: Option<Seq<char>>, ok: Seq<bool>|
            ok.len() == plan_spec(*allowed, opt_view(offered), helper, *env).len() && #[trigger]
            reports(
                r,
                plan_spec(*allowed, opt_view(offered), helper, *env),
                settle_from(plan_spec(*allowed, opt_view(offered), helper, *env), ok, 0),
            ),
        success_owed(*allowed, *env) ==> r is Resolved,
{
    let helper: Option<String> = if allowed.ssh_key && offered.is_none() {
        helper_username(cfg, url)
    } else {
        None
    };
    let plan = match credential_plan(allowed, offered, &helper, env) {
        Ok(p) => p,
        Err(e) => return Resolution::Failed(e),
    };
    let ghost hv = opt_string_view(helper);
    let ghost pv = plan_spec(*allowed, opt_view(offered), hv, *env);
    assert(views(plan@) == pv);
    proof {
        if success_owed(*allowed, *env) {
            lemma_owed(*allowed, opt_view(offered), hv, *env);
        }
    }
    resume_credential(plan, 0)
}

/// When the remote accepts only the default credential, the default
/// credential is the one request tried: no SSH, token or helper is attempted,
/// and the outcome of producing it is the outcome of the resolution.
pub proof fn default_only_yields_default(
    allowed: AllowedMethods,
    offered: Option<Seq<char>>,
    helper: Option<Seq<char>>,
    env: Environment,
    ok: Seq<bool>,
)
    requires
        !allowed.username_only,
        !allowed.ssh_key,
        !allowed.plaintext,
        allowed.default,
        ok.len() == 1,
    ensures
        success_owed(allowed, env),
        plan_spec(allowed, offered, helper, env) == seq![RequestView::Default],
        settle_from(plan_spec(allowed, offered, helper, env), ok, 0) == if ok[0] {
            Settled::Chosen(0)
        } else {
            Settled::Failed(0)
        },
{
    let p = plan_spec(allowed, offered, helper, env);
    assert(p =~= seq![RequestView::Default]);
}

/// With SSH and plaintext accepted and a token in the environment, once the
/// SSH tries have failed the next request sends the token as the password
/// with an empty user name, and its outcome is the outcome of the resolution.
pub proof fn token_follows_failed_ssh(
    allowed: AllowedMethods,
    offered: Option<Seq<char>>,
    helper: Option<Seq<char>>,
    env: Environment,
    ok: Seq<bool>,
)
    requires
        !allowed.username_only,
        allowed.ssh_key,
        allowed.plaintext,
        env.token is Some,
        ok.len() == plan_spec(allowed, offered, helper, env).len(),
        forall|j: int|
            0 <= j < ssh_requests(ssh_user_spec(offered, helper, env), env).len() ==> !(
            #[trigger] ok[j]),
    ensures
        ({
            let plan = plan_spec(allowed, offered, helper, env);
            let k = ssh_requests(ssh_user_spec(offered, helper, env), env).len() as int;
            &&& plan[k] == RequestView::Plaintext {
                username: Seq::<char>::empty(),
                password: env.token->Some_0@,
            }
            &&& settle_from(plan, ok, 0) == if ok[k] {
                Settled::Chosen(k)
            } else {
                Settled::Failed(k)
            }
        }),
{
    let plan = plan_spec(allowed, offered, helper, env);
    let ssh = ssh_requests(ssh_user_spec(offered, helper, env), env);
    let k = ssh.len() as int;
    assert(forall|j: int| 0 <= j < k ==> #[trigger] plan[j] == ssh[j]);
    assert(forall|j: int| 0 <= j < k ==> !is_final(#[trigger] plan[j]) && !(plan[j] is Helper));
    lemma_settle_skip(plan, ok, 0, k);
}

/// With plaintext the only accepted method and no token, the credential
/// helper is the one request: resolution hands it to the caller, and if the
/// helper yields nothing no authentication is available.
pub proof fn helper_failure_leaves_nothing(
    allowed: AllowedMethods,
    offered: Option<Seq<char>>,
    helper: Option<Seq<char>>,
    env: Environment,
    ok: Seq<bool>,
)
    requires
        !allowed.username_only,
        !allowed.ssh_key,
        allowed.plaintext,
        !allowed.default,
        env.token is None,
        ok.len() == 1,
    ensures
        plan_spec(allowed, offered, helper, env) == seq![RequestView::Helper],
        settle_from(plan_spec(allowed, offered, helper, env), ok, 0) == Settled::AskHelper(0),
        settle_from(plan_spec(allowed, offered, helper, env), ok, 1) == Settled::Exhausted,
{
    let p = plan_spec(allowed, offered, helper, env);
    assert(p =~= seq![RequestView::Helper]);
}

} // verus!
