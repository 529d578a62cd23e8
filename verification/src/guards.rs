use vstd::prelude::*;
use crate::context::RequestIdentityContext;
use crate::errors::ApiError;
use crate::extract::Token;
use crate::extract::spec_strip_bearer;
use crate::extract::strip_bearer;
use crate::role::Role;
use crate::store::MemoryStore;
use crate::store::RoleRow;
use crate::store::lemma_find_user_from_props;
use crate::store::spec_bump;
use crate::store::spec_find_user;
use crate::store::spec_has_user;
use crate::store::spec_roles_of;
use crate::tokens::IdentityToken;
use crate::user::User;
use crate::tokens::IdentityVerifier;
use crate::tokens::spec_token_valid;

verus! {

/// What the transport-level part of the authentication guard decides before
/// any provider call: an absent or empty credential is rejected outright,
/// anything else goes to verification with its scheme prefix discarded.
pub fn auth_precheck(token: &Option<Token>) -> (r: Result<String, ApiError>)
    ensures
        match r {
            Ok(s) => token matches Some(t) && t.0@.len() > 0 && s@ == spec_strip_bearer(t.0@),
            Err(e) => (token is None || (token matches Some(t) && t.0@.len() == 0)) && e
                == ApiError::Unauthorized,
        },
{
    match token {
        None => Err(ApiError::Unauthorized),
        Some(t) => {
            if t.0.as_str().unicode_len() == 0 {
                Err(ApiError::Unauthorized)
            } else {
                Ok(strip_bearer(t.0.as_str()))
            }
        },
    }
}

fn contains_role(v: &Vec<Role>, r: Role) -> (ret: bool)
    ensures
        ret == v@.contains(r),
{
    let mut i: usize = 0;
    while i < v.len()
        invariant
            i <= v@.len(),
            forall|j: int| 0 <= j < i ==> v@[j] != r,
        decreases v@.len() - i,
    {
        if v[i] == r {
            return true;
        }
        i += 1;
    }
    proof {
        assert(!v@.contains(r));
    }
    false
}

/// The authentication guard. Stateless; it writes the resolved subject into
/// the request's identity context and never touches the store.
pub struct AuthTokenGuard;

impl AuthTokenGuard {
    /// Reject an absent credential or one that does not verify with
    /// `Unauthorized`, never distinguishing why; on success write the
    /// resolved subject into the context. Re-running with the same
    /// credential writes the same subject.
    pub fn check(
        &self,
        ctx: &mut RequestIdentityContext,
        verifier: &IdentityVerifier,
        cred: &Option<IdentityToken>,
        now: i64,
    ) -> (r: Result<(), ApiError>)
        ensures
            final(ctx).user_view() == old(ctx).user_view(),
            match r {
                Ok(_) => cred matches Some(t) && spec_token_valid(*verifier, *t, now)
                    && final(ctx).subject_view() == t.subject@,
                Err(e) => {
                    &&& e == ApiError::Unauthorized
                    &&& final(ctx).subject_view() == old(ctx).subject_view()
                    &&& (cred matches Some(t) ==> !spec_token_valid(*verifier, *t, now))
                },
            },
    {
        match cred {
            None => Err(ApiError::Unauthorized),
            Some(t) => match verifier.verify_token(t, now) {
                Ok(uid) => {
                    ctx.set_subject(uid);
                    Ok(())
                },
                Err(_) => Err(ApiError::Unauthorized),
            },
        }
    }
}

/// The existence guard. Requires an authenticated context; looks the subject
/// up in the store and caches the record for downstream resolvers.
pub struct UserExistGuard;

impl UserExistGuard {
    /// An unpopulated subject is treated as unauthenticated, without a store
    /// call. Otherwise one store read runs; a missing record surfaces as
    /// `NotFound`, an unreachable store as `StorageUnavailable`, and on
    /// success the record is cached in the context.
    pub fn check(&self, ctx: &mut RequestIdentityContext, store: &mut MemoryStore) -> (r: Result<
        (),
        ApiError,
    >)
        ensures
            final(ctx).subject_view() == old(ctx).subject_view(),
            final(store).users_view() == old(store).users_view(),
            final(store).roles_view() == old(store).roles_view(),
            final(store).available_view() == old(store).available_view(),
            final(store).fault_view() == old(store).fault_view(),
            old(store).wf() ==> final(store).wf(),
            !old(ctx).subject_set() ==> r == Err::<(), ApiError>(ApiError::Unauthorized)
                && final(store).calls_view() == old(store).calls_view()
                && final(ctx).user_view() == old(ctx).user_view(),
            old(ctx).subject_set() ==> final(store).calls_view() == spec_bump(
                old(store).calls_view(),
            ) && match r {
                Ok(_) => {
                    &&& old(store).available_view()
                    &&& spec_find_user(old(store).users_view(), old(ctx).subject_view())
                        matches Some(k) && final(ctx).user_view() == Some(
                        old(store).users_view()[k],
                    )
                },
                Err(e) => {
                    &&& final(ctx).user_view() == old(ctx).user_view()
                    &&& (!old(store).available_view() ==> e == ApiError::StorageUnavailable)
                    &&& (old(store).available_view() ==> e == ApiError::NotFound && !spec_has_user(
                        old(store).users_view(),
                        old(ctx).subject_view(),
                    ))
                },
            },
    {
        let subject = ctx.get_subject();
        if subject.as_str().unicode_len() == 0 {
            return Err(ApiError::Unauthorized);
        }
        match store.get_user(subject.as_str()) {
            Ok(u) => {
                ctx.set_user(u);
                Ok(())
            },
            Err(e) => Err(ApiError::from_store(e)),
        }
    }
}

/// The role guard, parameterized by the role an operation requires.
/// Membership is exact: no hierarchy is implied, so `Admin` does not satisfy
/// a `Manager` requirement unless a `Manager` row was recorded.
pub struct RoleGuard {
    roles: Role,
}

impl RoleGuard {
    pub fn new(roles: Role) -> (r: Self)
        ensures
            r.required() == roles,
    {
        RoleGuard { roles }
    }

    /// The role the guard demands.
    pub closed spec fn required(&self) -> Role {
        self.roles
    }

    /// An unpopulated subject is treated as unauthenticated, without a store
    /// call. Otherwise one store read runs; the guard passes exactly when
    /// the required role is among the subject's recorded roles, and fails
    /// with `Forbidden` otherwise.
    pub fn check(&self, ctx: &RequestIdentityContext, store: &mut MemoryStore) -> (r: Result<
        (),
        ApiError,
    >)
        ensures
            final(store).users_view() == old(store).users_view(),
            final(store).roles_view() == old(store).roles_view(),
            final(store).available_view() == old(store).available_view(),
            final(store).fault_view() == old(store).fault_view(),
            old(store).wf() ==> final(store).wf(),
            !ctx.subject_set() ==> r == Err::<(), ApiError>(ApiError::Unauthorized)
                && final(store).calls_view() == old(store).calls_view(),
            ctx.subject_set() ==> final(store).calls_view() == spec_bump(old(store).calls_view())
                && match r {
                Ok(_) => old(store).available_view() && spec_roles_of(
                    old(store).roles_view(),
                    ctx.subject_view(),
                ).contains(self.required()),
                Err(e) => {
                    &&& (!old(store).available_view() ==> e == ApiError::StorageUnavailable)
                    &&& (old(store).available_view() ==> e == ApiError::Forbidden
                        && !spec_roles_of(
                        old(store).roles_view(),
                        ctx.subject_view(),
                    ).contains(self.required()))
                },
            },
    {
        let subject = ctx.get_subject();
        if subject.as_str().unicode_len() == 0 {
            return Err(ApiError::Unauthorized);
        }
        match store.get_user_roles(subject.as_str()) {
            Ok(roles) => {
                if contains_role(&roles, self.roles) {
                    Ok(())
                } else {
                    Err(ApiError::Forbidden)
                }
            },
            Err(e) => Err(ApiError::from_store(e)),
        }
    }
}

/// One link of an operation's guard chain. The operations in scope attach
/// `Auth` alone for account creation, `Auth` then `Exists` for self-reads
/// and renames, and `Auth` then `RequireRole` for role-gated operations; a
/// new check kind is added by implementing one check function and one arm
/// of the runner.
#[derive(Copy, Clone, PartialEq, Eq, Structural, Debug)]
pub enum GuardKind {
    Auth,
    Exists,
    RequireRole(Role),
}

/// Whether the presented credential authenticates: present and trustworthy.
pub open spec fn spec_auth_passes(
    v: IdentityVerifier,
    cred: Option<IdentityToken>,
    now: i64,
) -> bool {
    cred matches Some(t) && spec_token_valid(v, t, now)
}

/// The request-independent surroundings one chain evaluation reads: the
/// store's tables and reachability, the verifier, the credential, the time.
pub struct ChainEnv {
    pub users: Seq<User>,
    pub roles: Seq<RoleRow>,
    pub available: bool,
    pub verifier: IdentityVerifier,
    pub cred: Option<IdentityToken>,
    pub now: i64,
}

/// What a chain evaluation can change, as a caller observes it: the two
/// cells of the identity context and the store's call counter.
pub struct ChainObs {
    pub subject: Seq<char>,
    pub user: Option<User>,
    pub calls: u64,
}

/// What one guard decides and changes, given the state its predecessors
/// left: `None` means it passed.
pub open spec fn spec_step(g: GuardKind, env: ChainEnv, st: ChainObs) -> (
    ChainObs,
    Option<ApiError>,
) {
    match g {
        GuardKind::Auth => {
            if spec_auth_passes(env.verifier, env.cred, env.now) {
                (
                    (ChainObs { subject: (env.cred->0).subject@, user: st.user, calls: st.calls }),
                    None,
                )
            } else {
                (st, Some(ApiError::Unauthorized))
            }
        },
        GuardKind::Exists => {
            if st.subject.len() == 0 {
                (st, Some(ApiError::Unauthorized))
            } else {
                let charged = (ChainObs {
                    subject: st.subject,
                    user: st.user,
                    calls: spec_bump(st.calls),
                });
                if !env.available {
                    (charged, Some(ApiError::StorageUnavailable))
                } else {
                    match spec_find_user(env.users, st.subject) {
                        Some(k) => (
                            (ChainObs {
                                subject: st.subject,
                                user: Some(env.users[k]),
                                calls: spec_bump(st.calls),
                            }),
                            None,
                        ),
                        None => (charged, Some(ApiError::NotFound)),
                    }
                }
            }
        },
        GuardKind::RequireRole(role) => {
            if st.subject.len() == 0 {
                (st, Some(ApiError::Unauthorized))
            } else {
                let charged = (ChainObs {
                    subject: st.subject,
                    user: st.user,
                    calls: spec_bump(st.calls),
                });
                if !env.available {
                    (charged, Some(ApiError::StorageUnavailable))
                } else if spec_roles_of(env.roles, st.subject).contains(role) {
                    (charged, None)
                } else {
                    (charged, Some(ApiError::Forbidden))
                }
            }
        },
    }
}

/// The chain semantics: guards run in list order, each reading the state
/// its predecessors left, and the first failure ends the evaluation.
pub open spec fn spec_run(gs: Seq<GuardKind>, env: ChainEnv, st: ChainObs) -> (
    ChainObs,
    Option<ApiError>,
)
    decreases gs.len(),
{
    if gs.len() == 0 {
        (st, None)
    } else {
        let first = spec_step(gs[0], env, st);
        if first.1 is Some {
            first
        } else {
            spec_run(gs.drop_first(), env, first.0)
        }
    }
}

/// The surroundings a store, verifier and credential present to a chain.
pub open spec fn spec_env(
    store: MemoryStore,
    v: IdentityVerifier,
    cred: Option<IdentityToken>,
    now: i64,
) -> ChainEnv {
    ChainEnv {
        users: store.users_view(),
        roles: store.roles_view(),
        available: store.available_view(),
        verifier: v,
        cred,
        now,
    }
}

/// The observable state a context and a store are in.
pub open spec fn spec_obs(ctx: RequestIdentityContext, store: MemoryStore) -> ChainObs {
    ChainObs { subject: ctx.subject_view(), user: ctx.user_view(), calls: store.calls_view() }
}

/// Law: the chain short-circuits. Once a prefix of the chain has failed,
/// appending further guards changes nothing: they never execute, and
/// neither the outcome nor the observable state moves.
pub proof fn lemma_short_circuit(
    gs1: Seq<GuardKind>,
    gs2: Seq<GuardKind>,
    env: ChainEnv,
    st: ChainObs,
)
    requires
        spec_run(gs1, env, st).1 is Some,
    ensures
        spec_run(gs1 + gs2, env, st) == spec_run(gs1, env, st),
    decreases gs1.len(),
{
    assert(gs1.len() > 0);
    assert((gs1 + gs2)[0] == gs1[0]);
    let first = spec_step(gs1[0], env, st);
    if first.1 is None {
        assert((gs1 + gs2).drop_first() =~= gs1.drop_first() + gs2);
        lemma_short_circuit(gs1.drop_first(), gs2, env, first.0);
    }
}

/// Law: a chain that opens with authentication, given a credential that
/// does not authenticate, rejects the request as `Unauthorized` with the
/// observable state untouched: in particular the store's call counter never
/// moves, so the later guards made no collaborator call.
pub proof fn lemma_failed_auth_makes_no_store_call(
    gs: Seq<GuardKind>,
    env: ChainEnv,
    st: ChainObs,
)
    requires
        gs.len() > 0,
        gs[0] == GuardKind::Auth,
        !spec_auth_passes(env.verifier, env.cred, env.now),
    ensures
        spec_run(gs, env, st) == (st, Some(ApiError::Unauthorized)),
{
    assert(spec_step(gs[0], env, st) == (st, Some(ApiError::Unauthorized)));
}

/// Law: the authentication guard is idempotent. Re-running it with the same
/// credential on the state a successful run left behind passes again and
/// leaves the context write exactly where the first run put it.
pub proof fn lemma_auth_idempotent(env: ChainEnv, st: ChainObs)
    requires
        spec_step(GuardKind::Auth, env, st).1 is None,
    ensures
        spec_step(GuardKind::Auth, env, spec_step(GuardKind::Auth, env, st).0) == spec_step(
            GuardKind::Auth,
            env,
            st,
        ),
{
}

/// Run an operation's guards in declared order with short-circuit on the
/// first failure: the outcome and every observable effect are exactly those
/// of the chain semantics `spec_run`.
pub fn run_guard_chain(
    guards: &Vec<GuardKind>,
    ctx: &mut RequestIdentityContext,
    store: &mut MemoryStore,
    verifier: &IdentityVerifier,
    cred: &Option<IdentityToken>,
    now: i64,
) -> (r: Result<(), ApiError>)
    ensures
        final(store).users_view() == old(store).users_view(),
        final(store).roles_view() == old(store).roles_view(),
        final(store).available_view() == old(store).available_view(),
        final(store).fault_view() == old(store).fault_view(),
        old(store).wf() ==> final(store).wf(),
        ({
            let outcome = spec_run(
                guards@,
                spec_env(*old(store), *verifier, *cred, now),
                spec_obs(*old(ctx), *old(store)),
            );
            &&& final(ctx).subject_view() == outcome.0.subject
            &&& final(ctx).user_view() == outcome.0.user
            &&& final(store).calls_view() == outcome.0.calls
            &&& r == (match outcome.1 {
                None => Ok::<(), ApiError>(()),
                Some(e) => Err::<(), ApiError>(e),
            })
        }),
{
    let ghost env = spec_env(*old(store), *verifier, *cred, now);
    let ghost st0 = spec_obs(*old(ctx), *old(store));
    proof {
        assert(guards@.skip(0) =~= guards@);
    }
    let mut i: usize = 0;
    while i < guards.len()
        invariant
            i <= guards@.len(),
            store.users_view() == old(store).users_view(),
            store.roles_view() == old(store).roles_view(),
            store.available_view() == old(store).available_view(),
            store.fault_view() == old(store).fault_view(),
            old(store).wf() ==> store.wf(),
            env == spec_env(*old(store), *verifier, *cred, now),
            st0 == spec_obs(*old(ctx), *old(store)),
            spec_run(guards@, env, st0) == spec_run(
                guards@.skip(i as int),
                env,
                spec_obs(*ctx, *store),
            ),
        decreases guards@.len() - i,
    {
        let ghost pre = spec_obs(*ctx, *store);
        let res: Result<(), ApiError> = match &guards[i] {
            GuardKind::Auth => {
                let g = AuthTokenGuard;
                g.check(ctx, verifier, cred, now)
            },
            GuardKind::Exists => {
                let g = UserExistGuard;
                g.check(ctx, store)
            },
            GuardKind::RequireRole(role) => {
                let g = RoleGuard::new(*role);
                g.check(ctx, store)
            },
        };
        proof {
            lemma_find_user_from_props(env.users, pre.subject, 0);
            assert(spec_step(guards@[i as int], env, pre) == (
                spec_obs(*ctx, *store),
                match res {
                    Ok(_) => None::<ApiError>,
                    Err(e) => Some(e),
                },
            ));
            assert(guards@.skip(i as int)[0] == guards@[i as int]);
            assert(guards@.skip(i as int).drop_first() =~= guards@.skip(i as int + 1));
        }
        if let Err(e) = res {
            return Err(e);
        }
        i += 1;
    }
    proof {
        assert(guards@.skip(i as int) =~= Seq::<GuardKind>::empty());
    }
    Ok(())
}

} // verus!
