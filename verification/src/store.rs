use vstd::prelude::*;
use crate::crypto::{bcrypt_matches, hash_password, verify_password};
use crate::errors::StoreError;
use crate::role::Role;
use crate::strutil::str_eq;
use crate::user::User;

verus! {

/// One row of the role table: the subject holding the role.
#[derive(Debug)]
pub struct RoleRow {
    pub subject: String,
    pub role: Role,
}

/// Whether `u` is the record of the subject `id`.
pub open spec fn user_matches(u: User, id: Seq<char>) -> bool {
    u.id is Some && (u.id->0)@ == id
}

/// The position of the first record of subject `id` at or after `i`.
pub open spec fn spec_find_user_from(s: Seq<User>, id: Seq<char>, i: int) -> Option<int>
    decreases s.len() - i,
{
    if i < 0 || i >= s.len() {
        None
    } else if user_matches(s[i], id) {
        Some(i)
    } else {
        spec_find_user_from(s, id, i + 1)
    }
}

/// The position of the record of subject `id`, if one exists.
pub open spec fn spec_find_user(s: Seq<User>, id: Seq<char>) -> Option<int> {
    spec_find_user_from(s, id, 0)
}

/// Whether a record of subject `id` exists.
pub open spec fn spec_has_user(s: Seq<User>, id: Seq<char>) -> bool {
    exists|k: int| 0 <= k < s.len() && user_matches(#[trigger] s[k], id)
}

/// Where the first record of subject `id` sits, and that before it none
/// matches.
pub proof fn lemma_find_user_from_props(s: Seq<User>, id: Seq<char>, from: int)
    requires
        0 <= from <= s.len(),
    ensures
        match spec_find_user_from(s, id, from) {
            Some(k) => from <= k < s.len() && user_matches(s[k], id),
            None => forall|j: int| from <= j < s.len() ==> !user_matches(#[trigger] s[j], id),
        },
    decreases s.len() - from,
{
    if from < s.len() && !user_matches(s[from], id) {
        lemma_find_user_from_props(s, id, from + 1);
    }
}

/// The roles of subject `id` among the rows from position `i` on, in row
/// order.
pub open spec fn spec_roles_from(rs: Seq<RoleRow>, id: Seq<char>, i: int) -> Seq<Role>
    decreases rs.len() - i,
{
    if i < 0 || i >= rs.len() {
        Seq::empty()
    } else if rs[i].subject@ == id {
        seq![rs[i].role] + spec_roles_from(rs, id, i + 1)
    } else {
        spec_roles_from(rs, id, i + 1)
    }
}

/// The roles of subject `id`, in row order. Empty means the subject holds no
/// roles; it is not an error.
pub open spec fn spec_roles_of(rs: Seq<RoleRow>, id: Seq<char>) -> Seq<Role> {
    spec_roles_from(rs, id, 0)
}

/// A call counter that stops at its ceiling rather than wrapping.
pub open spec fn spec_bump(c: u64) -> u64 {
    if c < u64::MAX {
        (c + 1) as u64
    } else {
        c
    }
}

proof fn lemma_find_user_at(s: Seq<User>, id: Seq<char>, from: int, k: int)
    requires
        0 <= from <= k <= s.len(),
        forall|j: int| from <= j < k ==> !user_matches(#[trigger] s[j], id),
        k == s.len() || user_matches(s[k], id),
    ensures
        spec_find_user_from(s, id, from) == if k == s.len() {
            None::<int>
        } else {
            Some(k)
        },
    decreases k - from,
{
    if from < k {
        lemma_find_user_at(s, id, from + 1, k);
    }
}

fn find_user_index(users: &Vec<User>, id: &str) -> (r: Option<usize>)
    ensures
        match r {
            Some(k) => k < users@.len() && user_matches(users@[k as int], id@) && spec_find_user(
                users@,
                id@,
            ) == Some(k as int),
            None => !spec_has_user(users@, id@) && spec_find_user(users@, id@) is None,
        },
{
    let mut i: usize = 0;
    while i < users.len()
        invariant
            i <= users@.len(),
            forall|j: int| 0 <= j < i ==> !user_matches(#[trigger] users@[j], id@),
        decreases users@.len() - i,
    {
        let hit = match &users[i].id {
            Some(s) => str_eq(s.as_str(), id),
            None => false,
        };
        if hit {
            proof {
                lemma_find_user_at(users@, id@, 0, i as int);
            }
            return Some(i);
        }
        i += 1;
    }
    proof {
        lemma_find_user_at(users@, id@, 0, users@.len() as int);
    }
    None
}

/// The in-memory role/identity store: the reference implementation of the
/// storage contract the guard chain relies on, with the table rules of the
/// relational store as its invariant. `calls` counts every operation
/// invoked, so a caller can observe which collaborator calls a guard chain
/// made; `available` and `fail_role_write` let a harness force the
/// infrastructure failures of the taxonomy.
#[derive(Debug)]
pub struct MemoryStore {
    users: Vec<User>,
    roles: Vec<RoleRow>,
    calls: u64,
    available: bool,
    fail_role_write: bool,
}

impl MemoryStore {
    /// The user table.
    pub closed spec fn users_view(&self) -> Seq<User> {
        self.users@
    }

    /// The role table.
    pub closed spec fn roles_view(&self) -> Seq<RoleRow> {
        self.roles@
    }

    /// How many operations have been invoked on this store.
    pub closed spec fn calls_view(&self) -> u64 {
        self.calls
    }

    /// Whether the store answers at all.
    pub closed spec fn available_view(&self) -> bool {
        self.available
    }

    /// Whether the next role write is forced to fail.
    pub closed spec fn fault_view(&self) -> bool {
        self.fail_role_write
    }

    /// The table rules: every record carries its subject id, ids are unique,
    /// every role row references an existing record, and every record holds
    /// at least one role.
    pub closed spec fn wf(&self) -> bool {
        &&& forall|k: int| 0 <= k < self.users@.len() ==> (#[trigger] self.users@[k]).id is Some
        &&& forall|k1: int, k2: int|
            0 <= k1 < k2 < self.users@.len() ==> ((#[trigger] self.users@[k1]).id->0)@ != ((
            #[trigger] self.users@[k2]).id->0)@
        &&& forall|m: int|
            0 <= m < self.roles@.len() ==> spec_has_user(
                self.users@,
                (#[trigger] self.roles@[m]).subject@,
            )
        &&& forall|k: int|
            0 <= k < self.users@.len() ==> exists|m: int|
                0 <= m < self.roles@.len() && (#[trigger] self.roles@[m]).subject@ == ((
                #[trigger] self.users@[k]).id->0)@
    }

    /// Law: under the table rules no stored record is reachable with zero
    /// role rows.
    pub proof fn lemma_no_user_without_role(&self, k: int)
        requires
            self.wf(),
            0 <= k < self.users_view().len(),
        ensures
            spec_roles_of(self.roles_view(), (self.users_view()[k].id->0)@).len() > 0,
    {
        let id = (self.users_view()[k].id->0)@;
        let m = choose|m: int|
            0 <= m < self.roles@.len() && (#[trigger] self.roles@[m]).subject@ == id;
        lemma_roles_from_covers(self.roles@, id, 0, m);
    }

    pub fn new() -> (r: Self)
        ensures
            r.wf(),
            r.users_view() == Seq::<User>::empty(),
            r.roles_view() == Seq::<RoleRow>::empty(),
            r.calls_view() == 0,
            r.available_view(),
            !r.fault_view(),
    {
        MemoryStore {
            users: Vec::new(),
            roles: Vec::new(),
            calls: 0,
            available: true,
            fail_role_write: false,
        }
    }

    /// How many operations have been invoked, as a caller can observe it.
    pub fn calls(&self) -> (r: u64)
        ensures
            r == self.calls_view(),
    {
        self.calls
    }

    /// Harness control: make the store reachable or unreachable.
    pub fn set_available(&mut self, a: bool)
        ensures
            final(self).available_view() == a,
            final(self).users_view() == old(self).users_view(),
            final(self).roles_view() == old(self).roles_view(),
            final(self).calls_view() == old(self).calls_view(),
            final(self).fault_view() == old(self).fault_view(),
            old(self).wf() ==> final(self).wf(),
    {
        self.available = a;
    }

    /// Harness control: force the role write of the next account creation to
    /// fail after the user insert, to exercise the all-or-nothing rule.
    pub fn set_role_write_failure(&mut self, f: bool)
        ensures
            final(self).fault_view() == f,
            final(self).users_view() == old(self).users_view(),
            final(self).roles_view() == old(self).roles_view(),
            final(self).calls_view() == old(self).calls_view(),
            final(self).available_view() == old(self).available_view(),
            old(self).wf() ==> final(self).wf(),
    {
        self.fail_role_write = f;
    }

    fn bump(&mut self)
        ensures
            final(self).calls_view() == spec_bump(old(self).calls_view()),
            final(self).users_view() == old(self).users_view(),
            final(self).roles_view() == old(self).roles_view(),
            final(self).available_view() == old(self).available_view(),
            final(self).fault_view() == old(self).fault_view(),
            old(self).wf() ==> final(self).wf(),
    {
        if self.calls < u64::MAX {
            self.calls = self.calls + 1;
        }
    }

    /// All roles the subject holds; an empty list (no roles) is a valid
    /// answer, not an error.
    pub fn get_user_roles(&mut self, user_uid: &str) -> (r: Result<Vec<Role>, StoreError>)
        ensures
            final(self).users_view() == old(self).users_view(),
            final(self).roles_view() == old(self).roles_view(),
            final(self).available_view() == old(self).available_view(),
            final(self).fault_view() == old(self).fault_view(),
            final(self).calls_view() == spec_bump(old(self).calls_view()),
            old(self).wf() ==> final(self).wf(),
            match r {
                Ok(v) => old(self).available_view() && v@ == spec_roles_of(
                    old(self).roles_view(),
                    user_uid@,
                ),
                Err(e) => !old(self).available_view() && e == StoreError::Unavailable,
            },
    {
        self.bump();
        if !self.available {
            return Err(StoreError::Unavailable);
        }
        let ghost rs = self.roles@;
        let mut v: Vec<Role> = Vec::new();
        let mut m: usize = 0;
        while m < self.roles.len()
            invariant
                rs == self.roles@,
                m <= rs.len(),
                spec_roles_of(rs, user_uid@) == v@ + spec_roles_from(rs, user_uid@, m as int),
            decreases rs.len() - m,
        {
            let rr = &self.roles[m];
            if str_eq(rr.subject.as_str(), user_uid) {
                proof {
                    assert(spec_roles_from(rs, user_uid@, m as int) == seq![rs[m as int].role]
                        + spec_roles_from(rs, user_uid@, m as int + 1));
                    assert(v@ + spec_roles_from(rs, user_uid@, m as int) == v@.push(rs[m as int].role)
                        + spec_roles_from(rs, user_uid@, m as int + 1)) by {
                        assert(v@ + (seq![rs[m as int].role] + spec_roles_from(
                            rs,
                            user_uid@,
                            m as int + 1,
                        )) =~= v@.push(rs[m as int].role) + spec_roles_from(
                            rs,
                            user_uid@,
                            m as int + 1,
                        ));
                    }
                }
                v.push(rr.role);
            }
            m += 1;
        }
        proof {
            assert(spec_roles_of(rs, user_uid@) =~= v@);
        }
        Ok(v)
    }

    /// Append one role row for the subject, which must already have a record.
    pub fn save_user_role(&mut self, user_uid: &str, role: &Role) -> (r: Result<(), StoreError>)
        requires
            old(self).wf(),
        ensures
            final(self).wf(),
            final(self).users_view() == old(self).users_view(),
            final(self).available_view() == old(self).available_view(),
            final(self).fault_view() == old(self).fault_view(),
            final(self).calls_view() == spec_bump(old(self).calls_view()),
            match r {
                Ok(_) => {
                    &&& old(self).available_view()
                    &&& spec_has_user(old(self).users_view(), user_uid@)
                    &&& final(self).roles_view().len() == old(self).roles_view().len() + 1
                    &&& final(self).roles_view().subrange(
                        0,
                        old(self).roles_view().len() as int,
                    ) == old(self).roles_view()
                    &&& final(self).roles_view().last().subject@ == user_uid@
                    &&& final(self).roles_view().last().role == *role
                },
                Err(e) => {
                    &&& final(self).roles_view() == old(self).roles_view()
                    &&& (!old(self).available_view() ==> e == StoreError::Unavailable)
                    &&& (old(self).available_view() ==> !spec_has_user(
                        old(self).users_view(),
                        user_uid@,
                    ) && e == StoreError::NotFound)
                },
            },
    {
        self.bump();
        if !self.available {
            return Err(StoreError::Unavailable);
        }
        match find_user_index(&self.users, user_uid) {
            None => Err(StoreError::NotFound),
            Some(_) => {
                self.roles.push(RoleRow { subject: String::from_str(user_uid), role: *role });
                proof {
                    let pre = old(self).roles@;
                    let cur = self.roles@;
                    assert forall|m: int|
                        0 <= m < cur.len() implies spec_has_user(
                        self.users@,
                        (#[trigger] cur[m]).subject@,
                    ) by {
                        if m < pre.len() {
                            assert(cur[m] == pre[m]);
                        } else {
                            assert(cur[m].subject@ == user_uid@);
                        }
                    }
                    assert forall|k: int|
                        0 <= k < self.users@.len() implies exists|m: int|
                        0 <= m < cur.len() && (#[trigger] cur[m]).subject@ == ((
                        #[trigger] self.users@[k]).id->0)@ by {
                        let m0 = choose|m: int|
                            0 <= m < pre.len() && (#[trigger] pre[m]).subject@ == ((
                            self.users@[k]).id->0)@;
                        assert(cur[m0] == pre[m0]);
                        assert(0 <= m0 < cur.len() && cur[m0].subject@ == ((self.users@[k]).id->0)@);
                    }
                }
                Ok(())
            },
        }
    }

    /// Create an account and, atomically with it, its single default
    /// `Role::User` row. The two writes are one logical unit: any failure,
    /// including a role write that fails after the user insert, leaves the
    /// store exactly as it was.
    pub fn create_user(&mut self, user: &User) -> (r: Result<User, StoreError>)
        requires
            old(self).wf(),
            user.id is Some,
            user.created_at is Some,
            user.updated_at is Some,
        ensures
            final(self).wf(),
            final(self).available_view() == old(self).available_view(),
            final(self).fault_view() == old(self).fault_view(),
            final(self).calls_view() == spec_bump(old(self).calls_view()),
            match r {
                Ok(stored) => {
                    &&& old(self).available_view()
                    &&& !old(self).fault_view()
                    &&& !spec_has_user(old(self).users_view(), (user.id->0)@)
                    &&& stored.id == user.id
                    &&& stored.name == user.name
                    &&& stored.email == user.email
                    &&& stored.created_at == user.created_at
                    &&& stored.updated_at == user.updated_at
                    &&& bcrypt_matches(user.password@, stored.password@)
                    &&& final(self).users_view() == old(self).users_view().push(stored)
                    &&& final(self).roles_view().len() == old(self).roles_view().len() + 1
                    &&& final(self).roles_view().subrange(
                        0,
                        old(self).roles_view().len() as int,
                    ) == old(self).roles_view()
                    &&& final(self).roles_view().last().subject@ == (user.id->0)@
                    &&& final(self).roles_view().last().role == Role::User
                },
                Err(e) => {
                    &&& final(self).users_view() == old(self).users_view()
                    &&& final(self).roles_view() == old(self).roles_view()
                    &&& (!old(self).available_view() ==> e == StoreError::Unavailable)
                    &&& (old(self).available_view() && spec_has_user(
                        old(self).users_view(),
                        (user.id->0)@,
                    ) ==> e == StoreError::DuplicateId)
                    &&& (old(self).available_view() && !spec_has_user(
                        old(self).users_view(),
                        (user.id->0)@,
                    ) && old(self).fault_view() ==> (e == StoreError::RoleWriteFailed || e
                        == StoreError::Unavailable))
                    &&& (old(self).available_view() && !spec_has_user(
                        old(self).users_view(),
                        (user.id->0)@,
                    ) && !old(self).fault_view() ==> e == StoreError::Unavailable)
                },
            },
    {
        self.bump();
        if !self.available {
            return Err(StoreError::Unavailable);
        }
        let id_string: String = match &user.id {
            Some(s) => s.clone(),
            None => String::new(),
        };
        if find_user_index(&self.users, id_string.as_str()).is_some() {
            return Err(StoreError::DuplicateId);
        }
        let hashed = match hash_password(user.password.as_str(), 12) {
            Some(h) => h,
            None => {
                return Err(StoreError::Unavailable);
            },
        };
        let subject = id_string.clone();
        let stored = User {
            id: Some(id_string),
            name: user.name.clone(),
            email: user.email.clone(),
            password: hashed,
            created_at: user.created_at,
            updated_at: user.updated_at,
        };
        let ret = stored.clone();
        let ghost pre_users = self.users@;
        let ghost pre_roles = self.roles@;
        self.users.push(stored);
        if self.fail_role_write {
            let _ = self.users.pop();
            proof {
                assert(self.users@ =~= pre_users);
            }
            return Err(StoreError::RoleWriteFailed);
        }
        self.roles.push(RoleRow { subject, role: Role::User });
        proof {
            let id = (user.id->0)@;
            let cur_u = self.users@;
            let cur_r = self.roles@;
            assert(cur_u == pre_users.push(ret));
            assert forall|m: int|
                0 <= m < cur_r.len() implies spec_has_user(
                cur_u,
                (#[trigger] cur_r[m]).subject@,
            ) by {
                if m < pre_roles.len() {
                    assert(cur_r[m] == pre_roles[m]);
                    let k0 = choose|k: int|
                        0 <= k < pre_users.len() && user_matches(
                            #[trigger] pre_users[k],
                            pre_roles[m].subject@,
                        );
                    assert(cur_u[k0] == pre_users[k0]);
                } else {
                    assert(cur_r[m].subject@ == id);
                    assert(user_matches(cur_u[cur_u.len() - 1], id));
                }
            }
            assert forall|k: int|
                0 <= k < cur_u.len() implies exists|m: int|
                0 <= m < cur_r.len() && (#[trigger] cur_r[m]).subject@ == ((
                #[trigger] cur_u[k]).id->0)@ by {
                if k < pre_users.len() {
                    let m0 = choose|m: int|
                        0 <= m < pre_roles.len() && (#[trigger] pre_roles[m]).subject@ == ((
                        pre_users[k]).id->0)@;
                    assert(cur_r[m0] == pre_roles[m0]);
                    assert(cur_u[k] == pre_users[k]);
                    assert(0 <= m0 < cur_r.len() && cur_r[m0].subject@ == ((cur_u[k]).id->0)@);
                } else {
                    let m1 = cur_r.len() - 1;
                    assert(0 <= m1 < cur_r.len() && cur_r[m1].subject@ == ((cur_u[k]).id->0)@);
                }
            }
        }
        Ok(ret)
    }

    /// The record of the subject, if one exists.
    pub fn get_user(&mut self, user_uid: &str) -> (r: Result<User, StoreError>)
        ensures
            final(self).users_view() == old(self).users_view(),
            final(self).roles_view() == old(self).roles_view(),
            final(self).available_view() == old(self).available_view(),
            final(self).fault_view() == old(self).fault_view(),
            final(self).calls_view() == spec_bump(old(self).calls_view()),
            old(self).wf() ==> final(self).wf(),
            match r {
                Ok(u) => {
                    &&& old(self).available_view()
                    &&& spec_find_user(old(self).users_view(), user_uid@) matches Some(k) && u
                        == old(self).users_view()[k]
                },
                Err(e) => {
                    &&& (!old(self).available_view() ==> e == StoreError::Unavailable)
                    &&& (old(self).available_view() ==> e == StoreError::NotFound && !spec_has_user(
                        old(self).users_view(),
                        user_uid@,
                    ))
                },
            },
    {
        self.bump();
        if !self.available {
            return Err(StoreError::Unavailable);
        }
        match find_user_index(&self.users, user_uid) {
            Some(k) => Ok(self.users[k].clone()),
            None => Err(StoreError::NotFound),
        }
    }

    /// Whether the candidate password is the one whose hash the subject's
    /// record holds.
    pub fn check_password(&mut self, user_uid: &str, password: &str) -> (r: Result<
        bool,
        StoreError,
    >)
        ensures
            final(self).users_view() == old(self).users_view(),
            final(self).roles_view() == old(self).roles_view(),
            final(self).available_view() == old(self).available_view(),
            final(self).fault_view() == old(self).fault_view(),
            final(self).calls_view() == spec_bump(old(self).calls_view()),
            old(self).wf() ==> final(self).wf(),
            match r {
                Ok(b) => {
                    &&& old(self).available_view()
                    &&& spec_find_user(old(self).users_view(), user_uid@) matches Some(k) && b
                        == bcrypt_matches(password@, old(self).users_view()[k].password@)
                },
                Err(e) => {
                    &&& (!old(self).available_view() ==> e == StoreError::Unavailable)
                    &&& (old(self).available_view() ==> e == StoreError::NotFound && !spec_has_user(
                        old(self).users_view(),
                        user_uid@,
                    ))
                },
            },
    {
        self.bump();
        if !self.available {
            return Err(StoreError::Unavailable);
        }
        match find_user_index(&self.users, user_uid) {
            None => Err(StoreError::NotFound),
            Some(k) => Ok(verify_password(password, self.users[k].password.as_str())),
        }
    }

    /// Rename the subject's record, leaving every other field and every
    /// other record as it was.
    pub fn update_user_name(&mut self, user_name: &str, user_uid: &str) -> (r: Result<
        User,
        StoreError,
    >)
        requires
            old(self).wf(),
        ensures
            final(self).wf(),
            final(self).roles_view() == old(self).roles_view(),
            final(self).available_view() == old(self).available_view(),
            final(self).fault_view() == old(self).fault_view(),
            final(self).calls_view() == spec_bump(old(self).calls_view()),
            match r {
                Ok(u) => {
                    &&& old(self).available_view()
                    &&& spec_find_user(old(self).users_view(), user_uid@) matches Some(k)
                        && u.id == old(self).users_view()[k].id
                        && u.email == old(self).users_view()[k].email
                        && u.password == old(self).users_view()[k].password
                        && u.created_at == old(self).users_view()[k].created_at
                        && u.updated_at == old(self).users_view()[k].updated_at
                        && u.name@ == user_name@
                        && final(self).users_view() == old(self).users_view().update(k, u)
                },
                Err(e) => {
                    &&& final(self).users_view() == old(self).users_view()
                    &&& (!old(self).available_view() ==> e == StoreError::Unavailable)
                    &&& (old(self).available_view() ==> e == StoreError::NotFound && !spec_has_user(
                        old(self).users_view(),
                        user_uid@,
                    ))
                },
            },
    {
        self.bump();
        if !self.available {
            return Err(StoreError::Unavailable);
        }
        match find_user_index(&self.users, user_uid) {
            None => Err(StoreError::NotFound),
            Some(k) => {
                let mut rec = self.users[k].clone();
                rec.name = String::from_str(user_name);
                let ret = rec.clone();
                let ghost pre_users = self.users@;
                let ghost pre_roles = self.roles@;
                let _ = self.users.remove(k);
                self.users.insert(k, rec);
                proof {
                    let cur_u = self.users@;
                    assert(cur_u =~= pre_users.update(k as int, ret));
                    assert forall|m: int|
                        0 <= m < pre_roles.len() implies spec_has_user(
                        cur_u,
                        (#[trigger] pre_roles[m]).subject@,
                    ) by {
                        let k0 = choose|j: int|
                            0 <= j < pre_users.len() && user_matches(
                                #[trigger] pre_users[j],
                                pre_roles[m].subject@,
                            );
                        assert(user_matches(cur_u[k0], pre_roles[m].subject@));
                    }
                    assert forall|j: int|
                        0 <= j < cur_u.len() implies exists|m: int|
                        0 <= m < pre_roles.len() && (#[trigger] pre_roles[m]).subject@ == ((
                        #[trigger] cur_u[j]).id->0)@ by {
                        let m0 = choose|m: int|
                            0 <= m < pre_roles.len() && (#[trigger] pre_roles[m]).subject@ == ((
                            pre_users[j]).id->0)@;
                        assert(0 <= m0 < pre_roles.len() && pre_roles[m0].subject@ == ((
                        cur_u[j]).id->0)@);
                    }
                }
                Ok(ret)
            },
        }
    }
}

/// If some row at or after `j >= i` carries `id`, the subject's role list
/// from `i` is nonempty.
proof fn lemma_roles_from_covers(rs: Seq<RoleRow>, id: Seq<char>, i: int, m: int)
    requires
        0 <= i <= m < rs.len(),
        rs[m].subject@ == id,
    ensures
        spec_roles_from(rs, id, i).len() > 0,
    decreases m - i,
{
    if i < m {
        lemma_roles_from_covers(rs, id, i + 1, m);
    }
}

} // verus!
