use vstd::prelude::*;
use crate::context::RequestIdentityContext;
use crate::crypto::bcrypt_matches;
use crate::errors::ApiError;
use crate::errors::StoreError;
use crate::role::Role;
use crate::store::MemoryStore;
use crate::store::spec_bump;
use crate::store::spec_find_user;
use crate::store::spec_has_user;
use crate::user::User;

verus! {

/// The mutating operations, run only after their guard set passed.
pub struct Mutation;

impl Mutation {
    /// Create the authenticated subject's account: the resolved subject id
    /// becomes the record id, the record is stamped, and the store writes it
    /// together with its single default `Role::User` row, all or nothing.
    pub fn create_user(
        &self,
        ctx: &RequestIdentityContext,
        store: &mut MemoryStore,
        input: User,
    ) -> (r: Result<User, StoreError>)
        requires
            old(store).wf(),
        ensures
            final(store).wf(),
            final(store).available_view() == old(store).available_view(),
            final(store).fault_view() == old(store).fault_view(),
            final(store).calls_view() == spec_bump(old(store).calls_view()),
            match r {
                Ok(stored) => {
                    &&& old(store).available_view()
                    &&& !old(store).fault_view()
                    &&& !spec_has_user(old(store).users_view(), ctx.subject_view())
                    &&& stored.id matches Some(s) && s@ == ctx.subject_view()
                    &&& stored.name == input.name
                    &&& stored.email == input.email
                    &&& bcrypt_matches(input.password@, stored.password@)
                    &&& final(store).users_view() == old(store).users_view().push(stored)
                    &&& final(store).roles_view().len() == old(store).roles_view().len() + 1
                    &&& final(store).roles_view().subrange(
                        0,
                        old(store).roles_view().len() as int,
                    ) == old(store).roles_view()
                    &&& final(store).roles_view().last().subject@ == ctx.subject_view()
                    &&& final(store).roles_view().last().role == Role::User
                },
                Err(e) => {
                    &&& final(store).users_view() == old(store).users_view()
                    &&& final(store).roles_view() == old(store).roles_view()
                    &&& (!old(store).available_view() ==> e == StoreError::Unavailable)
                    &&& (old(store).available_view() && spec_has_user(
                        old(store).users_view(),
                        ctx.subject_view(),
                    ) ==> e == StoreError::DuplicateId)
                },
            },
    {
        let mut record = input;
        record.fill_id(ctx.get_subject());
        store.create_user(&record)
    }

    /// Rename the authenticated subject's record; every other field and
    /// every other record stays as it was.
    pub fn update_user_name(
        &self,
        ctx: &RequestIdentityContext,
        store: &mut MemoryStore,
        user_name: String,
    ) -> (r: Result<User, StoreError>)
        requires
            old(store).wf(),
        ensures
            final(store).wf(),
            final(store).roles_view() == old(store).roles_view(),
            final(store).available_view() == old(store).available_view(),
            final(store).fault_view() == old(store).fault_view(),
            final(store).calls_view() == spec_bump(old(store).calls_view()),
            match r {
                Ok(u) => {
                    &&& old(store).available_view()
                    &&& spec_find_user(old(store).users_view(), ctx.subject_view())
                        matches Some(k)
                        && u.id == old(store).users_view()[k].id
                        && u.email == old(store).users_view()[k].email
                        && u.password == old(store).users_view()[k].password
                        && u.created_at == old(store).users_view()[k].created_at
                        && u.updated_at == old(store).users_view()[k].updated_at
                        && u.name@ == user_name@
                        && final(store).users_view() == old(store).users_view().update(k, u)
                },
                Err(e) => {
                    &&& final(store).users_view() == old(store).users_view()
                    &&& (!old(store).available_view() ==> e == StoreError::Unavailable)
                    &&& (old(store).available_view() ==> e == StoreError::NotFound
                        && !spec_has_user(old(store).users_view(), ctx.subject_view()))
                },
            },
    {
        let subject = ctx.get_subject();
        store.update_user_name(user_name.as_str(), subject.as_str())
    }
}

/// The read operations, run only after their guard set passed.
pub struct Query;

impl Query {
    /// The authenticated subject's own record, as cached by the existence
    /// guard. Reading before the guard populated the cache is treated as
    /// unauthenticated.
    pub fn user(&self, ctx: &RequestIdentityContext) -> (r: Result<User, ApiError>)
        ensures
            match r {
                Ok(u) => ctx.user_view() == Some(u),
                Err(e) => ctx.user_view() is None && e == ApiError::Unauthorized,
            },
    {
        match ctx.get_user() {
            Some(u) => Ok(u.clone()),
            None => Err(ApiError::Unauthorized),
        }
    }
}

} // verus!
