use vstd::prelude::*;
use crate::user::User;
use crate::user_uid::UserUID;

verus! {

/// Per-request mutable cell shared by the resolver branches of one request.
/// The authentication guard writes the subject exactly once; the existence
/// guard may cache the resolved record once; afterwards every reader sees
/// those values. One instance is built per inbound request and never shared
/// across requests; the exclusive borrow rules stand in for the per-request
/// lock of the transport layer.
#[derive(Debug)]
pub struct RequestIdentityContext {
    subject: UserUID,
    user: Option<User>,
}

impl RequestIdentityContext {
    /// The subject identifier currently held; empty while unset.
    pub closed spec fn subject_view(&self) -> Seq<char> {
        self.subject.0@
    }

    /// The cached record of the resolved user, if the existence guard ran.
    pub closed spec fn user_view(&self) -> Option<User> {
        self.user
    }

    /// Whether the authentication guard has populated the subject.
    pub open spec fn subject_set(&self) -> bool {
        self.subject_view().len() > 0
    }

    pub fn new() -> (r: Self)
        ensures
            r.subject_view() == Seq::<char>::empty(),
            r.user_view() is None,
    {
        RequestIdentityContext { subject: UserUID(String::new()), user: None }
    }

    pub fn set_subject(&mut self, id: String)
        ensures
            final(self).subject_view() == id@,
            final(self).user_view() == old(self).user_view(),
    {
        self.subject.update(id);
    }

    /// The resolved subject; the empty string is the unset sentinel, and a
    /// read before the authentication guard wrote is treated as
    /// unauthenticated by every guard.
    pub fn get_subject(&self) -> (r: String)
        ensures
            r@ == self.subject_view(),
    {
        self.subject.0.clone()
    }

    pub fn set_user(&mut self, record: User)
        ensures
            final(self).user_view() == Some(record),
            final(self).subject_view() == old(self).subject_view(),
    {
        self.user = Some(record);
    }

    pub fn get_user(&self) -> (r: &Option<User>)
        ensures
            *r == self.user_view(),
    {
        &self.user
    }
}

/// Law: concurrent resolver fields of one request that read the identity
/// context after the authentication guard completed all observe one subject:
/// any two readings of one context state are equal.
pub proof fn lemma_readers_agree(
    ctx: &RequestIdentityContext,
    r1: Seq<char>,
    r2: Seq<char>,
)
    requires
        r1 == ctx.subject_view(),
        r2 == ctx.subject_view(),
    ensures
        r1 == r2,
{
}

} // verus!
