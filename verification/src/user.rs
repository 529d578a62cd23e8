use vstd::prelude::*;
use crate::clock::now_timestamp;

verus! {

/// An account record. `id` equals the subject identifier once filled in;
/// `password` holds the secret credential hash after the record has been
/// through the store; timestamps are whole seconds since the Unix epoch.
#[derive(Debug)]
pub struct User {
    pub id: Option<String>,
    pub name: String,
    pub email: String,
    pub password: String,
    pub created_at: Option<i64>,
    pub updated_at: Option<i64>,
}

impl User {
    /// Stamp a fresh record with its subject id and creation time, leaving
    /// the caller-supplied fields untouched.
    pub fn fill_id(&mut self, id: String)
        ensures
            final(self).id == Some(id),
            final(self).name == old(self).name,
            final(self).email == old(self).email,
            final(self).password == old(self).password,
            final(self).created_at is Some,
            final(self).updated_at is Some,
    {
        self.id = Some(id);
        self.created_at = Some(now_timestamp());
        self.updated_at = Some(now_timestamp());
    }
}

impl Clone for User {
    fn clone(&self) -> (r: Self)
        ensures
            r == *self,
    {
        User {
            id: match &self.id {
                Some(s) => Some(s.clone()),
                None => None,
            },
            name: self.name.clone(),
            email: self.email.clone(),
            password: self.password.clone(),
            created_at: self.created_at,
            updated_at: self.updated_at,
        }
    }
}

} // verus!
