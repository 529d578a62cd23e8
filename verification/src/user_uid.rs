use vstd::prelude::*;

verus! {

#[verifier::external_type_specification]
#[verifier::external_body]
pub struct ExUuid(uuid::Uuid);

/// Whether the uuid parser accepts `s` as the text of a 128-bit UUID:
/// the acceptance of `uuid::Uuid::parse_str`, a function of the string alone.
pub uninterp spec fn uuid_accepted(s: Seq<char>) -> bool;

/// Relies on uuid::Uuid::parse_str: acceptance is deterministic in the input
/// string, and a parse failure is the only error.
#[verifier::external_body]
fn parse_uuid_str(s: &str) -> (r: Option<uuid::Uuid>)
    ensures
        r is Some <==> uuid_accepted(s@),
{
    match uuid::Uuid::parse_str(s) {
        Ok(u) => Some(u),
        Err(_) => None,
    }
}

/// The subject id is not in a shape the store can use as a 128-bit key.
#[derive(Copy, Clone, PartialEq, Eq, Structural, Debug)]
pub struct SubjectFormatError;

/// The per-request cell holding the subject identifier resolved by the
/// authentication guard. The empty string is the unset sentinel.
#[derive(Debug)]
pub struct UserUID(pub String);

impl UserUID {
    pub fn update(&mut self, user_uid: String)
        ensures
            final(self).0 == user_uid,
    {
        self.0 = user_uid;
    }

    /// The subject id as a 128-bit UUID. A subject whose id is not in UUID
    /// shape is reported with a format error, never a panic.
    pub fn to_uuid(&self) -> (r: Result<uuid::Uuid, SubjectFormatError>)
        ensures
            r is Ok <==> uuid_accepted(self.0@),
    {
        match parse_uuid_str(self.0.as_str()) {
            Some(u) => Ok(u),
            None => Err(SubjectFormatError),
        }
    }
}

impl Clone for UserUID {
    fn clone(&self) -> (r: Self)
        ensures
            r == *self,
    {
        UserUID(self.0.clone())
    }
}

} // verus!
