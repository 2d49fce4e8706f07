use vstd::prelude::*;

verus! {

/// The details of an authenticated user's record, as the server returns them.
#[derive(Debug)]
pub struct AuthStoreRecord {
    /// The user's unique ID.
    pub id: String,
    /// The ID of the collection the user belongs to.
    pub collection_id: String,
    /// The name of the collection the user belongs to.
    pub collection_name: String,
    /// The timestamp when the record was created.
    pub created: String,
    /// The timestamp when the record was last updated.
    pub updated: String,
    /// The user's email address.
    pub email: String,
    /// Whether the user's email is publicly visible.
    pub email_visibility: bool,
    /// Whether the user's email has been verified.
    pub verified: bool,
}

/// An authenticated session: the user's record and the bearer token that goes with it.
#[derive(Debug)]
pub struct AuthStore {
    /// The authenticated user's record.
    pub record: AuthStoreRecord,
    /// The authentication token.
    pub token: String,
}

impl Clone for AuthStoreRecord {
    fn clone(&self) -> (r: Self)
        ensures
            r == *self,
    {
        AuthStoreRecord {
            id: self.id.clone(),
            collection_id: self.collection_id.clone(),
            collection_name: self.collection_name.clone(),
            created: self.created.clone(),
            updated: self.updated.clone(),
            email: self.email.clone(),
            email_visibility: self.email_visibility,
            verified: self.verified,
        }
    }
}

impl Clone for AuthStore {
    fn clone(&self) -> (r: Self)
        ensures
            r == *self,
    {
        AuthStore { record: self.record.clone(), token: self.token.clone() }
    }
}

} // verus!
