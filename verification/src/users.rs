//! Local user records and the rule that maps an external identity to one.

use vstd::prelude::*;
use crate::ids::{clock_reading, fresh_id, unix_now};
use crate::provider::OAuthProvider;

verus! {

/// One local user.
#[derive(Clone, Debug, PartialEq, Eq)]
pub struct Model {
    pub id: u128,
    pub username: Option<String>,
    pub email: Option<String>,
    pub is_active: bool,
    pub idp: String,
    pub idp_uid: String,
    pub created_at: i64,
    pub updated_at: i64,
}

impl Model {
    /// Whether the record belongs to an external identity.
    pub open spec fn is_for(&self, idp: OAuthProvider, idp_uid: Seq<char>) -> bool {
        self.idp@ == idp.name() && self.idp_uid@ == idp_uid
    }

    /// Whether the record is the one made for an identity seen for the first
    /// time: active, without profile, both timestamps alike.
    pub open spec fn is_fresh_for(&self, idp: OAuthProvider, idp_uid: Seq<char>) -> bool {
        &&& self.is_for(idp, idp_uid)
        &&& self.username is None
        &&& self.email is None
        &&& self.is_active
        &&& self.created_at == self.updated_at
    }
}

/// What is done for an external identity.
#[derive(Debug)]
pub enum UserResolution {
    /// The identity is known: its record is used as it is.
    Existing(Model),
    /// The identity is new: this record is to be inserted, in the same unit
    /// of work as the lookup.
    Create(Model),
}

impl UserResolution {
    /// The user that the login continues with.
    pub open spec fn user(&self) -> Model {
        match self {
            UserResolution::Existing(m) => *m,
            UserResolution::Create(m) => *m,
        }
    }

    /// Whether this is a right answer to a lookup's result.
    pub open spec fn answers(&self, existing: Option<Model>, idp: OAuthProvider, idp_uid: Seq<char>) -> bool {
        match existing {
            Some(found) => *self == UserResolution::Existing(found),
            None => self is Create && self.user().is_fresh_for(idp, idp_uid),
        }
    }
}

/// The record made for an identity seen for the first time.
pub fn new_user(id: u128, idp: OAuthProvider, idp_uid: String, now: i64) -> (user: Model)
    ensures
        user.id == id,
        user.is_fresh_for(idp, idp_uid@),
        user.created_at == now,
{
    Model {
        id,
        username: None,
        email: None,
        is_active: true,
        idp: idp.as_str().to_owned(),
        idp_uid,
        created_at: now,
        updated_at: now,
    }
}

/// Decides what is done once the lookup by provider and provider user id
/// has answered: a known user is returned unchanged, an unknown one gets a
/// record with a fresh id and the current time.
pub fn get_or_create_user_if_not_exist(existing: Option<Model>, idp: OAuthProvider, idp_uid: String) -> (resolution:
    UserResolution)
    ensures
        resolution.answers(existing, idp, idp_uid@),
        resolution matches UserResolution::Create(user) ==> clock_reading(user.created_at),
{
    match existing {
        Some(user) => UserResolution::Existing(user),
        None => {
            let id = fresh_id();
            let now = unix_now();
            UserResolution::Create(new_user(id, idp, idp_uid, now))
        },
    }
}

/// The first record for an identity among stored records.
pub open spec fn lookup(rows: Seq<Model>, idp: OAuthProvider, idp_uid: Seq<char>) -> Option<Model>
    decreases rows.len(),
{
    if rows.len() == 0 {
        None
    } else if rows[0].is_for(idp, idp_uid) {
        Some(rows[0])
    } else {
        lookup(rows.drop_first(), idp, idp_uid)
    }
}

/// How many stored records belong to an identity.
pub open spec fn count_for(rows: Seq<Model>, idp: OAuthProvider, idp_uid: Seq<char>) -> nat
    decreases rows.len(),
{
    if rows.len() == 0 {
        0
    } else {
        (if rows[0].is_for(idp, idp_uid) {
            1nat
        } else {
            0nat
        }) + count_for(rows.drop_first(), idp, idp_uid)
    }
}

/// The stored records once a resolution was carried out.
pub open spec fn stored_after(rows: Seq<Model>, resolution: UserResolution) -> Seq<Model> {
    match resolution {
        UserResolution::Existing(_) => rows,
        UserResolution::Create(m) => rows.push(m),
    }
}

/// A lookup finds a record exactly when the identity has records, and what
/// it finds belongs to the identity.
pub proof fn lookup_finds_own(rows: Seq<Model>, idp: OAuthProvider, idp_uid: Seq<char>)
    ensures
        lookup(rows, idp, idp_uid) is None <==> count_for(rows, idp, idp_uid) == 0,
        lookup(rows, idp, idp_uid) matches Some(m) ==> m.is_for(idp, idp_uid),
    decreases rows.len(),
{
    if rows.len() > 0 && !rows[0].is_for(idp, idp_uid) {
        lookup_finds_own(rows.drop_first(), idp, idp_uid);
    }
}

/// Appending a record changes the lookup only where nothing was found, and
/// adds to the count of its own identity only.
pub proof fn lookup_after_push(rows: Seq<Model>, added: Model, idp: OAuthProvider, idp_uid: Seq<char>)
    ensures
        lookup(rows.push(added), idp, idp_uid) == match lookup(rows, idp, idp_uid) {
            Some(m) => Some(m),
            None => if added.is_for(idp, idp_uid) {
                Some(added)
            } else {
                None
            },
        },
        count_for(rows.push(added), idp, idp_uid) == count_for(rows, idp, idp_uid) + (if added.is_for(
            idp,
            idp_uid,
        ) {
            1nat
        } else {
            0nat
        }),
    decreases rows.len(),
{
    let pushed = rows.push(added);
    if rows.len() == 0 {
        assert(pushed.drop_first() =~= Seq::<Model>::empty());
        assert(pushed[0] == added);
        assert(lookup(pushed.drop_first(), idp, idp_uid) is None);
        assert(count_for(pushed.drop_first(), idp, idp_uid) == 0);
    } else {
        assert(pushed[0] == rows[0]);
        assert(pushed.drop_first() =~= rows.drop_first().push(added));
        lookup_after_push(rows.drop_first(), added, idp, idp_uid);
    }
}

/// Resolving the same external identity twice yields the same user both
/// times and adds one record at most: the second resolution finds what the
/// first one left and stores nothing. Where the identity was unknown before,
/// exactly one record for it exists afterwards.
pub proof fn get_or_create_is_idempotent(
    rows: Seq<Model>,
    idp: OAuthProvider,
    idp_uid: Seq<char>,
    first: UserResolution,
    second: UserResolution,
)
    requires
        first.answers(lookup(rows, idp, idp_uid), idp, idp_uid),
        second.answers(lookup(stored_after(rows, first), idp, idp_uid), idp, idp_uid),
    ensures
        second is Existing,
        second.user() == first.user(),
        second.user().id == first.user().id,
        stored_after(stored_after(rows, first), second) == stored_after(rows, first),
        stored_after(rows, first).len() <= rows.len() + 1,
        count_for(rows, idp, idp_uid) == 0 ==> count_for(stored_after(rows, first), idp, idp_uid)
            == 1,
        count_for(rows, idp, idp_uid) > 0 ==> stored_after(rows, first) == rows,
{
    lookup_finds_own(rows, idp, idp_uid);
    match first {
        UserResolution::Existing(_) => {},
        UserResolution::Create(m) => {
            lookup_after_push(rows, m, idp, idp_uid);
        },
    }
}

} // verus!
