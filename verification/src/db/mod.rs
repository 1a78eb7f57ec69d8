//! The admin directory: the accounts on record, found by e-mail address or
//! by identifier.
//!
//! This is the directory held in memory. It answers as the relational
//! store does, so that whatever is proved of a handler that runs on it
//! holds of the same steps run against the store.

pub mod vendor;

use crate::error::{AppError, AppErrorView};
use crate::models::admin::{Admin, AdminView};
use crate::text::str_equal;
use vstd::prelude::*;
use vstd::string::*;

verus! {

/// The accounts on record. No two of them share an e-mail address or an
/// identifier.
#[derive(Debug)]
pub struct AdminDirectory {
    admins: Vec<Admin>,
}

/// The first account with the given e-mail address.
pub open spec fn admin_with_email(admins: Seq<AdminView>, email: Seq<char>) -> Option<AdminView>
    decreases admins.len(),
{
    if admins.len() == 0 {
        None
    } else if admins[0].email == email {
        Some(admins[0])
    } else {
        admin_with_email(admins.drop_first(), email)
    }
}

/// The first account with the given identifier.
pub open spec fn admin_with_id(admins: Seq<AdminView>, id: u128) -> Option<AdminView>
    decreases admins.len(),
{
    if admins.len() == 0 {
        None
    } else if admins[0].id == id {
        Some(admins[0])
    } else {
        admin_with_id(admins.drop_first(), id)
    }
}

/// No two accounts share an e-mail address or an identifier.
pub open spec fn distinct_admins(admins: Seq<AdminView>) -> bool {
    forall|i: int, j: int|
        0 <= i < j < admins.len() ==> admins[i].email != admins[j].email && admins[i].id
            != admins[j].id
}

/// The error of the store for an account that would share its e-mail
/// address or identifier with one on record.
pub open spec fn duplicate_admin() -> AppErrorView {
    AppErrorView::Database("duplicate key value violates unique constraint"@)
}

/// An account is found by its e-mail address if and only if some account on
/// record has that address, and what is found has it.
pub proof fn lemma_admin_with_email(admins: Seq<AdminView>, email: Seq<char>)
    ensures
        admin_with_email(admins, email) is None <==> forall|i: int|
            0 <= i < admins.len() ==> (#[trigger] admins[i]).email != email,
        admin_with_email(admins, email) matches Some(a) ==> a.email == email && admins.contains(a),
    decreases admins.len(),
{
    if admins.len() > 0 {
        let rest = admins.drop_first();
        lemma_admin_with_email(rest, email);
        if admins[0].email != email {
            assert forall|i: int| 0 <= i < rest.len() implies (#[trigger] rest[i]) == admins[i
                + 1] by {}
            if admin_with_email(rest, email) is None {
                assert forall|i: int| 0 <= i < admins.len() implies (#[trigger] admins[i]).email
                    != email by {
                    if i > 0 {
                        assert(rest[i - 1] == admins[i]);
                    }
                }
            } else {
                let a = admin_with_email(rest, email)->0;
                let k = choose|k: int| 0 <= k < rest.len() && rest[k] == a;
                assert(admins[k + 1] == a);
            }
        } else {
            assert(admins.contains(admins[0]));
        }
    }
}

/// An account is found by its identifier if and only if some account on
/// record has that identifier, and what is found has it.
pub proof fn lemma_admin_with_id(admins: Seq<AdminView>, id: u128)
    ensures
        admin_with_id(admins, id) is None <==> forall|i: int|
            0 <= i < admins.len() ==> (#[trigger] admins[i]).id != id,
        admin_with_id(admins, id) matches Some(a) ==> a.id == id && admins.contains(a),
    decreases admins.len(),
{
    if admins.len() > 0 {
        let rest = admins.drop_first();
        lemma_admin_with_id(rest, id);
        if admins[0].id != id {
            assert forall|i: int| 0 <= i < rest.len() implies (#[trigger] rest[i]) == admins[i
                + 1] by {}
            if admin_with_id(rest, id) is None {
                assert forall|i: int| 0 <= i < admins.len() implies (#[trigger] admins[i]).id
                    != id by {
                    if i > 0 {
                        assert(rest[i - 1] == admins[i]);
                    }
                }
            } else {
                let a = admin_with_id(rest, id)->0;
                let k = choose|k: int| 0 <= k < rest.len() && rest[k] == a;
                assert(admins[k + 1] == a);
            }
        } else {
            assert(admins.contains(admins[0]));
        }
    }
}

/// Adding an account at the end changes no lookup that found one before,
/// and makes the new account the answer to a lookup that found none.
pub proof fn lemma_admin_appended(admins: Seq<AdminView>, added: AdminView, email: Seq<char>)
    ensures
        admin_with_email(admins.push(added), email) == match admin_with_email(admins, email) {
            Some(a) => Some(a),
            None => if added.email == email {
                Some(added)
            } else {
                None
            },
        },
    decreases admins.len(),
{
    if admins.len() == 0 {
        assert(admins.push(added).drop_first() =~= admins);
    } else {
        assert(admins.push(added).drop_first() =~= admins.drop_first().push(added));
        lemma_admin_appended(admins.drop_first(), added, email);
    }
}

impl View for AdminDirectory {
    type V = Seq<AdminView>;

    closed spec fn view(&self) -> Seq<AdminView> {
        self.admins@.map_values(|a: Admin| a@)
    }
}

impl AdminDirectory {
    #[verifier::type_invariant]
    spec fn distinct(self) -> bool {
        distinct_admins(self@)
    }

    /// A directory without accounts.
    pub fn new() -> (directory: AdminDirectory)
        ensures
            directory@ == Seq::<AdminView>::empty(),
    {
        let directory = AdminDirectory { admins: Vec::new() };
        directory
    }

    /// The number of accounts on record.
    pub fn len(&self) -> (count: usize)
        ensures
            count == self@.len(),
            distinct_admins(self@),
    {
        proof {
            use_type_invariant(self);
        }
        self.admins.len()
    }
}

/// Looks an account up by its e-mail address.
pub fn find_admin_by_email(pool: &AdminDirectory, email: &str) -> (found: Option<Admin>)
    ensures
        match found {
            Some(admin) => admin_with_email(pool@, email@) == Some(admin@),
            None => admin_with_email(pool@, email@) is None,
        },
{
    let mut i: usize = 0;
    assert(pool@.skip(0) =~= pool@);
    while i < pool.admins.len()
        invariant
            i <= pool.admins.len(),
            admin_with_email(pool@, email@) == admin_with_email(pool@.skip(i as int), email@),
        decreases pool.admins.len() - i,
    {
        let ghost rest = pool@.skip(i as int);
        assert(rest.drop_first() =~= pool@.skip(i + 1));
        if str_equal(pool.admins[i].email.as_str(), email) {
            return Some(pool.admins[i].duplicate());
        }
        i = i + 1;
    }
    None
}

/// Looks an account up by its identifier.
pub fn find_admin_by_id(pool: &AdminDirectory, id: u128) -> (found: Option<Admin>)
    ensures
        match found {
            Some(admin) => admin_with_id(pool@, id) == Some(admin@),
            None => admin_with_id(pool@, id) is None,
        },
{
    let mut i: usize = 0;
    assert(pool@.skip(0) =~= pool@);
    while i < pool.admins.len()
        invariant
            i <= pool.admins.len(),
            admin_with_id(pool@, id) == admin_with_id(pool@.skip(i as int), id),
        decreases pool.admins.len() - i,
    {
        let ghost rest = pool@.skip(i as int);
        assert(rest.drop_first() =~= pool@.skip(i + 1));
        if pool.admins[i].id == id {
            return Some(pool.admins[i].duplicate());
        }
        i = i + 1;
    }
    None
}

/// Puts a new account on record under the identifier `id`.
///
/// Fails, and changes nothing, where an account with that e-mail address
/// or that identifier is on record already.
pub fn create_admin(
    pool: &mut AdminDirectory,
    id: u128,
    email: &str,
    hashed_password: &str,
    role: &str,
) -> (created: Result<Admin, AppError>)
    ensures
        match created {
            Ok(admin) => {
                &&& admin_with_email(old(pool)@, email@) is None
                &&& admin_with_id(old(pool)@, id) is None
                &&& admin@ == (AdminView {
                    id,
                    email: email@,
                    hashed_password: hashed_password@,
                    role: role@,
                })
                &&& final(pool)@ == old(pool)@.push(admin@)
            },
            Err(e) => {
                &&& admin_with_email(old(pool)@, email@) is Some || admin_with_id(old(pool)@, id)
                    is Some
                &&& e@ == duplicate_admin()
                &&& final(pool)@ == old(pool)@
            },
        },
{
    proof {
        use_type_invariant(&*pool);
    }
    if find_admin_by_email(pool, email).is_some() || find_admin_by_id(pool, id).is_some() {
        return Err(
            AppError::Database(
                String::from_str("duplicate key value violates unique constraint"),
            ),
        );
    }
    let admin = Admin {
        id,
        email: String::from_str(email),
        hashed_password: String::from_str(hashed_password),
        role: String::from_str(role),
    };
    let copy = admin.duplicate();
    let ghost before = pool@;
    let mut admins: Vec<Admin> = Vec::new();
    std::mem::swap(&mut admins, &mut pool.admins);
    admins.push(admin);
    proof {
        let after = admins@.map_values(|a: Admin| a@);
        assert(after =~= before.push(copy@));
        lemma_admin_with_email(before, email@);
        lemma_admin_with_id(before, id);
    }
    pool.admins = admins;
    Ok(copy)
}

} // verus!
