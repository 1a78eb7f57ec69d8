//! The vendor store: the applications on record and the audit trail of
//! the decisions on them.
//!
//! This is the store held in memory. It answers as the relational store
//! does: listings come oldest first, identifiers and phone numbers are
//! unique, and the audit trail only grows.

use crate::error::{AppError, AppErrorView};
use crate::models::vendor::{
    CreateVendorRequest, CreateVendorRequestView, UpdateVendorStatusRequest,
    UpdateVendorStatusRequestView, Vendor, VendorStatus, VendorView,
};
use crate::text::{optional_str, optional_text, str_equal};
use vstd::prelude::*;
use vstd::string::*;

verus! {

/// What an audit entry records of a status change.
#[derive(Debug, Clone, PartialEq, Eq)]
pub struct AuditDetails {
    pub old_status: String,
    pub new_status: String,
    pub reason: Option<String>,
}

/// One entry of the audit trail. Entries are written once and never
/// changed.
#[derive(Debug, Clone, PartialEq, Eq)]
pub struct AuditLogEntry {
    pub id: u128,
    pub entity_type: String,
    pub entity_id: u128,
    pub action_type: String,
    pub admin_id: u128,
    pub details: AuditDetails,
}

pub struct AuditDetailsView {
    pub old_status: Seq<char>,
    pub new_status: Seq<char>,
    pub reason: Option<Seq<char>>,
}

pub struct AuditLogEntryView {
    pub id: u128,
    pub entity_type: Seq<char>,
    pub entity_id: u128,
    pub action_type: Seq<char>,
    pub admin_id: u128,
    pub details: AuditDetailsView,
}

impl View for AuditDetails {
    type V = AuditDetailsView;

    open spec fn view(&self) -> AuditDetailsView {
        AuditDetailsView {
            old_status: self.old_status@,
            new_status: self.new_status@,
            reason: optional_text(self.reason),
        }
    }
}

impl View for AuditLogEntry {
    type V = AuditLogEntryView;

    open spec fn view(&self) -> AuditLogEntryView {
        AuditLogEntryView {
            id: self.id,
            entity_type: self.entity_type@,
            entity_id: self.entity_id,
            action_type: self.action_type@,
            admin_id: self.admin_id,
            details: self.details@,
        }
    }
}

/// The audit entry for a status change of vendor `vendor_id` by admin
/// `admin_id` that took the application from `old_status` to `new_status`.
pub open spec fn status_change_entry(
    id: u128,
    vendor_id: u128,
    admin_id: u128,
    old_status: VendorStatus,
    new_status: VendorStatus,
    reason: Option<Seq<char>>,
) -> AuditLogEntryView {
    AuditLogEntryView {
        id,
        entity_type: "vendor"@,
        entity_id: vendor_id,
        action_type: "status_change"@,
        admin_id,
        details: AuditDetailsView {
            old_status: old_status.label(),
            new_status: new_status.label(),
            reason,
        },
    }
}

impl AuditLogEntry {
    /// Builds the audit entry for a status change.
    pub fn status_change(
        id: u128,
        vendor_id: u128,
        admin_id: u128,
        old_status: &VendorStatus,
        new_status: &VendorStatus,
        reason: Option<&str>,
    ) -> (entry: AuditLogEntry)
        ensures
            entry@ == status_change_entry(
                id,
                vendor_id,
                admin_id,
                *old_status,
                *new_status,
                optional_str(reason),
            ),
    {
        AuditLogEntry {
            id,
            entity_type: String::from_str("vendor"),
            entity_id: vendor_id,
            action_type: String::from_str("status_change"),
            admin_id,
            details: AuditDetails {
                old_status: String::from_str(old_status.as_str()),
                new_status: String::from_str(new_status.as_str()),
                reason: match reason {
                    Some(r) => Some(String::from_str(r)),
                    None => None,
                },
            },
        }
    }
}

/// The applications on record, oldest first, and the audit trail.
#[derive(Debug)]
pub struct VendorStore {
    vendors: Vec<Vendor>,
    audit_log: Vec<AuditLogEntry>,
}

/// The mathematical value of a [`VendorStore`].
pub struct StoreContents {
    pub vendors: Seq<VendorView>,
    pub audit_log: Seq<AuditLogEntryView>,
}

/// Whether some application on record has the identifier.
pub open spec fn id_taken(vendors: Seq<VendorView>, id: u128) -> bool {
    exists|i: int| 0 <= i < vendors.len() && (#[trigger] vendors[i]).id == id
}

/// Whether some application on record has the phone number.
pub open spec fn phone_taken(vendors: Seq<VendorView>, phone: Seq<char>) -> bool {
    exists|i: int| 0 <= i < vendors.len() && (#[trigger] vendors[i]).phone == phone
}

/// The application with the identifier, if one is on record.
pub open spec fn vendor_with_id(vendors: Seq<VendorView>, id: u128) -> Option<VendorView> {
    if id_taken(vendors, id) {
        Some(vendors[choose|i: int| 0 <= i < vendors.len() && (#[trigger] vendors[i]).id == id])
    } else {
        None
    }
}

/// The applications come in the order of their creation, oldest first.
pub open spec fn oldest_first(vendors: Seq<VendorView>) -> bool {
    forall|i: int, j: int|
        #![trigger vendors[i], vendors[j]]
        0 <= i < j < vendors.len() ==> vendors[i].created_at <= vendors[j].created_at
}

/// The invariant of the applications on record: each is well formed, no
/// two share an identifier or a phone number, and they stand oldest first.
pub open spec fn vendors_well_formed(vendors: Seq<VendorView>) -> bool {
    &&& forall|i: int| 0 <= i < vendors.len() ==> (#[trigger] vendors[i]).well_formed()
    &&& forall|i: int, j: int|
        #![trigger vendors[i], vendors[j]]
        0 <= i < j < vendors.len() ==> vendors[i].id != vendors[j].id
    &&& forall|i: int, j: int|
        #![trigger vendors[i], vendors[j]]
        0 <= i < j < vendors.len() ==> vendors[i].phone != vendors[j].phone
    &&& oldest_first(vendors)
}

/// The applications that await a decision, in the order they are on record.
pub open spec fn pending(vendors: Seq<VendorView>) -> Seq<VendorView> {
    vendors.filter(|v: VendorView| v.status == VendorStatus::Pending)
}

/// Where the page starts in a listing: the number of entries on the pages
/// before it.
pub open spec fn page_start(page: i64, per_page: i64) -> int {
    (page - 1) * per_page
}

/// One page of a listing: the entries from `page_start` on, at most
/// `per_page` of them, and none where the listing ends before the page.
pub open spec fn page_of(listing: Seq<VendorView>, page: i64, per_page: i64) -> Seq<VendorView> {
    let start = page_start(page, per_page);
    if start >= listing.len() {
        Seq::empty()
    } else if start + per_page >= listing.len() {
        listing.subrange(start, listing.len() as int)
    } else {
        listing.subrange(start, start + per_page)
    }
}

/// Where a new application created at `now` goes, so that the order stays
/// oldest first: behind every application created at `now` or before.
pub open spec fn insertion_point(vendors: Seq<VendorView>, now: i64) -> int
    decreases vendors.len(),
{
    if vendors.len() == 0 {
        0
    } else if vendors[0].created_at <= now {
        1 + insertion_point(vendors.drop_first(), now)
    } else {
        0
    }
}

/// The record of a new application: pending, without a rejection reason,
/// created and last updated at `now`.
pub open spec fn new_vendor(id: u128, request: CreateVendorRequestView, now: i64) -> VendorView {
    VendorView {
        id,
        name: request.name,
        phone: request.phone,
        id_document_url: request.id_document_url,
        status: VendorStatus::Pending,
        rejection_reason: None,
        created_at: now,
        updated_at: now,
    }
}

/// The applications after a status change of the one with identifier `id`.
pub open spec fn changed_in(
    vendors: Seq<VendorView>,
    id: u128,
    decision: UpdateVendorStatusRequestView,
    now: i64,
) -> Seq<VendorView> {
    vendors.map_values(
        |v: VendorView|
            if v.id == id {
                v.with_decision(decision.status, decision.effective_reason(), now)
            } else {
                v
            },
    )
}

/// The error of the store for an application that would share its
/// identifier or phone number with one on record.
pub open spec fn duplicate_vendor() -> AppErrorView {
    AppErrorView::Database("duplicate key value violates unique constraint"@)
}

/// The applications taken by their views.
pub open spec fn vendor_views(vendors: Seq<Vendor>) -> Seq<VendorView> {
    vendors.map_values(|v: Vendor| v@)
}

/// The audit entries taken by their views.
pub open spec fn entry_views(entries: Seq<AuditLogEntry>) -> Seq<AuditLogEntryView> {
    entries.map_values(|e: AuditLogEntry| e@)
}

/// Where identifiers are unique, the application found by an identifier is
/// the one at any position that holds that identifier.
pub proof fn lemma_vendor_with_id(vendors: Seq<VendorView>, id: u128, i: int)
    requires
        vendors_well_formed(vendors),
        0 <= i < vendors.len(),
        vendors[i].id == id,
    ensures
        vendor_with_id(vendors, id) == Some(vendors[i]),
{
    let k = choose|k: int| 0 <= k < vendors.len() && (#[trigger] vendors[k]).id == id;
    if k < i {
        assert(vendors[k].id != vendors[i].id);
    } else if i < k {
        assert(vendors[i].id != vendors[k].id);
    }
}

/// One more application on record adds itself to those awaiting a decision
/// if it is pending, and nothing otherwise.
pub proof fn lemma_pending_step(vendors: Seq<VendorView>, i: int)
    requires
        0 <= i < vendors.len(),
    ensures
        pending(vendors.take(i + 1)) == if vendors[i].status == VendorStatus::Pending {
            pending(vendors.take(i)).push(vendors[i])
        } else {
            pending(vendors.take(i))
        },
{
    reveal(Seq::filter);
    assert(vendors.take(i + 1).drop_last() =~= vendors.take(i));
}

/// Those awaiting a decision are pending applications on record, and they
/// keep the order of the record: oldest first.
pub proof fn lemma_pending_listing(vendors: Seq<VendorView>)
    requires
        oldest_first(vendors),
    ensures
        oldest_first(pending(vendors)),
        forall|k: int|
            0 <= k < pending(vendors).len() ==> (#[trigger] pending(vendors)[k]).status
                == VendorStatus::Pending && vendors.contains(pending(vendors)[k]),
        pending(vendors).len() <= vendors.len(),
    decreases vendors.len(),
{
    reveal(Seq::filter);
    if vendors.len() > 0 {
        let shorter = vendors.drop_last();
        assert forall|i: int, j: int| 0 <= i < j < shorter.len() implies (
        #[trigger] shorter[i]).created_at <= (#[trigger] shorter[j]).created_at by {
            assert(shorter[i] == vendors[i] && shorter[j] == vendors[j]);
        }
        lemma_pending_listing(shorter);
        let rest = pending(shorter);
        let all = pending(vendors);
        assert forall|k: int| 0 <= k < all.len() implies (#[trigger] all[k]).status
            == VendorStatus::Pending && vendors.contains(all[k]) by {
            if k < rest.len() {
                let at = choose|at: int| 0 <= at < shorter.len() && shorter[at] == rest[k];
                assert(vendors[at] == all[k]);
            } else {
                assert(vendors[vendors.len() - 1] == all[k]);
            }
        }
        assert forall|i: int, j: int| 0 <= i < j < all.len() implies (#[trigger] all[i]).created_at
            <= (#[trigger] all[j]).created_at by {
            if j < rest.len() {
                assert(all[i] == rest[i] && all[j] == rest[j]);
            } else {
                let at = choose|at: int| 0 <= at < shorter.len() && shorter[at] == rest[i];
                assert(vendors[at] == all[i]);
                assert(all[j] == vendors[vendors.len() - 1]);
            }
        }
    }
}

/// A page holds at most `per_page` entries, all of them from the listing
/// and in its order.
pub proof fn lemma_page_of(listing: Seq<VendorView>, page: i64, per_page: i64)
    requires
        page >= 1,
        per_page >= 1,
    ensures
        page_of(listing, page, per_page).len() <= per_page,
        page_of(listing, page, per_page).len() <= listing.len(),
        forall|k: int|
            0 <= k < page_of(listing, page, per_page).len() ==> #[trigger] page_of(
                listing,
                page,
                per_page,
            )[k] == listing[page_start(page, per_page) + k],
        oldest_first(listing) ==> oldest_first(page_of(listing, page, per_page)),
{
    assert(page_start(page, per_page) >= 0) by (nonlinear_arith)
        requires
            page >= 1,
            per_page >= 1,
    ;
}

impl View for VendorStore {
    type V = StoreContents;

    closed spec fn view(&self) -> StoreContents {
        StoreContents {
            vendors: vendor_views(self.vendors@),
            audit_log: entry_views(self.audit_log@),
        }
    }
}

impl VendorStore {
    #[verifier::type_invariant]
    spec fn well_formed(self) -> bool {
        vendors_well_formed(self@.vendors)
    }

    /// A store without applications and with an empty audit trail.
    pub fn new() -> (store: VendorStore)
        ensures
            store@.vendors == Seq::<VendorView>::empty(),
            store@.audit_log == Seq::<AuditLogEntryView>::empty(),
    {
        let store = VendorStore { vendors: Vec::new(), audit_log: Vec::new() };
        store
    }

    /// The number of applications on record.
    pub fn len(&self) -> (count: usize)
        ensures
            count == self@.vendors.len(),
            vendors_well_formed(self@.vendors),
    {
        proof {
            use_type_invariant(self);
        }
        self.vendors.len()
    }

    /// The audit trail, oldest entry first.
    pub fn audit_log(&self) -> (entries: &Vec<AuditLogEntry>)
        ensures
            entry_views(entries@) == self@.audit_log,
    {
        &self.audit_log
    }

    fn position_by_id(&self, id: u128) -> (position: Option<usize>)
        ensures
            match position {
                Some(i) => i < self.vendors@.len() && self.vendors@[i as int].id == id,
                None => !id_taken(self@.vendors, id),
            },
    {
        let mut i: usize = 0;
        while i < self.vendors.len()
            invariant
                i <= self.vendors.len(),
                forall|j: int| 0 <= j < i ==> (#[trigger] self@.vendors[j]).id != id,
            decreases self.vendors.len() - i,
        {
            if self.vendors[i].id == id {
                return Some(i);
            }
            i = i + 1;
        }
        None
    }

    fn has_phone(&self, phone: &str) -> (taken: bool)
        ensures
            taken == phone_taken(self@.vendors, phone@),
    {
        let mut i: usize = 0;
        while i < self.vendors.len()
            invariant
                i <= self.vendors.len(),
                forall|j: int| 0 <= j < i ==> (#[trigger] self@.vendors[j]).phone != phone@,
            decreases self.vendors.len() - i,
        {
            assert(self@.vendors[i as int] == self.vendors@[i as int]@);
            if str_equal(self.vendors[i].phone.as_str(), phone) {
                return true;
            }
            i = i + 1;
        }
        false
    }
}

/// The error of the store for a page that does not exist: pages and page
/// sizes count from one.
pub open spec fn invalid_page() -> AppErrorView {
    AppErrorView::Database("OFFSET and LIMIT must not be negative"@)
}

/// Puts a new application on record under the identifier `id`, created at
/// `now`: pending, and placed so that the record stays oldest first.
///
/// Fails, and changes nothing, where an application with that identifier
/// or that phone number is on record already.
pub fn create_vendor(
    pool: &mut VendorStore,
    id: u128,
    vendor_data: &CreateVendorRequest,
    now: i64,
) -> (created: Result<Vendor, AppError>)
    ensures
        final(pool)@.audit_log == old(pool)@.audit_log,
        match created {
            Ok(vendor) => {
                &&& !id_taken(old(pool)@.vendors, id)
                &&& !phone_taken(old(pool)@.vendors, vendor_data@.phone)
                &&& vendor@ == new_vendor(id, vendor_data@, now)
                &&& final(pool)@.vendors == old(pool)@.vendors.insert(
                    insertion_point(old(pool)@.vendors, now),
                    vendor@,
                )
            },
            Err(e) => {
                &&& id_taken(old(pool)@.vendors, id) || phone_taken(
                    old(pool)@.vendors,
                    vendor_data@.phone,
                )
                &&& e@ == duplicate_vendor()
                &&& final(pool)@.vendors == old(pool)@.vendors
            },
        },
{
    proof {
        use_type_invariant(&*pool);
    }
    let ghost before = pool@.vendors;
    match pool.position_by_id(id) {
        Some(i) => {
            assert(before[i as int] == pool.vendors@[i as int]@);
            return Err(
                AppError::Database(
                    String::from_str("duplicate key value violates unique constraint"),
                ),
            );
        },
        None => {},
    }
    if pool.has_phone(vendor_data.phone.as_str()) {
        return Err(
            AppError::Database(
                String::from_str("duplicate key value violates unique constraint"),
            ),
        );
    }
    let n: usize = pool.vendors.len();
    let mut at: usize = 0;
    assert(before.skip(0) =~= before);
    while at < n && pool.vendors[at].created_at <= now
        invariant
            at <= n,
            n == pool.vendors@.len(),
            before == vendor_views(pool.vendors@),
            forall|j: int| 0 <= j < at ==> (#[trigger] before[j]).created_at <= now,
            insertion_point(before, now) == at + insertion_point(before.skip(at as int), now),
        decreases n - at,
    {
        let ghost rest = before.skip(at as int);
        assert(rest.drop_first() =~= before.skip(at + 1));
        at = at + 1;
    }
    proof {
        if at < n {
            assert(before.skip(at as int)[0] == before[at as int]);
        } else {
            assert(before.skip(at as int).len() == 0);
        }
    }
    let vendor = Vendor {
        id,
        name: vendor_data.name.clone(),
        phone: vendor_data.phone.clone(),
        id_document_url: vendor_data.id_document_url.clone(),
        status: VendorStatus::Pending,
        rejection_reason: None,
        created_at: now,
        updated_at: now,
    };
    let copy = vendor.duplicate();
    let mut vendors: Vec<Vendor> = Vec::new();
    std::mem::swap(&mut vendors, &mut pool.vendors);
    vendors.insert(at, vendor);
    proof {
        let after = vendor_views(vendors@);
        assert(after =~= before.insert(at as int, copy@));
        assert forall|k: int| 0 <= k < before.len() implies (#[trigger] before[k]).id != id
            && before[k].phone != vendor_data@.phone by {}
        assert forall|k: int| at <= k < before.len() implies (#[trigger] before[k]).created_at
            > now by {
            if k > at {
                assert(before[at as int].created_at <= before[k].created_at);
            }
        }
        assert forall|i: int, j: int| 0 <= i < j < after.len() implies (#[trigger] after[i]).id
            != (#[trigger] after[j]).id && after[i].phone != after[j].phone && after[i].created_at
            <= after[j].created_at by {
            let oi = if i < at { i } else { i - 1 };
            let oj = if j < at { j } else { j - 1 };
            if i != at {
                assert(after[i] == before[oi]);
            }
            if j != at {
                assert(after[j] == before[oj]);
            }
            if i != at && j != at {
                assert(before[oi].id != before[oj].id);
                assert(before[oi].phone != before[oj].phone);
                assert(before[oi].created_at <= before[oj].created_at);
            }
        }
        assert forall|k: int| 0 <= k < after.len() implies (#[trigger] after[k]).well_formed() by {
            if k != at {
                let ok = if k < at { k } else { k - 1 };
                assert(after[k] == before[ok]);
            }
        }
    }
    pool.vendors = vendors;
    Ok(copy)
}

/// Lists one page of the applications that await a decision, oldest first,
/// with the count of all that await a decision.
///
/// Fails where `page` or `per_page` is below one.
pub fn get_pending_vendors(
    pool: &VendorStore,
    page: i64,
    per_page: i64,
) -> (listing: Result<(Vec<Vendor>, usize), AppError>)
    ensures
        vendors_well_formed(pool@.vendors),
        match listing {
            Ok((vendors, total)) => {
                &&& page >= 1 && per_page >= 1
                &&& vendor_views(vendors@) == page_of(pending(pool@.vendors), page, per_page)
                &&& total == pending(pool@.vendors).len()
            },
            Err(e) => (page < 1 || per_page < 1) && e@ == invalid_page(),
        },
{
    proof {
        use_type_invariant(pool);
    }
    if page < 1 || per_page < 1 {
        return Err(AppError::Database(String::from_str("OFFSET and LIMIT must not be negative")));
    }
    assert(0 <= (page - 1) * per_page <= 0x7fff_ffff_ffff_ffff * 0x7fff_ffff_ffff_ffff)
        by (nonlinear_arith)
        requires
            1 <= page <= 0x7fff_ffff_ffff_ffff,
            1 <= per_page <= 0x7fff_ffff_ffff_ffff,
    ;
    let start: u128 = ((page - 1) as u128) * (per_page as u128);
    let size: u128 = per_page as u128;
    let ghost all = pool@.vendors;
    let mut found: Vec<Vendor> = Vec::new();
    let mut seen: usize = 0;
    let mut i: usize = 0;
    proof {
        reveal(Seq::filter);
        assert(all.take(0) =~= Seq::<VendorView>::empty());
    }
    while i < pool.vendors.len()
        invariant
            i <= pool.vendors.len(),
            all == vendor_views(pool.vendors@),
            page >= 1,
            per_page >= 1,
            start == page_start(page, per_page),
            size == per_page,
            seen == pending(all.take(i as int)).len(),
            seen <= i,
            vendor_views(found@) == page_of(pending(all.take(i as int)), page, per_page),
        decreases pool.vendors.len() - i,
    {
        proof {
            lemma_pending_step(all, i as int);
        }
        if pool.vendors[i].status == VendorStatus::Pending {
            let ghost listed = pending(all.take(i as int));
            let ghost shown = vendor_views(found@);
            if seen as u128 >= start && (seen as u128) - start < size {
                found.push(pool.vendors[i].duplicate());
                proof {
                    assert(shown.push(all[i as int]) =~= page_of(
                        listed.push(all[i as int]),
                        page,
                        per_page,
                    ));
                }
            } else {
                proof {
                    assert(shown =~= page_of(listed.push(all[i as int]), page, per_page));
                }
            }
            seen = seen + 1;
        }
        i = i + 1;
    }
    proof {
        assert(all.take(i as int) =~= all);
    }
    Ok((found, seen))
}

/// Looks an application up by its identifier.
pub fn get_vendor_by_id(pool: &VendorStore, id: u128) -> (found: Option<Vendor>)
    ensures
        match found {
            Some(vendor) => vendor_with_id(pool@.vendors, id) == Some(vendor@),
            None => vendor_with_id(pool@.vendors, id) is None,
        },
{
    proof {
        use_type_invariant(pool);
    }
    match pool.position_by_id(id) {
        Some(i) => {
            proof {
                lemma_vendor_with_id(pool@.vendors, id, i as int);
            }
            Some(pool.vendors[i].duplicate())
        },
        None => None,
    }
}

/// The error for a rejection without a reason.
pub open spec fn reason_required() -> AppErrorView {
    AppErrorView::Validation("rejection_reason_required"@)
}

/// Records a decision on the application with identifier `id`: its status,
/// the reason that goes with it, and `now` as the time of the last update.
/// Hands back the application as it then stands, or nothing where no
/// application has the identifier. An application may be decided on again,
/// whatever its status.
///
/// A rejection without a reason is refused, and nothing is written.
pub fn update_vendor_status(
    pool: &mut VendorStore,
    id: u128,
    status_update: &UpdateVendorStatusRequest,
    now: i64,
) -> (updated: Result<Option<Vendor>, AppError>)
    ensures
        final(pool)@.audit_log == old(pool)@.audit_log,
        match updated {
            Ok(found) => {
                &&& status_update@.reason_given()
                &&& final(pool)@.vendors == changed_in(old(pool)@.vendors, id, status_update@, now)
                &&& match found {
                    Some(vendor) => {
                        &&& vendor_with_id(old(pool)@.vendors, id) matches Some(previous)
                        &&& vendor@ == previous.with_decision(
                            status_update@.status,
                            status_update@.effective_reason(),
                            now,
                        )
                    },
                    None => vendor_with_id(old(pool)@.vendors, id) is None,
                }
            },
            Err(e) => {
                &&& !status_update@.reason_given()
                &&& e@ == reason_required()
                &&& final(pool)@.vendors == old(pool)@.vendors
            },
        },
{
    proof {
        use_type_invariant(&*pool);
    }
    if status_update.status == VendorStatus::Rejected && status_update.rejection_reason.is_none() {
        return Err(AppError::Validation(String::from_str("rejection_reason_required")));
    }
    let ghost before = pool@.vendors;
    let at: usize = match pool.position_by_id(id) {
        Some(at) => at,
        None => {
            proof {
                assert forall|k: int| 0 <= k < before.len() implies (#[trigger] before[k]).id
                    != id by {}
            }
            return Ok(None);
        },
    };
    proof {
        lemma_vendor_with_id(before, id, at as int);
    }
    let previous = &pool.vendors[at];
    let vendor = Vendor {
        id: previous.id,
        name: previous.name.clone(),
        phone: previous.phone.clone(),
        id_document_url: previous.id_document_url.clone(),
        status: status_update.status,
        rejection_reason: status_update.effective_reason(),
        created_at: previous.created_at,
        updated_at: now,
    };
    let copy = vendor.duplicate();
    let mut vendors: Vec<Vendor> = Vec::new();
    std::mem::swap(&mut vendors, &mut pool.vendors);
    vendors.set(at, vendor);
    proof {
        let after = vendor_views(vendors@);
        assert forall|k: int| 0 <= k < before.len() && k != at implies (#[trigger] before[k]).id
            != id by {
            if k < at {
                assert(before[k].id != before[at as int].id);
            } else {
                assert(before[at as int].id != before[k].id);
            }
        }
        assert forall|i: int, j: int| 0 <= i < j < after.len() implies (#[trigger] after[i]).id
            != (#[trigger] after[j]).id && after[i].phone != after[j].phone && after[i].created_at
            <= after[j].created_at by {
            assert(before[i].id != before[j].id);
            assert(before[i].phone != before[j].phone);
            assert(before[i].created_at <= before[j].created_at);
        }
        assert forall|k: int| 0 <= k < after.len() implies (#[trigger] after[k]).well_formed() by {
            assert(before[k].well_formed());
        }
    }
    pool.vendors = vendors;
    Ok(Some(copy))
}

/// Appends an entry to the audit trail.
pub fn append_audit_entry(pool: &mut VendorStore, entry: AuditLogEntry)
    ensures
        final(pool)@.vendors == old(pool)@.vendors,
        final(pool)@.audit_log == old(pool)@.audit_log.push(entry@),
{
    proof {
        use_type_invariant(&*pool);
    }
    let ghost before = pool@.audit_log;
    let ghost added = entry@;
    let mut entries: Vec<AuditLogEntry> = Vec::new();
    std::mem::swap(&mut entries, &mut pool.audit_log);
    entries.push(entry);
    proof {
        assert(entry_views(entries@) =~= before.push(added));
    }
    pool.audit_log = entries;
}

/// Appends to the audit trail the entry for a status change of vendor
/// `vendor_id` by admin `admin_id`, under the identifier `entry_id`.
pub fn log_vendor_status_change(
    pool: &mut VendorStore,
    entry_id: u128,
    vendor_id: u128,
    admin_id: u128,
    old_status: &VendorStatus,
    new_status: &VendorStatus,
    reason: Option<&str>,
)
    ensures
        final(pool)@.vendors == old(pool)@.vendors,
        final(pool)@.audit_log == old(pool)@.audit_log.push(
            status_change_entry(
                entry_id,
                vendor_id,
                admin_id,
                *old_status,
                *new_status,
                optional_str(reason),
            ),
        ),
{
    let entry = AuditLogEntry::status_change(
        entry_id,
        vendor_id,
        admin_id,
        old_status,
        new_status,
        reason,
    );
    append_audit_entry(pool, entry)
}

} // verus!
