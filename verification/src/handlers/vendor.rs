//! Decisions on vendor applications: listing those that await a decision,
//! showing one, and recording a decision together with its audit entry.

use crate::db::vendor::{
    append_audit_entry, changed_in, get_pending_vendors as list_pending,
    get_vendor_by_id as find_vendor, lemma_page_of, lemma_pending_listing, oldest_first, page_of,
    page_start, pending, reason_required, status_change_entry,
    update_vendor_status as write_status, vendor_views, vendor_with_id, vendors_well_formed,
    StoreContents, VendorStore,
};
use crate::error::{AppError, AppErrorView};
use crate::handlers::workflow::{
    ChangeAction, ChangeActionView, ChangeEvent, ChangeStateView, StatusChange, StatusChangeView,
};
use crate::ids::{uuid_text, uuid_to_string};
use crate::middleware::auth::AuthenticatedAdmin;
use crate::models::vendor::{
    response_views, PaginatedVendorResponse, PaginatedVendorView, UpdateVendorStatusRequest,
    UpdateVendorStatusRequestView, Vendor, VendorResponse, VendorStatus, VendorView,
};
use crate::reply::{Reply, OK};
use vstd::prelude::*;
use vstd::string::*;

verus! {

/// The page of a listing that a request asks for.
#[derive(Debug, Clone, Copy, PartialEq, Eq)]
pub struct PaginationParams {
    pub page: Option<i64>,
    pub per_page: Option<i64>,
}

/// The page shown where a request names none.
pub const DEFAULT_PAGE: i64 = 1;

/// The page size used where a request names none.
pub const DEFAULT_PER_PAGE: i64 = 10;

/// The largest page size a request may ask for.
pub const MAX_PER_PAGE: i64 = 100;

impl PaginationParams {
    /// The page asked for, the first where none is named.
    pub open spec fn page_or_default(self) -> i64 {
        match self.page {
            Some(page) => page,
            None => DEFAULT_PAGE,
        }
    }

    /// The page size asked for, ten where none is named.
    pub open spec fn per_page_or_default(self) -> i64 {
        match self.per_page {
            Some(per_page) => per_page,
            None => DEFAULT_PER_PAGE,
        }
    }

    /// Pages count from one, and a page has 1 to 100 entries.
    pub open spec fn valid(self) -> bool {
        self.page_or_default() >= 1 && 1 <= self.per_page_or_default() <= MAX_PER_PAGE
    }

    /// The page and the page size asked for, with the defaults filled in.
    ///
    /// Fails with a validation error where they are out of range.
    pub fn resolve(&self) -> (resolved: Result<(i64, i64), AppError>)
        ensures
            match resolved {
                Ok((page, per_page)) => self.valid() && page == self.page_or_default() && per_page
                    == self.per_page_or_default(),
                Err(e) => !self.valid() && e@ == invalid_pagination(),
            },
    {
        let page: i64 = match self.page {
            Some(page) => page,
            None => DEFAULT_PAGE,
        };
        let per_page: i64 = match self.per_page {
            Some(per_page) => per_page,
            None => DEFAULT_PER_PAGE,
        };
        if page < 1 || per_page < 1 || per_page > MAX_PER_PAGE {
            return Err(AppError::Validation(String::from_str("Invalid pagination parameters")));
        }
        Ok((page, per_page))
    }
}

/// The error for a page or a page size out of range.
pub open spec fn invalid_pagination() -> AppErrorView {
    AppErrorView::Validation("Invalid pagination parameters"@)
}

/// The error for a vendor that is not on record.
pub open spec fn vendor_not_found(vendor_id: u128) -> AppErrorView {
    AppErrorView::NotFound("Vendor with ID "@ + uuid_text(vendor_id) + " not found"@)
}

/// A count as the 64-bit signed number a response carries: itself as long
/// as it fits.
pub open spec fn count_as_i64(count: nat) -> i64 {
    if count <= i64::MAX {
        count as i64
    } else {
        i64::MAX
    }
}

/// The number of entries on the pages before `page`, as far as it fits a
/// 64-bit signed number.
pub fn page_offset(page: i64, per_page: i64) -> (offset: Option<i64>)
    ensures
        match offset {
            Some(o) => o == (page - 1) * per_page,
            None => !(i64::MIN <= (page - 1) * per_page <= i64::MAX),
        },
{
    let before: i128 = page as i128 - 1;
    let size: i128 = per_page as i128;
    assert(-0x8000_0000_0000_0001 * 0x8000_0000_0000_0001 <= before * size
        <= 0x8000_0000_0000_0001 * 0x8000_0000_0000_0001) by (nonlinear_arith)
        requires
            -0x8000_0000_0000_0001 <= before <= 0x8000_0000_0000_0001,
            -0x8000_0000_0000_0001 <= size <= 0x8000_0000_0000_0001,
    ;
    let wide: i128 = before * size;
    if wide < -0x8000_0000_0000_0000 || wide > 0x7fff_ffff_ffff_ffff {
        None
    } else {
        Some(wide as i64)
    }
}

/// Puts one page of vendors into the shape of a response.
pub fn paginated(
    vendors: &Vec<Vendor>,
    total: i64,
    page: i64,
    per_page: i64,
) -> (response: PaginatedVendorResponse)
    ensures
        response@ == (PaginatedVendorView {
            vendors: vendor_views(vendors@),
            total,
            page,
            per_page,
        }),
{
    let mut shown: Vec<VendorResponse> = Vec::new();
    let mut i: usize = 0;
    while i < vendors.len()
        invariant
            i <= vendors.len(),
            shown@.len() == i,
            forall|k: int| 0 <= k < i ==> (#[trigger] shown@[k])@ == vendors@[k]@,
        decreases vendors.len() - i,
    {
        shown.push(vendors[i].to_response());
        i = i + 1;
    }
    proof {
        assert(response_views(shown@) =~= vendor_views(vendors@));
    }
    PaginatedVendorResponse { vendors: shown, total, page, per_page }
}

/// The vendor that a lookup found, or the error for one that it did not
/// find.
pub fn require_vendor(found: Option<Vendor>, vendor_id: u128) -> (vendor: Result<Vendor, AppError>)
    ensures
        match found {
            Some(v) => vendor == Ok::<Vendor, AppError>(v),
            None => vendor matches Err(e) && e@ == vendor_not_found(vendor_id),
        },
{
    match found {
        Some(vendor) => Ok(vendor),
        None => {
            let message = String::from_str("Vendor with ID ").concat(
                uuid_to_string(vendor_id).as_str(),
            ).concat(" not found");
            Err(AppError::NotFound(message))
        },
    }
}

/// Checks a decision before anything is looked up or written: a
/// rejection must give its reason.
pub fn check_status_update(
    status_update: &UpdateVendorStatusRequest,
) -> (checked: Result<(), AppError>)
    ensures
        match checked {
            Ok(_) => status_update@.reason_given(),
            Err(e) => !status_update@.reason_given() && e@ == reason_required(),
        },
{
    match status_update.validate() {
        Ok(_) => Ok(()),
        Err(_) => Err(AppError::Validation(String::from_str("rejection_reason_required"))),
    }
}

/// Lists one page of the applications that await a decision, oldest first,
/// with the count of all that await a decision. Open to authenticated admins
/// only.
pub fn get_pending_vendors(
    db_pool: &VendorStore,
    query: &PaginationParams,
    _auth_admin: &AuthenticatedAdmin,
) -> (outcome: Result<Reply<PaginatedVendorResponse>, AppError>)
    ensures
        match outcome {
            Ok(reply) => {
                &&& query.valid()
                &&& vendors_well_formed(db_pool@.vendors)
                &&& reply.status == OK
                &&& reply.body@ == (PaginatedVendorView {
                    vendors: page_of(
                        pending(db_pool@.vendors),
                        query.page_or_default(),
                        query.per_page_or_default(),
                    ),
                    total: count_as_i64(pending(db_pool@.vendors).len()),
                    page: query.page_or_default(),
                    per_page: query.per_page_or_default(),
                })
            },
            Err(e) => !query.valid() && e@ == invalid_pagination(),
        },
{
    let (page, per_page) = match query.resolve() {
        Ok(resolved) => resolved,
        Err(e) => {
            return Err(e);
        },
    };
    match list_pending(db_pool, page, per_page) {
        Ok((vendors, count)) => {
            let total: i64 = if count as u64 <= 0x7fff_ffff_ffff_ffff {
                count as i64
            } else {
                i64::MAX
            };
            Ok(Reply { status: OK, body: paginated(&vendors, total, page, per_page) })
        },
        Err(e) => Err(e),
    }
}

/// Shows the application with the given identifier. Open to authenticated
/// admins only.
pub fn get_vendor_by_id(
    db_pool: &VendorStore,
    vendor_id: u128,
    _auth_admin: &AuthenticatedAdmin,
) -> (outcome: Result<Reply<VendorResponse>, AppError>)
    ensures
        match outcome {
            Ok(reply) => reply.status == OK && vendor_with_id(db_pool@.vendors, vendor_id) == Some(
                reply.body@,
            ),
            Err(e) => vendor_with_id(db_pool@.vendors, vendor_id) is None && e@ == vendor_not_found(
                vendor_id,
            ),
        },
{
    match require_vendor(find_vendor(db_pool, vendor_id), vendor_id) {
        Ok(vendor) => Ok(Reply { status: OK, body: vendor.to_response() }),
        Err(e) => Err(e),
    }
}

/// What a status change does to the store and what it answers: a rejection
/// without a reason is refused before anything else is looked at; a
/// decision on an unknown vendor is refused; otherwise the decision is
/// written to the application and exactly one entry, which records the
/// status before and after, the deciding admin and the reason, is added
/// to the end of the audit trail.
pub open spec fn status_change(
    store: StoreContents,
    vendor_id: u128,
    decision: UpdateVendorStatusRequestView,
    admin_id: u128,
    now: i64,
    audit_id: u128,
) -> Result<(StoreContents, VendorView), AppErrorView> {
    if !decision.reason_given() {
        Err(reason_required())
    } else {
        match vendor_with_id(store.vendors, vendor_id) {
            None => Err(vendor_not_found(vendor_id)),
            Some(previous) => Ok(
                (
                    StoreContents {
                        vendors: changed_in(store.vendors, vendor_id, decision, now),
                        audit_log: store.audit_log.push(
                            status_change_entry(
                                audit_id,
                                vendor_id,
                                admin_id,
                                previous.status,
                                decision.status,
                                decision.effective_reason(),
                            ),
                        ),
                    },
                    previous.with_decision(decision.status, decision.effective_reason(), now),
                ),
            ),
        }
    }
}

/// How many steps a status change in this state has before it: the measure by
/// which a status change comes to its end.
pub open spec fn steps_left(state: ChangeStateView) -> nat {
    match state {
        ChangeStateView::Start => 4,
        ChangeStateView::Fetching => 3,
        ChangeStateView::Writing { .. } => 2,
        ChangeStateView::Logging { .. } => 1,
        ChangeStateView::Done => 0,
    }
}

/// What holds between the steps of a status change that runs on a store:
/// where the status change stands and what it asks for next agree with what
/// has been written so far, and once it is over the store and the answer
/// are those of [`status_change`].
pub open spec fn change_on_course(
    progress: StatusChangeView,
    action: ChangeActionView,
    before: StoreContents,
    current: StoreContents,
) -> bool {
    let decision = progress.status_update;
    let outcome = status_change(
        before,
        progress.vendor_id,
        decision,
        progress.admin_id,
        progress.now,
        progress.audit_id,
    );
    match progress.state {
        ChangeStateView::Start => false,
        ChangeStateView::Fetching => {
            &&& decision.reason_given()
            &&& current == before
            &&& action == (ChangeActionView::Fetch { vendor_id: progress.vendor_id })
        },
        ChangeStateView::Writing { old_status } => {
            &&& decision.reason_given()
            &&& current == before
            &&& vendor_with_id(before.vendors, progress.vendor_id) matches Some(previous)
            &&& previous.status == old_status
            &&& action == (ChangeActionView::Write {
                vendor_id: progress.vendor_id,
                status: decision.status,
                rejection_reason: decision.effective_reason(),
                now: progress.now,
            })
        },
        ChangeStateView::Logging { updated } => {
            &&& outcome matches Ok((after, shown))
            &&& shown == updated
            &&& current.vendors == after.vendors
            &&& current.audit_log == before.audit_log
            &&& action matches ChangeActionView::Log { entry }
            &&& after.audit_log == before.audit_log.push(entry)
        },
        ChangeStateView::Done => match action {
            ChangeActionView::Respond { status, body } => status == OK && outcome == Ok::<
                (StoreContents, VendorView),
                AppErrorView,
            >((current, body)),
            ChangeActionView::Fail(e) => current == before && outcome == Err::<
                (StoreContents, VendorView),
                AppErrorView,
            >(e),
            _ => false,
        },
    }
}

/// Records a decision on an application, made by the
/// authenticated admin at `now`, and adds the audit entry for it under the
/// identifier `audit_id`. An application may be decided on again, whatever
/// its status: each decision is written and each gets its audit entry.
///
/// The status change is taken step by step, as [`StatusChange`] decides,
/// with the store doing what each step asks for. Where the status change is
/// refused, nothing is written.
pub fn update_vendor_status(
    db_pool: &mut VendorStore,
    vendor_id: u128,
    status_update: &UpdateVendorStatusRequest,
    auth_admin: &AuthenticatedAdmin,
    now: i64,
    audit_id: u128,
) -> (outcome: Result<Reply<VendorResponse>, AppError>)
    ensures
        match outcome {
            Ok(reply) => reply.status == OK && status_change(
                old(db_pool)@,
                vendor_id,
                status_update@,
                auth_admin.admin_id,
                now,
                audit_id,
            ) == Ok::<(StoreContents, VendorView), AppErrorView>((final(db_pool)@, reply.body@)),
            Err(e) => final(db_pool)@ == old(db_pool)@ && status_change(
                old(db_pool)@,
                vendor_id,
                status_update@,
                auth_admin.admin_id,
                now,
                audit_id,
            ) == Err::<(StoreContents, VendorView), AppErrorView>(e@),
        },
{
    let ghost before = db_pool@;
    let mut progress = StatusChange::new(
        vendor_id,
        status_update.duplicate(),
        auth_admin.admin_id,
        now,
        audit_id,
    );
    let mut action = progress.step(ChangeEvent::Begin);
    loop
        invariant
            before == old(db_pool)@,
            progress@.vendor_id == vendor_id,
            progress@.status_update == status_update@,
            progress@.admin_id == auth_admin.admin_id,
            progress@.now == now,
            progress@.audit_id == audit_id,
            change_on_course(progress@, action@, before, db_pool@),
        decreases steps_left(progress@.state),
    {
        let event = match action {
            ChangeAction::Respond(reply) => {
                return Ok(reply);
            },
            ChangeAction::Fail(e) => {
                return Err(e);
            },
            ChangeAction::Fetch { vendor_id } => ChangeEvent::Fetched(
                find_vendor(db_pool, vendor_id),
            ),
            ChangeAction::Write { vendor_id, status, rejection_reason, now } => {
                let decision = UpdateVendorStatusRequest { status, rejection_reason };
                proof {
                    assert(changed_in(before.vendors, vendor_id, decision@, now) =~= changed_in(
                        before.vendors,
                        vendor_id,
                        status_update@,
                        now,
                    ));
                }
                match write_status(db_pool, vendor_id, &decision, now) {
                    Ok(written) => ChangeEvent::Written(written),
                    Err(e) => {
                        return Err(e);
                    },
                }
            },
            ChangeAction::Log { entry } => {
                append_audit_entry(db_pool, entry);
                ChangeEvent::Logged
            },
        };
        action = progress.step(event);
    }
}

/// A rejection without a reason is refused with the same validation error
/// whatever the store holds, also where it holds no such vendor.
pub proof fn lemma_rejection_needs_reason(
    store: StoreContents,
    vendor_id: u128,
    admin_id: u128,
    now: i64,
    audit_id: u128,
)
    ensures
        status_change(
            store,
            vendor_id,
            UpdateVendorStatusRequestView {
                status: VendorStatus::Rejected,
                rejection_reason: None,
            },
            admin_id,
            now,
            audit_id,
        ) == Err::<(StoreContents, VendorView), AppErrorView>(reason_required()),
{
}

/// A rejection with a reason, of a vendor on record, succeeds: the vendor
/// is then rejected with that reason on record, and the audit trail is the
/// one before with exactly one entry more, which records the status
/// before, the status `rejected`, the admin and the reason.
pub proof fn lemma_rejection_recorded(
    store: StoreContents,
    vendor: VendorView,
    reason: Seq<char>,
    admin_id: u128,
    now: i64,
    audit_id: u128,
)
    requires
        vendor_with_id(store.vendors, vendor.id) == Some(vendor),
    ensures
        status_change(
            store,
            vendor.id,
            UpdateVendorStatusRequestView {
                status: VendorStatus::Rejected,
                rejection_reason: Some(reason),
            },
            admin_id,
            now,
            audit_id,
        ) matches Ok((after, shown)) && {
            &&& shown.status == VendorStatus::Rejected
            &&& shown.rejection_reason == Some(reason)
            &&& shown.id == vendor.id
            &&& after.audit_log.len() == store.audit_log.len() + 1
            &&& after.audit_log.drop_last() == store.audit_log
            &&& after.audit_log.last().details.old_status == vendor.status.label()
            &&& after.audit_log.last().details.new_status == "rejected"@
            &&& after.audit_log.last().details.reason == Some(reason)
            &&& after.audit_log.last().admin_id == admin_id
            &&& after.audit_log.last().entity_id == vendor.id
        },
{
}

/// A page of the applications that await a decision never has more entries
/// than the page size, while the count that goes with it is that of all
/// applications awaiting a decision, however many pages they fill. The
/// entries are pending applications in the order of their creation.
pub proof fn lemma_pending_page(vendors: Seq<VendorView>, page: i64, per_page: i64)
    requires
        vendors_well_formed(vendors),
        page >= 1,
        per_page >= 1,
    ensures
        page_of(pending(vendors), page, per_page).len() <= per_page,
        page_of(pending(vendors), page, per_page).len() <= pending(vendors).len(),
        oldest_first(page_of(pending(vendors), page, per_page)),
        forall|k: int|
            0 <= k < page_of(pending(vendors), page, per_page).len() ==> (#[trigger] page_of(
                pending(vendors),
                page,
                per_page,
            )[k]).status == VendorStatus::Pending,
{
    lemma_pending_listing(vendors);
    lemma_page_of(pending(vendors), page, per_page);
    let listing = pending(vendors);
    let shown = page_of(listing, page, per_page);
    assert forall|k: int| 0 <= k < shown.len() implies (#[trigger] shown[k]).status
        == VendorStatus::Pending by {
        assert(shown[k] == listing[page_start(page, per_page) + k]);
    }
}

} // verus!
