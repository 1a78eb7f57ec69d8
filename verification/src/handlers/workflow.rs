//! The status change of one application as a sequence of steps.
//!
//! A status change alternates between decisions and work on the store: it
//! looks the vendor up, writes the decision, and appends the audit entry.
//! The decisions are taken here, one step at a time: each step takes what
//! the store answered and says what to do next. Whoever holds the store
//! does the work and hands the answer back.

use crate::db::vendor::{
    reason_required, status_change_entry, AuditLogEntry, AuditLogEntryView,
};
use crate::error::{AppError, AppErrorView};
use crate::handlers::vendor::{check_status_update, require_vendor, vendor_not_found};
use crate::models::vendor::{
    UpdateVendorStatusRequest, UpdateVendorStatusRequestView, Vendor, VendorResponse,
    VendorStatus, VendorView,
};
use crate::reply::{Reply, OK};
use crate::text::{as_optional_str, optional_text};
use vstd::prelude::*;
use vstd::string::*;

verus! {

/// How far a status change has come.
#[derive(Debug, Clone, PartialEq, Eq)]
pub enum ChangeState {
    /// Nothing has been done yet.
    Start,
    /// The vendor is being looked up.
    Fetching,
    /// The decision is being written; holds the status the vendor had.
    Writing { old_status: VendorStatus },
    /// The audit entry is being appended; holds the vendor as written.
    Logging { updated: Vendor },
    /// The status change is over.
    Done,
}

/// What the store answered.
#[derive(Debug, Clone, PartialEq, Eq)]
pub enum ChangeEvent {
    /// The status change starts.
    Begin,
    /// The lookup of the vendor came back.
    Fetched(Option<Vendor>),
    /// The write of the decision came back with the vendor as it then
    /// stands, or with nothing where the vendor is not on record.
    Written(Option<Vendor>),
    /// The audit entry is on record.
    Logged,
}

/// What to do next.
#[derive(Debug, Clone, PartialEq, Eq)]
pub enum ChangeAction {
    /// Look the vendor up.
    Fetch { vendor_id: u128 },
    /// Write the status, the reason and the time of the update.
    Write { vendor_id: u128, status: VendorStatus, rejection_reason: Option<String>, now: i64 },
    /// Append the entry to the audit trail.
    Log { entry: AuditLogEntry },
    /// Answer with the vendor as written.
    Respond(Reply<VendorResponse>),
    /// Answer with the error.
    Fail(AppError),
}

/// One status change: the decision, who made it and when, the identifier of
/// its audit entry, and how far it has come.
#[derive(Debug, Clone, PartialEq, Eq)]
pub struct StatusChange {
    pub vendor_id: u128,
    pub status_update: UpdateVendorStatusRequest,
    pub admin_id: u128,
    pub now: i64,
    pub audit_id: u128,
    pub state: ChangeState,
}

pub enum ChangeStateView {
    Start,
    Fetching,
    Writing { old_status: VendorStatus },
    Logging { updated: VendorView },
    Done,
}

pub enum ChangeEventView {
    Begin,
    Fetched(Option<VendorView>),
    Written(Option<VendorView>),
    Logged,
}

pub enum ChangeActionView {
    Fetch { vendor_id: u128 },
    Write { vendor_id: u128, status: VendorStatus, rejection_reason: Option<Seq<char>>, now: i64 },
    Log { entry: AuditLogEntryView },
    Respond { status: u16, body: VendorView },
    Fail(AppErrorView),
}

pub struct StatusChangeView {
    pub vendor_id: u128,
    pub status_update: UpdateVendorStatusRequestView,
    pub admin_id: u128,
    pub now: i64,
    pub audit_id: u128,
    pub state: ChangeStateView,
}

/// An optional vendor taken by its view.
pub open spec fn optional_vendor(vendor: Option<Vendor>) -> Option<VendorView> {
    match vendor {
        Some(v) => Some(v@),
        None => None,
    }
}

impl View for ChangeState {
    type V = ChangeStateView;

    open spec fn view(&self) -> ChangeStateView {
        match self {
            ChangeState::Start => ChangeStateView::Start,
            ChangeState::Fetching => ChangeStateView::Fetching,
            ChangeState::Writing { old_status } => ChangeStateView::Writing {
                old_status: *old_status,
            },
            ChangeState::Logging { updated } => ChangeStateView::Logging { updated: updated@ },
            ChangeState::Done => ChangeStateView::Done,
        }
    }
}

impl View for ChangeEvent {
    type V = ChangeEventView;

    open spec fn view(&self) -> ChangeEventView {
        match self {
            ChangeEvent::Begin => ChangeEventView::Begin,
            ChangeEvent::Fetched(found) => ChangeEventView::Fetched(optional_vendor(*found)),
            ChangeEvent::Written(written) => ChangeEventView::Written(optional_vendor(*written)),
            ChangeEvent::Logged => ChangeEventView::Logged,
        }
    }
}

impl View for ChangeAction {
    type V = ChangeActionView;

    open spec fn view(&self) -> ChangeActionView {
        match self {
            ChangeAction::Fetch { vendor_id } => ChangeActionView::Fetch { vendor_id: *vendor_id },
            ChangeAction::Write { vendor_id, status, rejection_reason, now } => {
                ChangeActionView::Write {
                    vendor_id: *vendor_id,
                    status: *status,
                    rejection_reason: optional_text(*rejection_reason),
                    now: *now,
                }
            },
            ChangeAction::Log { entry } => ChangeActionView::Log { entry: entry@ },
            ChangeAction::Respond(reply) => ChangeActionView::Respond {
                status: reply.status,
                body: reply.body@,
            },
            ChangeAction::Fail(e) => ChangeActionView::Fail(e@),
        }
    }
}

impl View for StatusChange {
    type V = StatusChangeView;

    open spec fn view(&self) -> StatusChangeView {
        StatusChangeView {
            vendor_id: self.vendor_id,
            status_update: self.status_update@,
            admin_id: self.admin_id,
            now: self.now,
            audit_id: self.audit_id,
            state: self.state@,
        }
    }
}

/// The error for an answer that does not belong to the step the status
/// change is at.
pub open spec fn out_of_step() -> AppErrorView {
    AppErrorView::Internal("status change out of step"@)
}

impl StatusChangeView {
    /// The step a status change takes on an event: the state it is in
    /// afterwards and what to do next.
    ///
    /// At the start the decision is checked: a rejection without a reason
    /// ends the status change before anything is looked up. A vendor that the
    /// lookup or the write did not find ends it with the error for an
    /// unknown vendor. After the write comes the audit entry, which records
    /// the status found by the lookup, the status written, the admin and
    /// the reason on record; only when it is on record is the vendor
    /// answered. An event that does not belong to the state ends the
    /// status change with an internal error, and one that is over stays so.
    pub open spec fn next(self, event: ChangeEventView) -> (ChangeStateView, ChangeActionView) {
        match (self.state, event) {
            (ChangeStateView::Start, ChangeEventView::Begin) => {
                if self.status_update.reason_given() {
                    (
                        ChangeStateView::Fetching,
                        ChangeActionView::Fetch { vendor_id: self.vendor_id },
                    )
                } else {
                    (ChangeStateView::Done, ChangeActionView::Fail(reason_required()))
                }
            },
            (ChangeStateView::Fetching, ChangeEventView::Fetched(Some(found))) => (
                ChangeStateView::Writing { old_status: found.status },
                ChangeActionView::Write {
                    vendor_id: self.vendor_id,
                    status: self.status_update.status,
                    rejection_reason: self.status_update.effective_reason(),
                    now: self.now,
                },
            ),
            (ChangeStateView::Fetching, ChangeEventView::Fetched(None)) => (
                ChangeStateView::Done,
                ChangeActionView::Fail(vendor_not_found(self.vendor_id)),
            ),
            (ChangeStateView::Writing { old_status }, ChangeEventView::Written(Some(updated))) => (
                ChangeStateView::Logging { updated },
                ChangeActionView::Log {
                    entry: status_change_entry(
                        self.audit_id,
                        self.vendor_id,
                        self.admin_id,
                        old_status,
                        updated.status,
                        updated.rejection_reason,
                    ),
                },
            ),
            (ChangeStateView::Writing { old_status }, ChangeEventView::Written(None)) => (
                ChangeStateView::Done,
                ChangeActionView::Fail(vendor_not_found(self.vendor_id)),
            ),
            (ChangeStateView::Logging { updated }, ChangeEventView::Logged) => (
                ChangeStateView::Done,
                ChangeActionView::Respond { status: OK, body: updated },
            ),
            _ => (ChangeStateView::Done, ChangeActionView::Fail(out_of_step())),
        }
    }
}

impl StatusChange {
    /// A status change of vendor `vendor_id` by admin `admin_id` at `now`,
    /// whose audit entry gets the identifier `audit_id`. Nothing has been
    /// done yet.
    pub fn new(
        vendor_id: u128,
        status_update: UpdateVendorStatusRequest,
        admin_id: u128,
        now: i64,
        audit_id: u128,
    ) -> (change: StatusChange)
        ensures
            change@ == (StatusChangeView {
                vendor_id,
                status_update: status_update@,
                admin_id,
                now,
                audit_id,
                state: ChangeStateView::Start,
            }),
    {
        StatusChange {
            vendor_id,
            status_update,
            admin_id,
            now,
            audit_id,
            state: ChangeState::Start,
        }
    }

    fn out_of_step(&mut self) -> (action: ChangeAction)
        ensures
            final(self)@ == (StatusChangeView { state: ChangeStateView::Done, ..old(self)@ }),
            action@ == ChangeActionView::Fail(out_of_step()),
    {
        self.state = ChangeState::Done;
        ChangeAction::Fail(AppError::Internal(String::from_str("status change out of step")))
    }

    fn fail(&mut self, error: AppError) -> (action: ChangeAction)
        ensures
            final(self)@ == (StatusChangeView { state: ChangeStateView::Done, ..old(self)@ }),
            action@ == ChangeActionView::Fail(error@),
    {
        self.state = ChangeState::Done;
        ChangeAction::Fail(error)
    }

    /// Takes the next step of the status change on what the store answered.
    pub fn step(&mut self, event: ChangeEvent) -> (action: ChangeAction)
        ensures
            final(self)@ == (StatusChangeView { state: old(self)@.next(event@).0, ..old(self)@ }),
            action@ == old(self)@.next(event@).1,
    {
        let mut state = ChangeState::Done;
        std::mem::swap(&mut state, &mut self.state);
        match (state, event) {
            (ChangeState::Start, ChangeEvent::Begin) => {
                match check_status_update(&self.status_update) {
                    Ok(_) => {
                        self.state = ChangeState::Fetching;
                        ChangeAction::Fetch { vendor_id: self.vendor_id }
                    },
                    Err(e) => self.fail(e),
                }
            },
            (ChangeState::Fetching, ChangeEvent::Fetched(found)) => {
                match require_vendor(found, self.vendor_id) {
                    Ok(vendor) => {
                        self.state = ChangeState::Writing { old_status: vendor.status };
                        ChangeAction::Write {
                            vendor_id: self.vendor_id,
                            status: self.status_update.status,
                            rejection_reason: self.status_update.effective_reason(),
                            now: self.now,
                        }
                    },
                    Err(e) => self.fail(e),
                }
            },
            (ChangeState::Writing { old_status }, ChangeEvent::Written(written)) => {
                match require_vendor(written, self.vendor_id) {
                    Ok(updated) => {
                        let entry = AuditLogEntry::status_change(
                            self.audit_id,
                            self.vendor_id,
                            self.admin_id,
                            &old_status,
                            &updated.status,
                            as_optional_str(&updated.rejection_reason),
                        );
                        self.state = ChangeState::Logging { updated };
                        ChangeAction::Log { entry }
                    },
                    Err(e) => self.fail(e),
                }
            },
            (ChangeState::Logging { updated }, ChangeEvent::Logged) => {
                self.state = ChangeState::Done;
                ChangeAction::Respond(Reply { status: OK, body: updated.to_response() })
            },
            _ => self.out_of_step(),
        }
    }
}

} // verus!
