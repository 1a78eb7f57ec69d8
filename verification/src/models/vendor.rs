//! Vendor applications, the requests that create them and decide on them,
//! and the rules those requests must meet.

use crate::text::{all_digits, duplicate_optional, optional_text};
use vstd::prelude::*;
use vstd::string::*;

verus! {

/// Where a vendor's application stands. An application starts as
/// `Pending`; a status change makes it `Approved` or `Rejected`.
#[derive(Debug, Clone, Copy, PartialEq, Eq, Structural)]
pub enum VendorStatus {
    Pending,
    Approved,
    Rejected,
}

impl Default for VendorStatus {
    fn default() -> (status: VendorStatus)
        ensures
            status == VendorStatus::Pending,
    {
        VendorStatus::Pending
    }
}

impl VendorStatus {
    /// The status in lower case, as the audit trail records it.
    pub open spec fn label(self) -> Seq<char> {
        match self {
            VendorStatus::Pending => "pending"@,
            VendorStatus::Approved => "approved"@,
            VendorStatus::Rejected => "rejected"@,
        }
    }

    /// The status in lower case, as the audit trail records it.
    pub fn as_str(&self) -> (text: &'static str)
        ensures
            text@ == self.label(),
    {
        match self {
            VendorStatus::Pending => "pending",
            VendorStatus::Approved => "approved",
            VendorStatus::Rejected => "rejected",
        }
    }
}

/// A vendor's application as the persistence layer holds it. Times are
/// microseconds since the epoch.
#[derive(Debug, Clone, PartialEq, Eq)]
pub struct Vendor {
    pub id: u128,
    pub name: String,
    pub phone: String,
    pub id_document_url: String,
    pub status: VendorStatus,
    pub rejection_reason: Option<String>,
    pub created_at: i64,
    pub updated_at: i64,
}

/// The mathematical value of a [`Vendor`].
pub struct VendorView {
    pub id: u128,
    pub name: Seq<char>,
    pub phone: Seq<char>,
    pub id_document_url: Seq<char>,
    pub status: VendorStatus,
    pub rejection_reason: Option<Seq<char>>,
    pub created_at: i64,
    pub updated_at: i64,
}

impl View for Vendor {
    type V = VendorView;

    open spec fn view(&self) -> VendorView {
        VendorView {
            id: self.id,
            name: self.name@,
            phone: self.phone@,
            id_document_url: self.id_document_url@,
            status: self.status,
            rejection_reason: optional_text(self.rejection_reason),
            created_at: self.created_at,
            updated_at: self.updated_at,
        }
    }
}

impl VendorView {
    /// The invariant of a vendor record: a rejection reason is on record
    /// if and only if the application was rejected.
    pub open spec fn well_formed(self) -> bool {
        self.rejection_reason is Some <==> self.status == VendorStatus::Rejected
    }

    /// The record after a status change at `now` set `status`, with
    /// `reason` as the reason on record.
    pub open spec fn with_decision(
        self,
        status: VendorStatus,
        reason: Option<Seq<char>>,
        now: i64,
    ) -> VendorView {
        VendorView { status, rejection_reason: reason, updated_at: now, ..self }
    }
}

impl Vendor {
    /// A copy of the record.
    pub fn duplicate(&self) -> (copy: Vendor)
        ensures
            copy == *self,
    {
        Vendor {
            id: self.id,
            name: self.name.clone(),
            phone: self.phone.clone(),
            id_document_url: self.id_document_url.clone(),
            status: self.status,
            rejection_reason: duplicate_optional(&self.rejection_reason),
            created_at: self.created_at,
            updated_at: self.updated_at,
        }
    }

    /// What a client is shown of the record: all of it.
    pub fn to_response(&self) -> (response: VendorResponse)
        ensures
            response@ == self@,
    {
        VendorResponse {
            id: self.id,
            name: self.name.clone(),
            phone: self.phone.clone(),
            id_document_url: self.id_document_url.clone(),
            status: self.status,
            rejection_reason: duplicate_optional(&self.rejection_reason),
            created_at: self.created_at,
            updated_at: self.updated_at,
        }
    }
}

/// A vendor as shown to a client.
#[derive(Debug, Clone, PartialEq, Eq)]
pub struct VendorResponse {
    pub id: u128,
    pub name: String,
    pub phone: String,
    pub id_document_url: String,
    pub status: VendorStatus,
    pub rejection_reason: Option<String>,
    pub created_at: i64,
    pub updated_at: i64,
}

impl View for VendorResponse {
    type V = VendorView;

    open spec fn view(&self) -> VendorView {
        VendorView {
            id: self.id,
            name: self.name@,
            phone: self.phone@,
            id_document_url: self.id_document_url@,
            status: self.status,
            rejection_reason: optional_text(self.rejection_reason),
            created_at: self.created_at,
            updated_at: self.updated_at,
        }
    }
}

/// The vendors shown, taken by their views.
pub open spec fn response_views(shown: Seq<VendorResponse>) -> Seq<VendorView> {
    shown.map_values(|v: VendorResponse| v@)
}

/// One page of vendors, with the count of all that the listing covers.
#[derive(Debug, Clone, PartialEq, Eq)]
pub struct PaginatedVendorResponse {
    pub vendors: Vec<VendorResponse>,
    pub total: i64,
    pub page: i64,
    pub per_page: i64,
}

pub struct PaginatedVendorView {
    pub vendors: Seq<VendorView>,
    pub total: i64,
    pub page: i64,
    pub per_page: i64,
}

impl View for PaginatedVendorResponse {
    type V = PaginatedVendorView;

    open spec fn view(&self) -> PaginatedVendorView {
        PaginatedVendorView {
            vendors: response_views(self.vendors@),
            total: self.total,
            page: self.page,
            per_page: self.per_page,
        }
    }
}

/// One rule that a request broke.
#[derive(Debug, Clone, PartialEq, Eq)]
pub struct ValidationError {
    /// The field the rule is about; `__all__` for a rule on the whole
    /// request.
    pub field: String,
    /// The rule's short name.
    pub code: String,
    /// What to tell the sender; empty where the code says it all.
    pub message: String,
}

pub struct ValidationErrorView {
    pub field: Seq<char>,
    pub code: Seq<char>,
    pub message: Seq<char>,
}

impl View for ValidationError {
    type V = ValidationErrorView;

    open spec fn view(&self) -> ValidationErrorView {
        ValidationErrorView { field: self.field@, code: self.code@, message: self.message@ }
    }
}

/// The broken rules taken by their views.
pub open spec fn errors_view(errors: Seq<ValidationError>) -> Seq<ValidationErrorView> {
    errors.map_values(|e: ValidationError| e@)
}

/// An application to become a vendor.
#[derive(Debug, Clone, PartialEq, Eq)]
pub struct CreateVendorRequest {
    pub name: String,
    pub phone: String,
    pub id_document_url: String,
}

pub struct CreateVendorRequestView {
    pub name: Seq<char>,
    pub phone: Seq<char>,
    pub id_document_url: Seq<char>,
}

impl View for CreateVendorRequest {
    type V = CreateVendorRequestView;

    open spec fn view(&self) -> CreateVendorRequestView {
        CreateVendorRequestView {
            name: self.name@,
            phone: self.phone@,
            id_document_url: self.id_document_url@,
        }
    }
}

/// A name has 3 to 100 characters.
pub open spec fn name_length_ok(name: Seq<char>) -> bool {
    3 <= name.len() <= 100
}

/// A phone number has 9 to 15 characters.
pub open spec fn phone_length_ok(phone: Seq<char>) -> bool {
    9 <= phone.len() <= 15
}

/// The digits of a phone number: all of it but a leading `+`.
pub open spec fn phone_digits(phone: Seq<char>) -> Seq<char> {
    if phone.len() > 0 && phone[0] == '+' {
        phone.skip(1)
    } else {
        phone
    }
}

/// A phone number is 9 to 15 ASCII digits, with or without a `+` before
/// them, and nothing else.
pub open spec fn phone_format_ok(phone: Seq<char>) -> bool {
    9 <= phone_digits(phone).len() <= 15 && all_digits(phone_digits(phone))
}

pub open spec fn name_length_error() -> ValidationErrorView {
    ValidationErrorView {
        field: "name"@,
        code: "length"@,
        message: "Name must be between 3 and 100 characters"@,
    }
}

pub open spec fn phone_length_error() -> ValidationErrorView {
    ValidationErrorView {
        field: "phone"@,
        code: "length"@,
        message: "Phone number must be between 9 and 15 characters"@,
    }
}

pub open spec fn phone_format_error() -> ValidationErrorView {
    ValidationErrorView {
        field: "phone"@,
        code: "regex"@,
        message: "Phone number format is invalid"@,
    }
}

pub open spec fn reason_required_error() -> ValidationErrorView {
    ValidationErrorView { field: "__all__"@, code: "rejection_reason_required"@, message: ""@ }
}

/// `error` if the rule is broken, nothing if it holds.
pub open spec fn broken(holds: bool, error: ValidationErrorView) -> Seq<ValidationErrorView> {
    if holds {
        Seq::empty()
    } else {
        seq![error]
    }
}

impl CreateVendorRequestView {
    /// The rules the application breaks, in the order they are checked:
    /// the length of the name, the length of the phone number, its format.
    pub open spec fn errors(self) -> Seq<ValidationErrorView> {
        broken(name_length_ok(self.name), name_length_error()) + broken(
            phone_length_ok(self.phone),
            phone_length_error(),
        ) + broken(phone_format_ok(self.phone), phone_format_error())
    }
}

/// Whether the characters of `text` from position `start` on are all ASCII
/// digits.
fn digits_from(text: &str, start: usize) -> (all: bool)
    requires
        start <= text@.len(),
    ensures
        all == all_digits(text@.skip(start as int)),
{
    let n: usize = text.unicode_len();
    let mut i: usize = start;
    while i < n
        invariant
            start <= i <= n,
            n == text@.len(),
            forall|j: int| start <= j < i ==> crate::text::is_digit(#[trigger] text@[j]),
        decreases n - i,
    {
        let c: char = text.get_char(i);
        if !('0' <= c && c <= '9') {
            proof {
                assert(text@.skip(start as int)[i - start] == text@[i as int]);
            }
            return false;
        }
        i = i + 1;
    }
    proof {
        assert forall|k: int| 0 <= k < text@.skip(start as int).len() implies crate::text::is_digit(
            #[trigger] text@.skip(start as int)[k],
        ) by {
            assert(text@.skip(start as int)[k] == text@[start + k]);
        }
    }
    true
}

/// Whether a phone number has the format of [`phone_format_ok`].
pub fn is_valid_phone(phone: &str) -> (valid: bool)
    ensures
        valid == phone_format_ok(phone@),
{
    let n: usize = phone.unicode_len();
    if n == 0 {
        return false;
    }
    let start: usize = if phone.get_char(0) == '+' {
        1
    } else {
        0
    };
    proof {
        if start == 0 {
            assert(phone@.skip(0) =~= phone@);
        }
    }
    let digits: usize = n - start;
    if digits < 9 || digits > 15 {
        return false;
    }
    digits_from(phone, start)
}

fn new_error(field: &str, code: &str, message: &str) -> (error: ValidationError)
    ensures
        error@ == (ValidationErrorView { field: field@, code: code@, message: message@ }),
{
    ValidationError {
        field: String::from_str(field),
        code: String::from_str(code),
        message: String::from_str(message),
    }
}

impl CreateVendorRequest {
    /// Checks the application against its rules and reports every rule it
    /// breaks.
    pub fn validate(&self) -> (outcome: Result<(), Vec<ValidationError>>)
        ensures
            match outcome {
                Ok(_) => self@.errors().len() == 0,
                Err(errors) => errors.len() > 0 && errors_view(errors@) == self@.errors(),
            },
    {
        let mut errors: Vec<ValidationError> = Vec::new();
        let name_len: usize = self.name.as_str().unicode_len();
        if name_len < 3 || name_len > 100 {
            errors.push(
                new_error("name", "length", "Name must be between 3 and 100 characters"),
            );
        }
        let ghost first = errors@;
        let phone_len: usize = self.phone.as_str().unicode_len();
        if phone_len < 9 || phone_len > 15 {
            errors.push(
                new_error("phone", "length", "Phone number must be between 9 and 15 characters"),
            );
        }
        assert(errors_view(errors@) =~= errors_view(first) + broken(
            phone_length_ok(self@.phone),
            phone_length_error(),
        ));
        let ghost second = errors@;
        if !is_valid_phone(self.phone.as_str()) {
            errors.push(new_error("phone", "regex", "Phone number format is invalid"));
        }
        assert(errors_view(errors@) =~= errors_view(second) + broken(
            phone_format_ok(self@.phone),
            phone_format_error(),
        ));
        if errors.len() == 0 {
            Ok(())
        } else {
            Err(errors)
        }
    }
}

/// A decision on an application.
#[derive(Debug, Clone, PartialEq, Eq)]
pub struct UpdateVendorStatusRequest {
    pub status: VendorStatus,
    pub rejection_reason: Option<String>,
}

pub struct UpdateVendorStatusRequestView {
    pub status: VendorStatus,
    pub rejection_reason: Option<Seq<char>>,
}

impl View for UpdateVendorStatusRequest {
    type V = UpdateVendorStatusRequestView;

    open spec fn view(&self) -> UpdateVendorStatusRequestView {
        UpdateVendorStatusRequestView {
            status: self.status,
            rejection_reason: optional_text(self.rejection_reason),
        }
    }
}

impl UpdateVendorStatusRequestView {
    /// A rejection must give its reason.
    pub open spec fn reason_given(self) -> bool {
        self.status == VendorStatus::Rejected ==> self.rejection_reason is Some
    }

    /// The reason that goes on record: the one given for a rejection, none
    /// for any other decision, whatever the request holds.
    pub open spec fn effective_reason(self) -> Option<Seq<char>> {
        if self.status == VendorStatus::Rejected {
            self.rejection_reason
        } else {
            None
        }
    }
}

/// The rule on the whole of a decision: a rejection without a
/// reason is refused with the code `rejection_reason_required`.
pub fn validate_update_vendor_status(
    req: &UpdateVendorStatusRequest,
) -> (outcome: Result<(), ValidationError>)
    ensures
        match outcome {
            Ok(_) => req@.reason_given(),
            Err(e) => !req@.reason_given() && e@ == reason_required_error(),
        },
{
    if req.status == VendorStatus::Rejected && req.rejection_reason.is_none() {
        return Err(new_error("__all__", "rejection_reason_required", ""));
    }
    Ok(())
}

impl UpdateVendorStatusRequest {
    /// Checks the decision against its rules.
    pub fn validate(&self) -> (outcome: Result<(), Vec<ValidationError>>)
        ensures
            match outcome {
                Ok(_) => self@.reason_given(),
                Err(errors) => !self@.reason_given() && errors_view(errors@) == seq![
                    reason_required_error(),
                ],
            },
    {
        match validate_update_vendor_status(self) {
            Ok(_) => Ok(()),
            Err(e) => {
                let mut errors: Vec<ValidationError> = Vec::new();
                errors.push(e);
                Err(errors)
            },
        }
    }

    /// A copy of the decision.
    pub fn duplicate(&self) -> (copy: UpdateVendorStatusRequest)
        ensures
            copy == *self,
    {
        UpdateVendorStatusRequest {
            status: self.status,
            rejection_reason: duplicate_optional(&self.rejection_reason),
        }
    }

    /// The reason that goes on record with this decision.
    pub fn effective_reason(&self) -> (reason: Option<String>)
        ensures
            optional_text(reason) == self@.effective_reason(),
    {
        if self.status == VendorStatus::Rejected {
            duplicate_optional(&self.rejection_reason)
        } else {
            None
        }
    }
}

} // verus!
