use admin_backend::db::vendor::{
    create_vendor, get_pending_vendors as list_pending, get_vendor_by_id as find_vendor,
    log_vendor_status_change, update_vendor_status as write_status, AuditDetails, AuditLogEntry,
    VendorStore,
};
use admin_backend::error::AppError;
use admin_backend::handlers::vendor::{
    check_status_update, get_pending_vendors, get_vendor_by_id, page_offset, paginated,
    require_vendor, update_vendor_status, PaginationParams,
};
use admin_backend::middleware::auth::AuthenticatedAdmin;
use admin_backend::models::vendor::{
    is_valid_phone, validate_update_vendor_status, CreateVendorRequest,
    UpdateVendorStatusRequest, ValidationError, Vendor, VendorStatus,
};

const ACTOR: u128 = 0x550e8400_e29b_41d4_a716_446655440000;

fn actor() -> AuthenticatedAdmin {
    AuthenticatedAdmin { admin_id: ACTOR, role: "admin".to_string() }
}

fn application(n: u64) -> CreateVendorRequest {
    CreateVendorRequest {
        name: format!("Vendor {}", n),
        phone: format!("+2547{:08}", n),
        id_document_url: format!("https://docs.example/{}.pdf", n),
    }
}

fn decision(status: VendorStatus, reason: Option<&str>) -> UpdateVendorStatusRequest {
    UpdateVendorStatusRequest { status, rejection_reason: reason.map(|r| r.to_string()) }
}

fn store_with(count: u64) -> VendorStore {
    let mut store = VendorStore::new();
    for n in 1..=count {
        create_vendor(&mut store, n as u128, &application(n), 1000 + n as i64).unwrap();
    }
    store
}

fn page(page: Option<i64>, per_page: Option<i64>) -> PaginationParams {
    PaginationParams { page, per_page }
}

fn required() -> AppError {
    AppError::Validation("rejection_reason_required".to_string())
}

#[test]
fn status_defaults_to_pending_and_has_lower_case_labels() {
    assert_eq!(VendorStatus::default(), VendorStatus::Pending);
    assert_eq!(VendorStatus::Pending.as_str(), "pending");
    assert_eq!(VendorStatus::Approved.as_str(), "approved");
    assert_eq!(VendorStatus::Rejected.as_str(), "rejected");
}

#[test]
fn rejection_without_reason_fails_whatever_the_state() {
    let mut store = store_with(3);
    let approval = decision(VendorStatus::Approved, None);
    write_status(&mut store, 2, &approval, 5000).unwrap().unwrap();
    let rejection = decision(VendorStatus::Rejected, Some("no"));
    write_status(&mut store, 3, &rejection, 5000).unwrap().unwrap();
    for id in [1u128, 2, 3, 99] {
        let refused = update_vendor_status(
            &mut store,
            id,
            &decision(VendorStatus::Rejected, None),
            &actor(),
            6000,
            777,
        );
        assert_eq!(refused, Err(required()));
        assert_eq!(refused.unwrap_err().status_code(), 400);
    }
    assert!(store.audit_log().is_empty());
    assert_eq!(find_vendor(&store, 1).unwrap().status, VendorStatus::Pending);
    assert_eq!(find_vendor(&store, 2).unwrap().status, VendorStatus::Approved);
    assert_eq!(find_vendor(&store, 2).unwrap().updated_at, 5000);
    assert_eq!(find_vendor(&store, 3).unwrap().rejection_reason, Some("no".to_string()));
}

#[test]
fn rejection_with_reason_is_written_and_audited_once() {
    let mut store = store_with(2);
    let reply = update_vendor_status(
        &mut store,
        1,
        &decision(VendorStatus::Rejected, Some("x")),
        &actor(),
        6000,
        777,
    )
    .unwrap();
    assert_eq!(reply.status, 200);
    assert_eq!(reply.body.id, 1);
    assert_eq!(reply.body.status, VendorStatus::Rejected);
    assert_eq!(reply.body.rejection_reason, Some("x".to_string()));
    assert_eq!(reply.body.created_at, 1001);
    assert_eq!(reply.body.updated_at, 6000);
    assert_eq!(reply.body.name, "Vendor 1");

    let stored = find_vendor(&store, 1).unwrap();
    assert_eq!(stored.status, VendorStatus::Rejected);
    assert_eq!(stored.rejection_reason, Some("x".to_string()));
    assert_eq!(find_vendor(&store, 2).unwrap().status, VendorStatus::Pending);

    assert_eq!(
        store.audit_log(),
        &vec![AuditLogEntry {
            id: 777,
            entity_type: "vendor".to_string(),
            entity_id: 1,
            action_type: "status_change".to_string(),
            admin_id: ACTOR,
            details: AuditDetails {
                old_status: "pending".to_string(),
                new_status: "rejected".to_string(),
                reason: Some("x".to_string()),
            },
        }]
    );
}

#[test]
fn approval_clears_the_reason_it_was_sent_with() {
    let mut store = store_with(1);
    let reply = update_vendor_status(
        &mut store,
        1,
        &decision(VendorStatus::Approved, Some("ignored")),
        &actor(),
        6000,
        1,
    )
    .unwrap();
    assert_eq!(reply.body.status, VendorStatus::Approved);
    assert_eq!(reply.body.rejection_reason, None);
    assert_eq!(store.audit_log()[0].details.reason, None);
    assert_eq!(store.audit_log()[0].details.new_status, "approved");
}

#[test]
fn change_of_unknown_vendor_is_not_found_and_writes_nothing() {
    let mut store = store_with(1);
    let refused = update_vendor_status(
        &mut store,
        0x936da01f_9abd_4d9d_80c7_02af85c822a8,
        &decision(VendorStatus::Approved, None),
        &actor(),
        6000,
        1,
    )
    .unwrap_err();
    assert_eq!(
        refused,
        AppError::NotFound(
            "Vendor with ID 936da01f-9abd-4d9d-80c7-02af85c822a8 not found".to_string()
        )
    );
    assert_eq!(refused.status_code(), 404);
    assert!(store.audit_log().is_empty());
    assert_eq!(store.len(), 1);
}

#[test]
fn repeated_decisions_overwrite_and_each_is_audited() {
    let mut store = store_with(1);
    update_vendor_status(&mut store, 1, &decision(VendorStatus::Approved, None), &actor(), 10, 1)
        .unwrap();
    update_vendor_status(
        &mut store,
        1,
        &decision(VendorStatus::Rejected, Some("fraud")),
        &actor(),
        20,
        2,
    )
    .unwrap();
    update_vendor_status(&mut store, 1, &decision(VendorStatus::Pending, None), &actor(), 30, 3)
        .unwrap();
    let stored = find_vendor(&store, 1).unwrap();
    assert_eq!(stored.status, VendorStatus::Pending);
    assert_eq!(stored.rejection_reason, None);
    assert_eq!(stored.updated_at, 30);
    let trail: Vec<(u128, String, String)> = store
        .audit_log()
        .iter()
        .map(|e| (e.id, e.details.old_status.clone(), e.details.new_status.clone()))
        .collect();
    assert_eq!(
        trail,
        vec![
            (1, "pending".to_string(), "approved".to_string()),
            (2, "approved".to_string(), "rejected".to_string()),
            (3, "rejected".to_string(), "pending".to_string()),
        ]
    );
}

#[test]
fn first_page_of_ten_shows_ten_and_counts_all() {
    let store = store_with(25);
    let reply = get_pending_vendors(&store, &page(Some(1), Some(10)), &actor()).unwrap();
    assert_eq!(reply.status, 200);
    assert_eq!(reply.body.vendors.len(), 10);
    assert_eq!(reply.body.total, 25);
    assert_eq!(reply.body.page, 1);
    assert_eq!(reply.body.per_page, 10);
    let ids: Vec<u128> = reply.body.vendors.iter().map(|v| v.id).collect();
    assert_eq!(ids, (1..=10).collect::<Vec<u128>>());
}

#[test]
fn pages_partition_the_pending_vendors_oldest_first() {
    let mut store = store_with(25);
    let approval = decision(VendorStatus::Approved, None);
    write_status(&mut store, 3, &approval, 1).unwrap().unwrap();
    let rejection = decision(VendorStatus::Rejected, Some("r"));
    write_status(&mut store, 12, &rejection, 1).unwrap().unwrap();

    let first = get_pending_vendors(&store, &page(Some(1), Some(10)), &actor()).unwrap().body;
    let ids: Vec<u128> = first.vendors.iter().map(|v| v.id).collect();
    assert_eq!(ids, vec![1, 2, 4, 5, 6, 7, 8, 9, 10, 11]);

    let second = get_pending_vendors(&store, &page(Some(2), Some(10)), &actor()).unwrap().body;
    assert_eq!(second.total, 23);
    let ids: Vec<u128> = second.vendors.iter().map(|v| v.id).collect();
    assert_eq!(ids, vec![13, 14, 15, 16, 17, 18, 19, 20, 21, 22]);
    assert!(second.vendors.iter().all(|v| v.status == VendorStatus::Pending));

    let third = get_pending_vendors(&store, &page(Some(3), Some(10)), &actor()).unwrap().body;
    let ids: Vec<u128> = third.vendors.iter().map(|v| v.id).collect();
    assert_eq!(ids, vec![23, 24, 25]);
    assert_eq!(third.total, 23);

    let beyond = get_pending_vendors(&store, &page(Some(4), Some(10)), &actor()).unwrap().body;
    assert!(beyond.vendors.is_empty());
    assert_eq!(beyond.total, 23);

    let far = get_pending_vendors(&store, &page(Some(i64::MAX), Some(100)), &actor())
        .unwrap()
        .body;
    assert!(far.vendors.is_empty());
    assert_eq!(far.total, 23);
}

#[test]
fn listing_defaults_to_the_first_page_of_ten() {
    let store = store_with(12);
    let reply = get_pending_vendors(&store, &page(None, None), &actor()).unwrap().body;
    assert_eq!(reply.page, 1);
    assert_eq!(reply.per_page, 10);
    assert_eq!(reply.vendors.len(), 10);
    assert_eq!(reply.total, 12);
    assert_eq!(page(None, None).resolve(), Ok((1, 10)));
    assert_eq!(page(Some(4), None).resolve(), Ok((4, 10)));
    assert_eq!(page(None, Some(100)).resolve(), Ok((1, 100)));
    assert_eq!(page(None, Some(1)).resolve(), Ok((1, 1)));
}

#[test]
fn listing_refuses_pages_out_of_range() {
    let store = store_with(3);
    let invalid = AppError::Validation("Invalid pagination parameters".to_string());
    for (p, s) in [(0, 10), (-1, 10), (1, 0), (1, -5), (1, 101), (i64::MIN, 10), (1, i64::MAX)] {
        let refused = get_pending_vendors(&store, &page(Some(p), Some(s)), &actor());
        assert_eq!(refused, Err(invalid.clone()));
        assert_eq!(page(Some(p), Some(s)).resolve(), Err(invalid.clone()));
    }
    assert_eq!(invalid.status_code(), 400);
}

#[test]
fn listing_is_ordered_by_creation_not_by_insertion() {
    let mut store = VendorStore::new();
    create_vendor(&mut store, 1, &application(1), 300).unwrap();
    create_vendor(&mut store, 2, &application(2), 100).unwrap();
    create_vendor(&mut store, 3, &application(3), 200).unwrap();
    create_vendor(&mut store, 4, &application(4), 100).unwrap();
    create_vendor(&mut store, 5, &application(5), -50).unwrap();
    let (vendors, total) = list_pending(&store, 1, 100).unwrap();
    assert_eq!(total, 5);
    let order: Vec<(u128, i64)> = vendors.iter().map(|v| (v.id, v.created_at)).collect();
    assert_eq!(order, vec![(5, -50), (2, 100), (4, 100), (3, 200), (1, 300)]);
    let (vendors, total) = list_pending(&store, 2, 2).unwrap();
    assert_eq!(total, 5);
    let ids: Vec<u128> = vendors.iter().map(|v| v.id).collect();
    assert_eq!(ids, vec![4, 3]);
}

#[test]
fn store_refuses_a_rejection_without_reason() {
    let mut store = store_with(1);
    assert_eq!(
        write_status(&mut store, 1, &decision(VendorStatus::Rejected, None), 5000),
        Err(required())
    );
    assert_eq!(
        write_status(&mut store, 9, &decision(VendorStatus::Rejected, None), 5000),
        Err(required())
    );
    assert_eq!(find_vendor(&store, 1).unwrap().status, VendorStatus::Pending);
    assert_eq!(find_vendor(&store, 1).unwrap().updated_at, 1001);
    let approval = decision(VendorStatus::Approved, None);
    assert_eq!(write_status(&mut store, 9, &approval, 5000), Ok(None));
    let written = write_status(&mut store, 1, &decision(VendorStatus::Rejected, Some("")), 5000)
        .unwrap()
        .unwrap();
    assert_eq!(written.status, VendorStatus::Rejected);
    assert_eq!(written.rejection_reason, Some(String::new()));
    assert_eq!(written.updated_at, 5000);
    assert_eq!(written.created_at, 1001);
    assert_eq!(find_vendor(&store, 1), Some(written));
    assert!(store.audit_log().is_empty());
}

#[test]
fn store_refuses_pages_that_do_not_exist() {
    let store = store_with(1);
    let refused = Err(AppError::Database("OFFSET and LIMIT must not be negative".to_string()));
    assert_eq!(list_pending(&store, 0, 10), refused);
    assert_eq!(list_pending(&store, 1, 0), refused);
    assert_eq!(list_pending(&store, 1, 1000).unwrap().1, 1);
}

#[test]
fn new_application_is_pending_and_unique() {
    let mut store = VendorStore::new();
    let created = create_vendor(&mut store, 9, &application(1), 1234).unwrap();
    assert_eq!(
        created,
        Vendor {
            id: 9,
            name: "Vendor 1".to_string(),
            phone: "+254700000001".to_string(),
            id_document_url: "https://docs.example/1.pdf".to_string(),
            status: VendorStatus::Pending,
            rejection_reason: None,
            created_at: 1234,
            updated_at: 1234,
        }
    );
    assert_eq!(find_vendor(&store, 9), Some(created));
    assert_eq!(find_vendor(&store, 8), None);

    let duplicate = Err(AppError::Database(
        "duplicate key value violates unique constraint".to_string(),
    ));
    assert_eq!(create_vendor(&mut store, 9, &application(2), 1), duplicate);
    assert_eq!(create_vendor(&mut store, 10, &application(1), 1), duplicate);
    assert_eq!(store.len(), 1);
    assert!(create_vendor(&mut store, 10, &application(2), 1).is_ok());
    assert_eq!(store.len(), 2);
}

#[test]
fn vendor_is_shown_by_identifier() {
    let store = store_with(2);
    let reply = get_vendor_by_id(&store, 2, &actor()).unwrap();
    assert_eq!(reply.status, 200);
    assert_eq!(reply.body.id, 2);
    assert_eq!(reply.body.phone, "+254700000002");
    assert_eq!(reply.body.status, VendorStatus::Pending);
    let refused = get_vendor_by_id(&store, 3, &actor()).unwrap_err();
    assert_eq!(
        refused,
        AppError::NotFound(
            "Vendor with ID 00000000-0000-0000-0000-000000000003 not found".to_string()
        )
    );
    assert_eq!(
        require_vendor(None, u128::MAX),
        Err(AppError::NotFound(
            "Vendor with ID ffffffff-ffff-ffff-ffff-ffffffffffff not found".to_string()
        ))
    );
}

#[test]
fn audit_trail_only_grows() {
    let mut store = store_with(1);
    log_vendor_status_change(
        &mut store,
        1,
        1,
        ACTOR,
        &VendorStatus::Pending,
        &VendorStatus::Approved,
        None,
    );
    let first = store.audit_log()[0].clone();
    log_vendor_status_change(
        &mut store,
        2,
        1,
        ACTOR,
        &VendorStatus::Approved,
        &VendorStatus::Rejected,
        Some("why"),
    );
    assert_eq!(store.audit_log().len(), 2);
    assert_eq!(store.audit_log()[0], first);
    assert_eq!(
        store.audit_log()[1],
        AuditLogEntry::status_change(
            2,
            1,
            ACTOR,
            &VendorStatus::Approved,
            &VendorStatus::Rejected,
            Some("why")
        )
    );
    assert_eq!(store.audit_log()[1].details.reason, Some("why".to_string()));
    assert_eq!(store.len(), 1);
}

#[test]
fn decision_rule_has_its_code() {
    assert_eq!(validate_update_vendor_status(&decision(VendorStatus::Approved, None)), Ok(()));
    assert_eq!(validate_update_vendor_status(&decision(VendorStatus::Pending, None)), Ok(()));
    assert_eq!(
        validate_update_vendor_status(&decision(VendorStatus::Rejected, Some(""))),
        Ok(())
    );
    let broken = ValidationError {
        field: "__all__".to_string(),
        code: "rejection_reason_required".to_string(),
        message: String::new(),
    };
    assert_eq!(
        validate_update_vendor_status(&decision(VendorStatus::Rejected, None)),
        Err(broken.clone())
    );
    assert_eq!(decision(VendorStatus::Rejected, None).validate(), Err(vec![broken]));
    assert_eq!(decision(VendorStatus::Rejected, Some("x")).validate(), Ok(()));
    assert_eq!(check_status_update(&decision(VendorStatus::Rejected, None)), Err(required()));
    assert_eq!(check_status_update(&decision(VendorStatus::Approved, None)), Ok(()));
    assert_eq!(
        decision(VendorStatus::Approved, Some("x")).effective_reason(),
        None
    );
    assert_eq!(
        decision(VendorStatus::Rejected, Some("x")).effective_reason(),
        Some("x".to_string())
    );
}

#[test]
fn application_rules_report_every_broken_rule() {
    let good = CreateVendorRequest {
        name: "Ann".to_string(),
        phone: "+254700000001".to_string(),
        id_document_url: String::new(),
    };
    assert_eq!(good.validate(), Ok(()));

    let name_error = ValidationError {
        field: "name".to_string(),
        code: "length".to_string(),
        message: "Name must be between 3 and 100 characters".to_string(),
    };
    let length_error = ValidationError {
        field: "phone".to_string(),
        code: "length".to_string(),
        message: "Phone number must be between 9 and 15 characters".to_string(),
    };
    let format_error = ValidationError {
        field: "phone".to_string(),
        code: "regex".to_string(),
        message: "Phone number format is invalid".to_string(),
    };

    let short = CreateVendorRequest { name: "Al".to_string(), ..good.clone() };
    assert_eq!(short.validate(), Err(vec![name_error.clone()]));
    let long = CreateVendorRequest { name: "x".repeat(101), ..good.clone() };
    assert_eq!(long.validate(), Err(vec![name_error.clone()]));
    let longest = CreateVendorRequest { name: "x".repeat(100), ..good.clone() };
    assert_eq!(longest.validate(), Ok(()));
    let accented = CreateVendorRequest { name: "Éva".to_string(), ..good.clone() };
    assert_eq!(accented.validate(), Ok(()));
    let two_wide = CreateVendorRequest { name: "日本".to_string(), ..good.clone() };
    assert_eq!(two_wide.validate(), Err(vec![name_error.clone()]));

    let letters = CreateVendorRequest { phone: "07000x0001".to_string(), ..good.clone() };
    assert_eq!(letters.validate(), Err(vec![format_error.clone()]));
    let tiny = CreateVendorRequest { phone: "12345678".to_string(), ..good.clone() };
    assert_eq!(tiny.validate(), Err(vec![length_error.clone(), format_error.clone()]));
    let plus_and_fifteen =
        CreateVendorRequest { phone: "+123456789012345".to_string(), ..good.clone() };
    assert_eq!(plus_and_fifteen.validate(), Err(vec![length_error.clone()]));
    let plus_and_eight = CreateVendorRequest { phone: "+12345678".to_string(), ..good.clone() };
    assert_eq!(plus_and_eight.validate(), Err(vec![format_error.clone()]));

    let all = CreateVendorRequest {
        name: String::new(),
        phone: String::new(),
        id_document_url: String::new(),
    };
    assert_eq!(all.validate(), Err(vec![name_error, length_error, format_error]));
}

#[test]
fn phone_format_is_an_optional_plus_and_nine_to_fifteen_digits() {
    for good in ["123456789", "+123456789", "123456789012345", "+123456789012345", "000000000"] {
        assert!(is_valid_phone(good), "{}", good);
    }
    for bad in [
        "",
        "+",
        "12345678",
        "+12345678",
        "1234567890123456",
        "++123456789",
        "123456789+",
        "12345 6789",
        "123456789\n",
        "-123456789",
        "１２３４５６７８９",
        "12345678a",
        "+1234567８9",
    ] {
        assert!(!is_valid_phone(bad), "{:?}", bad);
    }
}

#[test]
fn offset_is_the_entries_on_earlier_pages() {
    assert_eq!(page_offset(1, 10), Some(0));
    assert_eq!(page_offset(2, 10), Some(10));
    assert_eq!(page_offset(7, 25), Some(150));
    assert_eq!(page_offset(i64::MAX, 1), Some(i64::MAX - 1));
    assert_eq!(page_offset(i64::MAX, 2), None);
    assert_eq!(page_offset(i64::MIN, 1), None);
    assert_eq!(page_offset(i64::MIN, 0), Some(0));
    assert_eq!(page_offset(0, 10), Some(-10));
}

#[test]
fn page_is_put_into_the_shape_of_a_response() {
    let store = store_with(3);
    let (vendors, _) = list_pending(&store, 1, 2).unwrap();
    let response = paginated(&vendors, 3, 1, 2);
    assert_eq!(response.total, 3);
    assert_eq!(response.page, 1);
    assert_eq!(response.per_page, 2);
    assert_eq!(response.vendors.len(), 2);
    assert_eq!(response.vendors[0], vendors[0].to_response());
    assert_eq!(response.vendors[1].id, 2);
    assert_eq!(response.vendors[1].name, "Vendor 2");
    assert_eq!(paginated(&Vec::new(), 0, 1, 10).vendors.len(), 0);
}
