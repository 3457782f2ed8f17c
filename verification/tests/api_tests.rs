use arpscan::api::ApiError;
use arpscan::api::ApiJson;
use arpscan::api::EmptyToOption;
use arpscan::api::PaginationMeta;
use arpscan::api::ShareQuery;
use arpscan::api::ShareTopologyRequest;
use arpscan::api::ValidationError;
use arpscan::ordering::ServiceOrderField;
use arpscan::ordering::SubnetOrderField;
use arpscan::validation::validate_bulk_delete_access;
use arpscan::validation::validate_create_access;
use arpscan::validation::validate_delete_access;
use arpscan::validation::validate_entity;
use arpscan::validation::validate_network_access;
use arpscan::validation::validate_organization_access;
use arpscan::validation::validate_read_access;
use arpscan::validation::validate_update_access;

#[test]
fn pagination_has_more_exactly_when_the_window_falls_short() {
    let m = PaginationMeta::new(142, 50, 0);
    assert_eq!(m.total_count, 142);
    assert_eq!(m.limit, 50);
    assert_eq!(m.offset, 0);
    assert!(m.has_more);

    // Window end equal to the total: nothing follows.
    assert!(!PaginationMeta::new(100, 50, 50).has_more);
    // One short of the total: one more follows.
    assert!(PaginationMeta::new(101, 50, 50).has_more);
    // Large values cannot overflow the computation.
    assert!(!PaginationMeta::new(0, u32::MAX, u32::MAX).has_more);
    assert!(PaginationMeta::new(u64::MAX, 1, 0).has_more);
}

#[test]
fn validation_error_becomes_a_bad_request() {
    let v = ValidationError::new("name must not be blank".to_string());
    assert_eq!(v.0, "name must not be blank");
    let e = ApiError::from(v);
    assert_eq!(e.status, 400);
    assert_eq!(e.message, "name must not be blank");
}

#[test]
fn api_error_constructors_carry_status_and_message() {
    let e = ApiError::new(418, "teapot".to_string());
    assert_eq!((e.status, e.message.as_str()), (418, "teapot"));
    let e = ApiError::bad_request("bad");
    assert_eq!((e.status, e.message.as_str()), (400, "bad"));
    let e = ApiError::internal_error("boom");
    assert_eq!((e.status, e.message.as_str()), (500, "boom"));
    let e = ApiError::not_found("nothing here".to_string());
    assert_eq!((e.status, e.message.as_str()), (404, "nothing here"));
}

#[test]
fn validate_entity_wraps_the_report() {
    let ok = validate_entity(|| Ok(()), "Host");
    assert!(ok.is_ok());

    let err = validate_entity(|| Err("name too long".to_string()), "Host").unwrap_err();
    assert_eq!(err.status, 400);
    assert_eq!(err.message, "Host validation failed: name too long");
}

#[test]
fn network_access_needs_membership() {
    let mine: Vec<u128> = vec![10, 20];
    assert!(validate_network_access(None, &mine, "read").is_ok());
    assert!(validate_network_access(Some(10), &mine, "read").is_ok());
    let err = validate_network_access(Some(30), &mine, "read").unwrap_err();
    assert_eq!(err.status, 403);
    assert!(validate_network_access(Some(10), &[], "read").is_err());
}

#[test]
fn organization_access_needs_identity() {
    assert!(validate_organization_access(None, 7, "read").is_ok());
    assert!(validate_organization_access(Some(7), 7, "read").is_ok());
    let err = validate_organization_access(Some(8), 7, "read").unwrap_err();
    assert_eq!(err.status, 403);
}

#[test]
fn combined_access_checks_both_scopes() {
    let mine: Vec<u128> = vec![10];
    assert!(validate_create_access(Some(10), Some(7), &mine, 7).is_ok());
    assert!(validate_create_access(Some(11), Some(7), &mine, 7).is_err());
    assert!(validate_create_access(Some(10), Some(8), &mine, 7).is_err());
    assert!(validate_read_access(None, None, &mine, 7).is_ok());
    assert!(validate_delete_access(Some(10), Some(7), &mine, 7).is_ok());
    assert!(validate_delete_access(Some(12), None, &mine, 7).is_err());
    assert!(validate_bulk_delete_access(None, Some(9), &mine, 7).is_err());
}

#[test]
fn update_access_checks_existing_and_new_values() {
    let mine: Vec<u128> = vec![10, 20];
    assert!(validate_update_access(Some(10), Some(7), Some(20), Some(7), &mine, 7).is_ok());
    // Any one scope out of reach denies the update.
    assert!(validate_update_access(Some(30), Some(7), Some(20), Some(7), &mine, 7).is_err());
    assert!(validate_update_access(Some(10), Some(8), Some(20), Some(7), &mine, 7).is_err());
    assert!(validate_update_access(Some(10), Some(7), Some(30), Some(7), &mine, 7).is_err());
    assert!(validate_update_access(Some(10), Some(7), Some(20), Some(8), &mine, 7).is_err());
    assert!(validate_update_access(None, None, None, None, &mine, 7).is_ok());
}

#[test]
fn empty_values_become_none() {
    assert_eq!(String::new().empty_to_option(), None);
    assert_eq!("x".to_string().empty_to_option(), Some("x".to_string()));

    assert_eq!(None::<String>.empty_to_option(), None);
    assert_eq!(Some(String::new()).empty_to_option(), None);
    assert_eq!(
        Some("x".to_string()).empty_to_option(),
        Some("x".to_string())
    );

    assert_eq!(Vec::<u8>::new().empty_to_option(), None);
    assert_eq!(vec![1u8].empty_to_option(), Some(vec![1u8]));
}

#[test]
fn service_order_fields_map_to_their_columns() {
    assert_eq!(ServiceOrderField::CreatedAt.to_sql(), "services.created_at");
    assert_eq!(ServiceOrderField::Name.to_sql(), "services.name");
    assert_eq!(ServiceOrderField::UpdatedAt.to_sql(), "services.updated_at");
    assert_eq!(ServiceOrderField::NetworkId.to_sql(), "services.network_id");
    assert_eq!(ServiceOrderField::Position.to_sql(), "services.position");
    assert_eq!(
        ServiceOrderField::Host.to_sql(),
        "COALESCE(service_host.name, '')"
    );
    assert_eq!(
        ServiceOrderField::Host.join_sql(),
        Some("LEFT JOIN hosts AS service_host ON services.host_id = service_host.id")
    );
    assert_eq!(ServiceOrderField::Name.join_sql(), None);
    assert!(matches!(
        ServiceOrderField::default(),
        ServiceOrderField::CreatedAt
    ));
}

#[test]
fn subnet_order_fields_map_to_their_columns() {
    assert_eq!(SubnetOrderField::CreatedAt.to_sql(), "subnets.created_at");
    assert_eq!(SubnetOrderField::Name.to_sql(), "subnets.name");
    assert_eq!(SubnetOrderField::Cidr.to_sql(), "subnets.cidr");
    assert_eq!(SubnetOrderField::SubnetType.to_sql(), "subnets.subnet_type");
    assert_eq!(SubnetOrderField::UpdatedAt.to_sql(), "subnets.updated_at");
    assert_eq!(SubnetOrderField::NetworkId.to_sql(), "subnets.network_id");
    assert!(matches!(
        SubnetOrderField::default(),
        SubnetOrderField::CreatedAt
    ));
}

#[test]
fn plain_request_wrappers_carry_their_values() {
    let q = ShareQuery { embed: true };
    assert!(q.embed);
    let r = ShareTopologyRequest { password: Some("pw".to_string()) };
    assert_eq!(r.password.as_deref(), Some("pw"));
    let j = ApiJson(5u32);
    assert_eq!(j.0, 5);
}
