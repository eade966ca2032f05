use router_core::cache::{
    merchant_key_store_cache_key, on_memory_read, on_redis_read, total_published, CacheStep,
    RedisRead,
};
use router_core::mock_db::{
    AuthMethod, MerchantKeyStore, MerchantKeyStoreTable, OrgAuthenticationMethodNew,
    OrgAuthenticationMethodTable, OrgAuthenticationMethodUpdate, StorageError,
};
use router_core::payout_link::{
    customer_not_found_message, expired_message, expired_title, has_expired, payout_details_script,
    payout_link_page, PayoutLinkPage, PayoutLinkStatus,
};
use router_core::workflows::{
    build_flow_specific_connector_request, decide_flows, delete_tokenize_mapping_key,
    delete_tokenize_task_id, get_delay, on_delete_reply, on_task_insert,
    on_tokenized_data_delete, retry_delete_tokenize, ApiErrorResponse, BusinessStatus, DelReply,
    PaymentMethodStatus, PaymentMethodStatusTrackingData, PaymentMethodStatusUpdateWorkflow,
    ProcessTrackerError, RetryMapping, TrackerStep,
};

fn key_store(merchant_id: &str) -> MerchantKeyStore {
    MerchantKeyStore {
        merchant_id: merchant_id.to_string(),
        key: vec![1, 2, 3],
        created_at: 1_675_209_600,
    }
}

#[test]
fn mock_db_merchant_key_store_table() {
    let mut table = MerchantKeyStoreTable::new();
    let stored = table.insert_merchant_key_store(key_store("merchant1")).unwrap();
    assert_eq!(stored.merchant_id, "merchant1");
    assert_eq!(stored.key, vec![1, 2, 3]);
    assert_eq!(stored.created_at, 1_675_209_600);
    let found = table.get_merchant_key_store_by_merchant_id("merchant1").unwrap();
    assert_eq!(found.merchant_id, "merchant1");
    assert_eq!(found.key, vec![1, 2, 3]);
    let again = table.insert_merchant_key_store(key_store("merchant1"));
    assert!(matches!(
        again,
        Err(StorageError::DuplicateValue { entity: "merchant_key_store", key: Some(key) })
            if key == "merchant1"
    ));
    let missing = table.get_merchant_key_store_by_merchant_id("non_existent");
    assert!(matches!(missing, Err(StorageError::ValueNotFound(what)) if what == "merchant_key_store"));
}

#[test]
fn key_stores_are_listed_and_deleted() {
    let mut table = MerchantKeyStoreTable::new();
    for id in ["a", "b", "c"] {
        table.insert_merchant_key_store(key_store(id)).unwrap();
    }
    let listed = table.list_multiple_key_stores(&vec!["c".to_string(), "a".to_string(), "x".to_string()]);
    let ids: Vec<&str> = listed.iter().map(|row| row.merchant_id.as_str()).collect();
    assert_eq!(ids, vec!["a", "c"]);
    assert!(table.list_multiple_key_stores(&vec![]).is_empty());
    assert_eq!(table.delete_merchant_key_store_by_merchant_id("b").unwrap(), true);
    let gone = table.delete_merchant_key_store_by_merchant_id("b");
    assert!(matches!(
        gone,
        Err(StorageError::ValueNotFound(what))
            if what == "No merchant key store found for merchant_id = b"
    ));
    let left = table.list_multiple_key_stores(&vec!["a".to_string(), "b".to_string(), "c".to_string()]);
    let ids: Vec<&str> = left.iter().map(|row| row.merchant_id.as_str()).collect();
    assert_eq!(ids, vec!["a", "c"]);
}

fn new_method(org_id: &str, auth_method: AuthMethod) -> OrgAuthenticationMethodNew {
    OrgAuthenticationMethodNew {
        org_id: org_id.to_string(),
        auth_method,
        auth_config: Some("{}".to_string()),
        created_at: 10,
        last_modified_at: 10,
    }
}

#[test]
fn org_authentication_methods_table() {
    let mut table = OrgAuthenticationMethodTable::new();
    let first = table
        .insert_org_authentication_method(new_method("org1", AuthMethod::Password))
        .unwrap();
    assert_eq!(first.id, 0);
    assert_eq!(first.org_id, "org1");
    let second = table
        .insert_org_authentication_method(new_method("org2", AuthMethod::MagicLink))
        .unwrap();
    assert_eq!(second.id, 1);
    let duplicate = table.insert_org_authentication_method(new_method("org1", AuthMethod::MagicLink));
    assert!(matches!(
        duplicate,
        Err(StorageError::DuplicateValue { entity: "role_id", key: None })
    ));
    let details = table.get_org_authentication_methods_details("org2").unwrap();
    assert_eq!(details.len(), 1);
    assert_eq!(details[0].auth_method, AuthMethod::MagicLink);
    let none = table.get_org_authentication_methods_details("org3");
    assert!(matches!(
        none,
        Err(StorageError::ValueNotFound(what))
            if what == "No org authentication found for org_id = org3"
    ));
    let updated = table
        .update_org_authentication_method(
            "org1",
            AuthMethod::Password,
            OrgAuthenticationMethodUpdate::UpdateAuthConfig { auth_config: None },
            99,
        )
        .unwrap();
    assert_eq!(updated.id, 0);
    assert_eq!(updated.auth_config, None);
    assert_eq!(updated.created_at, 10);
    assert_eq!(updated.last_modified_at, 99);
    let stored = table.get_org_authentication_methods_details("org1").unwrap();
    assert_eq!(stored[0].last_modified_at, 99);
    assert_eq!(stored[0].auth_config, None);
    let other_method = table.update_org_authentication_method(
        "org1",
        AuthMethod::OpenIdConnect,
        OrgAuthenticationMethodUpdate::UpdateAuthConfig { auth_config: None },
        100,
    );
    assert!(matches!(
        other_method,
        Err(StorageError::ValueNotFound(what))
            if what == "No authentication method available for the org = org1"
    ));
}

#[test]
fn cache_decisions() {
    assert_eq!(on_redis_read(RedisRead::Found), CacheStep::Return);
    assert_eq!(on_redis_read(RedisRead::NotFound), CacheStep::Populate);
    assert_eq!(on_redis_read(RedisRead::JsonDeserializationFailed), CacheStep::Populate);
    assert_eq!(on_redis_read(RedisRead::Failed), CacheStep::Fail);
    assert_eq!(on_memory_read(true), CacheStep::Return);
    assert_eq!(on_memory_read(false), CacheStep::Populate);
    assert_eq!(total_published(&vec![]), Some(0));
    assert_eq!(total_published(&vec![1, 0, 4]), Some(5));
    assert_eq!(total_published(&vec![usize::MAX, 0]), Some(usize::MAX));
    assert_eq!(total_published(&vec![usize::MAX, 1]), None);
    assert_eq!(merchant_key_store_cache_key("m1"), "merchant_key_store_m1");
}

#[test]
fn payout_link_pages() {
    assert_eq!(payout_link_page(PayoutLinkStatus::Initiated, true), PayoutLinkPage::Expired);
    assert_eq!(payout_link_page(PayoutLinkStatus::Initiated, false), PayoutLinkPage::Form);
    assert_eq!(
        payout_link_page(PayoutLinkStatus::Submitted, false),
        PayoutLinkPage::Status(PayoutLinkStatus::Submitted)
    );
    assert_eq!(
        payout_link_page(PayoutLinkStatus::Invalidated, true),
        PayoutLinkPage::Status(PayoutLinkStatus::Invalidated)
    );
    assert!(has_expired(11, 10));
    assert!(!has_expired(10, 10));
    assert_eq!(expired_title(), "Payout link has expired");
    assert_eq!(expired_message(), "This payout link has expired.");
    assert_eq!(payout_details_script("{\"a\":1}"), "window.__PAYOUT_DETAILS = {\"a\":1}");
    assert_eq!(
        customer_not_found_message("payout_1", "link_9"),
        "Customer [payout_1] not found for link_id - link_9"
    );
}

#[test]
fn delay_is_the_frequency_that_the_count_reaches() {
    let frequencies = vec![(300, 2), (600, 3)];
    assert_eq!(get_delay(0, &frequencies), Some(0));
    assert_eq!(get_delay(-4, &frequencies), Some(0));
    assert_eq!(get_delay(1, &frequencies), Some(300));
    assert_eq!(get_delay(2, &frequencies), Some(300));
    assert_eq!(get_delay(3, &frequencies), Some(600));
    assert_eq!(get_delay(5, &frequencies), Some(600));
    assert_eq!(get_delay(6, &frequencies), None);
    assert_eq!(get_delay(1, &vec![]), None);
    assert_eq!(get_delay(2, &vec![(5, 1), (7, -3), (9, 4)]), Some(9));
}

#[test]
fn status_workflow_steps() {
    let workflow = PaymentMethodStatusUpdateWorkflow;
    let tracking = PaymentMethodStatusTrackingData {
        payment_method_id: "pm_1".to_string(),
        prev_status: PaymentMethodStatus::AwaitingData,
        curr_status: PaymentMethodStatus::Inactive,
        merchant_id: "m1".to_string(),
    };
    assert_eq!(
        workflow.on_payment_method(PaymentMethodStatus::Active, &tracking),
        TrackerStep::Finish(BusinessStatus::ProcessAlreadyCompleted)
    );
    assert_eq!(
        workflow.on_payment_method(PaymentMethodStatus::AwaitingData, &tracking),
        TrackerStep::UpdateStatus(PaymentMethodStatus::Inactive)
    );
    let mapping = RetryMapping { start_after: 900, frequencies: vec![(300, 5)] };
    assert_eq!(
        workflow.on_update(true, 3, &mapping),
        TrackerStep::Finish(BusinessStatus::CompletedByPt)
    );
    assert_eq!(workflow.on_update(false, 0, &mapping), TrackerStep::Retry(900));
    assert_eq!(workflow.on_update(false, 1, &mapping), TrackerStep::Retry(300));
    assert_eq!(workflow.on_update(false, 4, &mapping), TrackerStep::Retry(300));
    assert_eq!(
        workflow.on_update(false, 5, &mapping),
        TrackerStep::Finish(BusinessStatus::RetriesExceeded)
    );
    assert_eq!(
        workflow.on_update(false, i32::MAX, &mapping),
        TrackerStep::Finish(BusinessStatus::RetriesExceeded)
    );
    assert_eq!(workflow.on_update(false, -3, &mapping), TrackerStep::Retry(0));
    assert!(workflow.error_handler(ProcessTrackerError::StorageError).is_ok());
    assert_eq!(BusinessStatus::ProcessAlreadyCompleted.as_str(), "PROCESS_ALREADY_COMPLETED");
    assert_eq!(BusinessStatus::CompletedByPt.as_str(), "COMPLETED_BY_PT");
    assert_eq!(BusinessStatus::RetriesExceeded.as_str(), "RETRIES_EXCEEDED");
}

#[test]
fn locker_workflow_steps() {
    assert_eq!(on_delete_reply(Some(DelReply::KeyDeleted)), Ok(()));
    assert_eq!(
        on_delete_reply(Some(DelReply::KeyNotDeleted)),
        Err(ApiErrorResponse::InternalServerError)
    );
    assert_eq!(on_delete_reply(None), Err(ApiErrorResponse::InternalServerError));
    assert_eq!(
        on_tokenized_data_delete(true, None),
        TrackerStep::Finish(BusinessStatus::CompletedByPt)
    );
    assert_eq!(on_tokenized_data_delete(false, Some(60)), TrackerStep::Retry(60));
    assert_eq!(
        on_tokenized_data_delete(false, None),
        TrackerStep::Finish(BusinessStatus::RetriesExceeded)
    );
    assert_eq!(retry_delete_tokenize(Some(5)), TrackerStep::Retry(5));
    assert_eq!(
        retry_delete_tokenize(None),
        TrackerStep::Finish(BusinessStatus::RetriesExceeded)
    );
    assert_eq!(
        delete_tokenize_task_id("DELETE_TOKENIZE_DATA_WORKFLOW", "token_1"),
        "DELETE_TOKENIZE_DATA_WORKFLOW_token_1"
    );
    assert_eq!(delete_tokenize_mapping_key("card"), "pt_mapping_delete_card_tokenize_data");
    assert_eq!(on_task_insert(true, false), Ok(()));
    assert_eq!(on_task_insert(false, true), Ok(()));
    assert_eq!(on_task_insert(false, false), Err(ApiErrorResponse::InternalServerError));
    assert_eq!(decide_flows(), Err(ApiErrorResponse::NotImplemented));
    assert_eq!(
        build_flow_specific_connector_request(),
        Err(ApiErrorResponse::NotImplemented)
    );
}
