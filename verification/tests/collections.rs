use rumba::collections::{
    deletion_requested, get_paginated_collection_items, get_single_collection_item,
    plan_collection_mutation, plan_collections_request, ApiError, CollectionAndDocumentQuery,
    CollectionCreationForm, CollectionDeletionForm, CollectionCreationOrDeletionForm,
    CollectionItem, CollectionMutationPlan, CollectionParent, CollectionsQueryParams,
    CollectionsRequestPlan, DbError, DocumentMetadata,
};
use rumba::identity::Identity;

fn row(id: i64, metadata: Option<DocumentMetadata>) -> CollectionAndDocumentQuery {
    CollectionAndDocumentQuery {
        id,
        uri: "/en-US/docs/Web/A".to_string(),
        title: "A".to_string(),
        custom_name: None,
        notes: None,
        created_at: 1_650_000_000,
        metadata,
    }
}

fn query_with_url(url: Option<&str>) -> CollectionsQueryParams {
    CollectionsQueryParams {
        q: None,
        sort: None,
        url: url.map(|u| u.to_string()),
        limit: None,
        offset: None,
    }
}

#[test]
fn item_takes_metadata_overrides() {
    let mut r = row(7, None);
    r.custom_name = Some("My A".to_string());
    r.notes = Some("a note".to_string());
    r.metadata = Some(DocumentMetadata {
        parents: Some(vec![CollectionParent {
            uri: "/en-US/docs/Web".to_string(),
            title: "Web".to_string(),
        }]),
        mdn_url: Some("/en-US/docs/Web/A2".to_string()),
    });
    let item = CollectionItem::from(r);
    assert_eq!(item.id, 7);
    assert_eq!(item.title, "My A");
    assert_eq!(item.url, "/en-US/docs/Web/A2");
    assert_eq!(item.notes.as_deref(), Some("a note"));
    assert_eq!(item.created, 1_650_000_000);
    assert_eq!(item.parents.len(), 1);
    assert_eq!(item.parents[0].uri, "/en-US/docs/Web");
    assert_eq!(item.parents[0].title, "Web");
}

#[test]
fn item_with_metadata_but_no_overrides_keeps_row_values() {
    let r = row(3, Some(DocumentMetadata { parents: None, mdn_url: None }));
    let item = CollectionItem::from(r);
    assert_eq!(item.title, "A");
    assert_eq!(item.url, "/en-US/docs/Web/A");
    assert!(item.parents.is_empty());
}

#[test]
fn item_without_metadata_has_empty_title_and_parents() {
    let r = row(3, None);
    let item = CollectionItem::from(r);
    assert_eq!(item.title, "");
    assert_eq!(item.url, "/en-US/docs/Web/A");
    assert!(item.parents.is_empty());
    assert_eq!(item.created, 1_650_000_000);
}

#[test]
fn paginated_items_are_shaped_in_order() {
    let rows = vec![row(1, None), row(2, None)];
    let resp = get_paginated_collection_items(Ok(rows)).expect("listing succeeds");
    assert_eq!(resp.items.len(), 2);
    assert_eq!(resp.items[0].id, 1);
    assert_eq!(resp.items[1].id, 2);
    assert_eq!(resp.csrfmiddlewaretoken, "abc");
    assert!(!resp.subscription_limit_reached);
}

#[test]
fn paginated_database_failure_is_reported() {
    let r = get_paginated_collection_items(Err(DbError::Other));
    assert!(matches!(r, Err(ApiError::Database)));
}

#[test]
fn single_item_found_is_bookmarked() {
    let resp = get_single_collection_item(Ok(row(9, None))).expect("lookup succeeds");
    let item = resp.bookmarked.expect("row reported as bookmark");
    assert_eq!(item.id, 9);
    assert_eq!(resp.csrfmiddlewaretoken, "abc");
    assert!(!resp.subscription_limit_reached);
}

#[test]
fn single_item_miss_is_not_bookmarked() {
    let resp = get_single_collection_item(Err(DbError::DieselResult)).expect("a miss still answers");
    assert!(resp.bookmarked.is_none());
    assert_eq!(resp.csrfmiddlewaretoken, "abc");
}

#[test]
fn single_item_other_failure_is_unknown() {
    let r = get_single_collection_item(Err(DbError::Other));
    assert!(matches!(r, Err(ApiError::Unknown)));
}

#[test]
fn anonymous_collections_request_is_unauthorized() {
    let id = Identity { user: None };
    let plan = plan_collections_request(&id, &query_with_url(Some("/x")));
    assert!(matches!(plan, CollectionsRequestPlan::Unauthorized));
}

#[test]
fn collections_request_dispatches_on_url() {
    let id = Identity { user: Some("42".to_string()) };
    match plan_collections_request(&id, &query_with_url(Some("/en-US/docs/Web/A"))) {
        CollectionsRequestPlan::SingleItem { url } => assert_eq!(url, "/en-US/docs/Web/A"),
        _ => panic!("a named url selects the single-item lookup"),
    }
    assert!(matches!(
        plan_collections_request(&id, &query_with_url(None)),
        CollectionsRequestPlan::Paginated
    ));
}

#[test]
fn creation_form_plans_a_creation() {
    let form = CollectionCreationOrDeletionForm::Creation(CollectionCreationForm {
        name: "My A".to_string(),
        notes: Some("a note".to_string()),
    });
    match plan_collection_mutation(form) {
        CollectionMutationPlan::Create(f) => {
            assert_eq!(f.name, "My A");
            assert_eq!(f.notes.as_deref(), Some("a note"));
        },
        _ => panic!("a creation form plans a creation"),
    }
}

#[test]
fn deletion_form_needs_spelled_out_confirmation() {
    for confirmed in ["true", "True", "TRUE", "tRuE"] {
        let form = CollectionCreationOrDeletionForm::Deletion(CollectionDeletionForm {
            delete: confirmed.to_string(),
        });
        assert!(matches!(
            plan_collection_mutation(form),
            CollectionMutationPlan::Delete
        ));
    }
    for refused in ["false", "yes", "", "true "] {
        let form = CollectionCreationOrDeletionForm::Deletion(CollectionDeletionForm {
            delete: refused.to_string(),
        });
        assert!(matches!(
            plan_collection_mutation(form),
            CollectionMutationPlan::BadRequest
        ));
    }
}

#[test]
fn deletion_requested_lowercases_the_field() {
    assert!(deletion_requested(&CollectionDeletionForm { delete: "TrUe".to_string() }));
    assert!(!deletion_requested(&CollectionDeletionForm { delete: "no".to_string() }));
}
