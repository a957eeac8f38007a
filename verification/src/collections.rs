use vstd::prelude::*;
use vstd::string::StringExecFns;

use crate::http::HttpReply;
use crate::identity::Identity;
use crate::session::SessionStore;

verus! {

/// Sort order of a paginated collections listing.
#[derive(Clone, Copy, Debug, PartialEq, Eq)]
pub enum Sorting {
    Title,
    Created,
}

/// Query parameters of the collections read endpoint.
pub struct CollectionsQueryParams {
    pub q: Option<String>,
    pub sort: Option<Sorting>,
    pub url: Option<String>,
    pub limit: Option<u32>,
    pub offset: Option<u32>,
}

/// A document standing above a bookmarked one in the site hierarchy.
pub struct CollectionParent {
    pub uri: String,
    pub title: String,
}

/// What the stored document metadata contributes to a response item: the
/// parent chain and a canonical URL, either of which may be absent.
pub struct DocumentMetadata {
    pub parents: Option<Vec<CollectionParent>>,
    pub mdn_url: Option<String>,
}

/// One stored bookmark row joined with its document, as the storage layer
/// hands it over. The creation instant is a Unix timestamp in seconds.
pub struct CollectionAndDocumentQuery {
    pub id: i64,
    pub uri: String,
    pub title: String,
    pub custom_name: Option<String>,
    pub notes: Option<String>,
    pub created_at: i64,
    pub metadata: Option<DocumentMetadata>,
}

/// One bookmark as the collections endpoints report it.
pub struct CollectionItem {
    pub id: i64,
    pub url: String,
    pub title: String,
    pub notes: Option<String>,
    pub parents: Vec<CollectionParent>,
    pub created: i64,
}

/// Body of the paginated collections listing.
pub struct CollectionsResponse {
    pub items: Vec<CollectionItem>,
    pub csrfmiddlewaretoken: String,
    pub subscription_limit_reached: bool,
}

/// Body of the single-bookmark lookup.
pub struct CollectionResponse {
    pub bookmarked: Option<CollectionItem>,
    pub csrfmiddlewaretoken: String,
    pub subscription_limit_reached: bool,
}

/// Form body that creates or renames a bookmark.
pub struct CollectionCreationForm {
    pub name: String,
    pub notes: Option<String>,
}

/// Query parameters of a bookmark creation.
pub struct CollectionCreationParams {
    pub url: String,
}

/// Form body that asks for a deletion; it must spell confirmation out.
pub struct CollectionDeletionForm {
    pub delete: String,
}

/// Query parameters of a bookmark deletion.
pub struct CollectionDeletionParams {
    pub url: String,
}

/// The one form the mutation endpoint takes: a deletion request or a
/// creation request, told apart by their fields.
pub enum CollectionCreationOrDeletionForm {
    Deletion(CollectionDeletionForm),
    Creation(CollectionCreationForm),
}

/// How a database call failed: a result-shaped miss (no such row), or
/// anything else.
#[derive(Clone, Copy, Debug, PartialEq, Eq)]
pub enum DbError {
    DieselResult,
    Other,
}

/// The error a collections endpoint reports.
#[derive(Clone, Copy, Debug, PartialEq, Eq)]
pub enum ApiError {
    Unknown,
    Database,
}

/// How a response item is shaped from a stored row: the metadata's canonical
/// URL and parent chain override the row's own when present; a custom name
/// overrides the document title; without metadata the title and parents stay
/// empty.
pub open spec fn item_of_query_post(r: CollectionItem, q: CollectionAndDocumentQuery) -> bool {
    &&& r.id == q.id
    &&& r.created == q.created_at
    &&& r.notes == q.notes
    &&& q.metadata matches Some(m) ==> {
        &&& r.title == (match q.custom_name {
            Some(c) => c,
            None => q.title,
        })
        &&& r.url == (match m.mdn_url {
            Some(u) => u,
            None => q.uri,
        })
        &&& (m.parents matches Some(p) ==> r.parents == p)
        &&& (m.parents is None ==> r.parents@ == Seq::<CollectionParent>::empty())
    }
    &&& q.metadata is None ==> {
        &&& r.title@ == Seq::<char>::empty()
        &&& r.url == q.uri
        &&& r.parents@ == Seq::<CollectionParent>::empty()
    }
}

impl CollectionItem {
    /// Shape one stored row into its response form.
    pub fn from(q: CollectionAndDocumentQuery) -> (r: CollectionItem)
        ensures
            item_of_query_post(r, q),
    {
        let CollectionAndDocumentQuery { id, uri, title, custom_name, notes, created_at, metadata }
            = q;
        match metadata {
            Some(m) => {
                let shown_title = match custom_name {
                    Some(c) => c,
                    None => title,
                };
                let url = match m.mdn_url {
                    Some(u) => u,
                    None => uri,
                };
                let parents = match m.parents {
                    Some(p) => p,
                    None => Vec::new(),
                };
                CollectionItem { id, url, title: shown_title, notes, parents, created: created_at }
            },
            None => CollectionItem {
                id,
                url: uri,
                title: String::new(),
                notes,
                parents: Vec::new(),
                created: created_at,
            },
        }
    }
}

/// The single-bookmark lookup's response: a found row is reported as the
/// bookmark, a result-shaped miss as "not bookmarked", any other database
/// failure as an unknown error.
pub fn get_single_collection_item(collection: Result<CollectionAndDocumentQuery, DbError>) -> (r:
    Result<CollectionResponse, ApiError>)
    ensures
        collection matches Ok(q) ==> r matches Ok(resp) && (resp.bookmarked matches Some(item)
            && item_of_query_post(item, q)) && resp.csrfmiddlewaretoken@ == "abc"@
            && !resp.subscription_limit_reached,
        collection == Err::<CollectionAndDocumentQuery, DbError>(DbError::DieselResult) ==> (r
            matches Ok(resp) && resp.bookmarked is None && resp.csrfmiddlewaretoken@ == "abc"@
            && !resp.subscription_limit_reached),
        collection == Err::<CollectionAndDocumentQuery, DbError>(DbError::Other) ==> r
            == Err::<CollectionResponse, ApiError>(ApiError::Unknown),
{
    let bookmarked: Option<CollectionItem> = match collection {
        Ok(q) => Some(CollectionItem::from(q)),
        Err(DbError::DieselResult) => None,
        Err(DbError::Other) => {
            return Err(ApiError::Unknown);
        },
    };
    Ok(
        CollectionResponse {
            bookmarked,
            csrfmiddlewaretoken: "abc".to_owned(),
            subscription_limit_reached: false,
        },
    )
}

/// The paginated listing's response: every returned row is shaped into an
/// item, in order; a database failure is reported as a database error.
pub fn get_paginated_collection_items(
    collection: Result<Vec<CollectionAndDocumentQuery>, DbError>,
) -> (r: Result<CollectionsResponse, ApiError>)
    ensures
        collection matches Ok(v) ==> r matches Ok(resp) && resp.items@.len() == v@.len() && (forall|
            i: int,
        |
            0 <= i < v@.len() ==> item_of_query_post(#[trigger] resp.items@[i], v@[i]))
            && resp.csrfmiddlewaretoken@ == "abc"@ && !resp.subscription_limit_reached,
        collection is Err ==> r == Err::<CollectionsResponse, ApiError>(ApiError::Database),
{
    match collection {
        Ok(v) => {
            let ghost rows = v@;
            let mut v = v;
            let mut items: Vec<CollectionItem> = Vec::new();
            while v.len() > 0
                invariant
                    items@.len() + v@.len() == rows.len(),
                    v@ == rows.subrange(items@.len() as int, rows.len() as int),
                    forall|i: int|
                        0 <= i < items@.len() ==> item_of_query_post(
                            #[trigger] items@[i],
                            rows[i],
                        ),
                decreases v@.len(),
            {
                let q = v.remove(0);
                proof {
                    assert(q == rows[items@.len() as int]);
                }
                items.push(CollectionItem::from(q));
                proof {
                    assert(v@ =~= rows.subrange(items@.len() as int, rows.len() as int));
                }
            }
            Ok(
                CollectionsResponse {
                    items,
                    csrfmiddlewaretoken: "abc".to_owned(),
                    subscription_limit_reached: false,
                },
            )
        },
        Err(_) => Err(ApiError::Database),
    }
}

/// What the read endpoint decides before any storage work: anonymous
/// visitors are turned away; otherwise a named URL selects the single-item
/// lookup and its absence the paginated listing.
pub enum CollectionsRequestPlan {
    Unauthorized,
    SingleItem { url: String },
    Paginated,
}

pub open spec fn collections_plan_post(
    id: Identity,
    query_url: Option<String>,
    plan: CollectionsRequestPlan,
) -> bool {
    &&& (id.user is None <==> plan is Unauthorized)
    &&& id.user is Some ==> (query_url matches Some(u) ==> plan
        matches CollectionsRequestPlan::SingleItem { url } && url@ == u@)
    &&& id.user is Some ==> (query_url is None ==> plan is Paginated)
}

/// The identity gate and dispatch of the collections read endpoint.
pub fn plan_collections_request(id: &Identity, query: &CollectionsQueryParams) -> (r:
    CollectionsRequestPlan)
    ensures
        collections_plan_post(*id, query.url, r),
{
    match &id.user {
        None => CollectionsRequestPlan::Unauthorized,
        Some(_) => match &query.url {
            Some(u) => CollectionsRequestPlan::SingleItem { url: u.clone() },
            None => CollectionsRequestPlan::Paginated,
        },
    }
}

/// What `str::to_lowercase` returns: a function of the characters alone.
pub uninterp spec fn lower_of(s: Seq<char>) -> Seq<char>;

/// Relies on str::to_lowercase of std.
#[verifier::external_body]
fn lowercase(s: &str) -> (r: String)
    ensures
        r@ == lower_of(s@),
{
    s.to_lowercase()
}

/// A deletion form confirms the deletion exactly when its `delete` field,
/// lowercased, reads "true".
pub fn deletion_requested(form: &CollectionDeletionForm) -> (r: bool)
    ensures
        r == (lower_of(form.delete@) == "true"@),
{
    let lowered = lowercase(form.delete.as_str());
    lowered == String::from_str("true")
}

/// What the mutation endpoint does with its form: create from a creation
/// form, delete on a confirmed deletion form, and refuse an unconfirmed one.
pub enum CollectionMutationPlan {
    Create(CollectionCreationForm),
    Delete,
    BadRequest,
}

pub open spec fn mutation_plan_post(
    form: CollectionCreationOrDeletionForm,
    plan: CollectionMutationPlan,
) -> bool {
    &&& form matches CollectionCreationOrDeletionForm::Creation(f) ==> plan
        == CollectionMutationPlan::Create(f)
    &&& form matches CollectionCreationOrDeletionForm::Deletion(d) ==> (plan is Delete <==> lower_of(
        d.delete@,
    ) == "true"@) && (plan is Delete || plan is BadRequest)
}

/// Decide what a creation-or-deletion form asks for.
pub fn plan_collection_mutation(form: CollectionCreationOrDeletionForm) -> (r:
    CollectionMutationPlan)
    ensures
        mutation_plan_post(form, r),
{
    match form {
        CollectionCreationOrDeletionForm::Creation(f) => CollectionMutationPlan::Create(f),
        CollectionCreationOrDeletionForm::Deletion(d) => {
            if deletion_requested(&d) {
                CollectionMutationPlan::Delete
            } else {
                CollectionMutationPlan::BadRequest
            }
        },
    }
}

/// Response of a bookmark creation: the row was written, or the database
/// failed.
pub fn creation_response(db: Result<(), DbError>) -> (r: Result<HttpReply, ApiError>)
    ensures
        db is Ok ==> (r matches Ok(rep) && rep.status == 201 && rep.location is None),
        db is Err ==> r == Err::<HttpReply, ApiError>(ApiError::Database),
{
    match db {
        Ok(_) => Ok(HttpReply::created()),
        Err(_) => Err(ApiError::Database),
    }
}

/// Response of a confirmed bookmark deletion.
pub fn deletion_response(db: Result<(), DbError>) -> (r: Result<HttpReply, ApiError>)
    ensures
        db is Ok ==> (r matches Ok(rep) && rep.status == 200 && rep.location is None),
        db is Err ==> r == Err::<HttpReply, ApiError>(ApiError::Database),
{
    match db {
        Ok(_) => Ok(HttpReply::ok()),
        Err(_) => Err(ApiError::Database),
    }
}

/// Law: after logout the visitor is anonymous, and the identity-gated
/// collections endpoint turns the visitor away.
pub proof fn lemma_logout_leaves_anonymous(
    id: Identity,
    s: SessionStore,
    r: HttpReply,
    query_url: Option<String>,
    plan: CollectionsRequestPlan,
)
    requires
        crate::auth::logout_post(id, s, r),
        collections_plan_post(id, query_url, plan),
    ensures
        id.user is None,
        plan is Unauthorized,
{
}

} // verus!
