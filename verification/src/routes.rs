//! What the routes decide: who may do what, which operation a request starts,
//! and how the outcome of an operation is answered.

pub mod login;

use vstd::prelude::*;
use vstd::string::StringExecFns;
use crate::auth::tokenizer::Identity;
use crate::db::repository::{begin, first, Finished, Operation, Outcome, Pending};
use crate::db::store::Query;
use crate::db::tracking::middlelayer::{
    create_start, delete_start, last_page_start, paginate_start, read_start, update_start,
    Request, RequestView, Task, TaskView,
};
use crate::db::tracking::{CreateTracking, Tracking, UpdateTracking};
use crate::error::{error_body, ApiError, StoreError, BAD_REQUEST};
use crate::json::{decimal, lemma_plain_text};

verus! {

/// The resources the backend serves.
#[derive(Clone, Copy, Debug, PartialEq, Eq, Structural)]
pub enum Resource {
    Client,
    Project,
    Activity,
    Tracking,
    User,
}

impl Resource {
    /// The name of the resource as it appears in messages.
    pub open spec fn spec_name(self) -> Seq<char> {
        match self {
            Resource::Client => "Client"@,
            Resource::Project => "Project"@,
            Resource::Activity => "Activity"@,
            Resource::Tracking => "Tracking"@,
            Resource::User => "User"@,
        }
    }

    /// The name of the resource as it appears in messages.
    pub fn name(self) -> (text: String)
        ensures
            text@ == self.spec_name(),
    {
        match self {
            Resource::Client => "Client".to_owned(),
            Resource::Project => "Project".to_owned(),
            Resource::Activity => "Activity".to_owned(),
            Resource::Tracking => "Tracking".to_owned(),
            Resource::User => "User".to_owned(),
        }
    }

    /// The message for a record that is there already.
    pub open spec fn spec_already_exists(self) -> Seq<char> {
        self.spec_name() + " already exists"@
    }

    /// The message for a record that is there already.
    pub fn already_exists(self) -> (text: String)
        ensures
            text@ == self.spec_already_exists(),
    {
        self.name().concat(" already exists")
    }
}

/// Whether the identity is an administrator.
pub open spec fn is_admin(identity: &Identity) -> bool {
    identity.sys_role@ == "admin"@
}

/// Whether the identity may act on the user `id`: as that user, or as an administrator.
pub open spec fn is_self_or_admin(identity: &Identity, id: i32) -> bool {
    identity.id == id || is_admin(identity)
}

/// Lets administrators through and nobody else.
pub fn admin_only(identity: &Identity) -> (verdict: Result<(), ApiError>)
    ensures
        is_admin(identity) <==> verdict is Ok,
        verdict is Err ==> verdict->Err_0 is ForbiddenAccess,
{
    let admin = "admin".to_owned();
    if identity.sys_role == admin {
        Ok(())
    } else {
        Err(ApiError::ForbiddenAccess)
    }
}

/// Lets through the user `id` and administrators, and nobody else.
pub fn self_or_admin(identity: &Identity, id: i32) -> (verdict: Result<(), ApiError>)
    ensures
        is_self_or_admin(identity, id) <==> verdict is Ok,
        verdict is Err ==> verdict->Err_0 is ForbiddenAccess,
{
    if identity.id == id {
        Ok(())
    } else {
        admin_only(identity)
    }
}

/// Who may start an operation on a resource. Creating and deleting is for
/// administrators; updating a user is for that user and for administrators;
/// everything else is for every authenticated user.
pub open spec fn may<C, P>(identity: &Identity, resource: Resource, operation: Operation<C, P>) -> bool {
    match operation {
        Operation::Create(_) | Operation::Delete(_) => is_admin(identity),
        Operation::Update(id, _) => resource == Resource::User ==> is_self_or_admin(identity, id),
        _ => true,
    }
}

/// Starts `operation` on `resource` for `identity`, or refuses it.
pub fn start<C, P>(identity: &Identity, resource: Resource, operation: Operation<C, P>) -> (started:
    Result<(Pending, Query<C, P>), ApiError>)
    ensures
        match started {
            Ok(start) => may(identity, resource, operation) && start == first(operation),
            Err(e) => !may(identity, resource, operation) && e is ForbiddenAccess,
        },
{
    let verdict = match &operation {
        Operation::Create(_) => admin_only(identity),
        Operation::Delete(_) => admin_only(identity),
        Operation::Update(id, _) => match resource {
            Resource::User => self_or_admin(identity, *id),
            _ => Ok(()),
        },
        _ => Ok(()),
    };
    match verdict {
        Ok(()) => Ok(begin(operation)),
        Err(e) => Err(e),
    }
}

/// The error a failed operation on `resource` is answered with: "already
/// exists" for a conflict, "not found" for a missing row, a store error otherwise.
pub fn failed(resource: Resource, e: StoreError) -> (error: ApiError)
    ensures
        match e {
            StoreError::Conflict => error is BadRequest && error->BadRequest_0@
                == resource.spec_already_exists(),
            StoreError::NotFound => error is NotFound,
            StoreError::Failure => error is Database && error->Database_0@ == e.spec_describe(),
        },
{
    match e {
        StoreError::Conflict => ApiError::BadRequest(resource.already_exists()),
        _ => ApiError::from_store(e),
    }
}

/// How the outcome of an operation on `resource` is answered.
pub fn answer<R>(resource: Resource, finished: Finished<R>) -> (reply: Result<Outcome<R>, ApiError>)
    ensures
        match finished {
            Ok(outcome) => reply == Ok::<Outcome<R>, ApiError>(outcome),
            Err(StoreError::Conflict) => reply is Err && reply->Err_0 is BadRequest
                && reply->Err_0->BadRequest_0@ == resource.spec_already_exists(),
            Err(StoreError::NotFound) => reply is Err && reply->Err_0 is NotFound,
            Err(StoreError::Failure) => reply is Err && reply->Err_0 is Database
                && reply->Err_0->Database_0@ == StoreError::Failure.spec_describe(),
        },
{
    match finished {
        Ok(outcome) => Ok(outcome),
        Err(e) => Err(failed(resource, e)),
    }
}

/// The listing of the last page: once the index of the last page is known, the
/// page with that index is listed. The two are separate exchanges with the
/// store; rows that come or go between them show in the second only.
pub fn last_page_listing<C, P>(last_page: i64, page_size: i64) -> (start: (Pending, Query<C, P>))
    ensures
        start == first::<C, P>(Operation::Paginate { page: last_page, page_size }),
{
    begin(Operation::Paginate { page: last_page, page_size })
}

/// The task and first request of an operation on time trackings.
pub open spec fn first_of_tracking(operation: Operation<CreateTracking, UpdateTracking>) -> (
    TaskView,
    RequestView,
) {
    match operation {
        Operation::Create(item) => create_start(item),
        Operation::Read(id) => read_start(id),
        Operation::Update(id, patch) => update_start(id, patch),
        Operation::Delete(id) => delete_start(id),
        Operation::Paginate { page, page_size } => paginate_start(page, page_size),
        Operation::LastPage { page_size } => last_page_start(page_size),
    }
}

/// Starts `operation` on the time trackings for `identity`, or refuses it.
pub fn start_tracking(identity: &Identity, operation: Operation<CreateTracking, UpdateTracking>) -> (started:
    Result<(Task, Request), ApiError>)
    ensures
        match started {
            Ok(start) => may(identity, Resource::Tracking, operation) && (start.0@, start.1@)
                == first_of_tracking(operation),
            Err(e) => !may(identity, Resource::Tracking, operation) && e is ForbiddenAccess,
        },
{
    match operation {
        Operation::Create(item) => match admin_only(identity) {
            Ok(()) => Ok(Tracking::create(item)),
            Err(e) => Err(e),
        },
        Operation::Delete(id) => match admin_only(identity) {
            Ok(()) => Ok(Tracking::delete(id)),
            Err(e) => Err(e),
        },
        Operation::Read(id) => Ok(Tracking::read(id)),
        Operation::Update(id, patch) => Ok(Tracking::update(id, patch)),
        Operation::Paginate { page, page_size } => Ok(Tracking::paginate(page, page_size)),
        Operation::LastPage { page_size } => Ok(Tracking::last_page(page_size)),
    }
}

/// The body a second client of the same name is answered with, to the letter.
pub proof fn lemma_client_conflict_body()
    ensures
        error_body(BAD_REQUEST, Resource::Client.spec_already_exists())
            == "{\"error\":\"Client already exists\",\"code\":400}"@,
{
    reveal_strlit("Client");
    reveal_strlit(" already exists");
    reveal_strlit("{\"error\":");
    reveal_strlit(",\"code\":");
    reveal_strlit("}");
    reveal_strlit("{\"error\":\"Client already exists\",\"code\":400}");
    let text = Resource::Client.spec_already_exists();
    assert(text =~= seq![
        'C', 'l', 'i', 'e', 'n', 't', ' ', 'a', 'l', 'r', 'e', 'a', 'd', 'y', ' ', 'e', 'x', 'i',
        's', 't', 's',
    ]);
    lemma_plain_text(text);
    assert(decimal(400) =~= seq!['4', '0', '0']) by {
        reveal_with_fuel(decimal, 3);
    }
    assert(error_body(BAD_REQUEST, text)
        =~= "{\"error\":\"Client already exists\",\"code\":400}"@);
}

} // verus!
