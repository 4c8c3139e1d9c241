use zeiterfassung_backend::auth::tokenizer::{Identity, Tokenizer};
use zeiterfassung_backend::catchers::default_catcher;
use zeiterfassung_backend::db::activity::{Activity, CreateActivity, UpdateActivity};
use zeiterfassung_backend::db::client::{Client, CreateClient, UpdateClient};
use zeiterfassung_backend::db::project::{CreateProject, Project, UpdateProject};
use zeiterfassung_backend::db::repository::{
    begin, resume, Finished, Operation, Outcome, Pending, Step,
};
use zeiterfassung_backend::db::store::{Answer, Query, Record, Reply};
use zeiterfassung_backend::db::tracking::middlelayer;
use zeiterfassung_backend::db::tracking::middlelayer::{Request, Response, Task};
use zeiterfassung_backend::db::tracking::tracking::{
    CreateTracking as CreateTrackingDB, Tracking as TrackingDB, UpdateTracking as UpdateTrackingDB,
};
use zeiterfassung_backend::db::tracking::tracking_to_activity::{
    gather, CreateTrackingToActivity, GatherRequest, GatherResponse, Gathering, LinkQuery,
    TrackingToActivity, UpdateTrackingToActivity,
};
use zeiterfassung_backend::db::tracking::{CreateTracking, Tracking, UpdateTracking};
use zeiterfassung_backend::db::user::{CreateUser, UpdateUser, User, UserQuery};
use zeiterfassung_backend::db::values::{Hours, TimeOfDay};
use zeiterfassung_backend::db::PaginationResult;
use zeiterfassung_backend::error::{ApiError, ErrorJson, StoreError};
use zeiterfassung_backend::guard::from_request;
use zeiterfassung_backend::routes;
use zeiterfassung_backend::routes::login::{post_login, Login};
use zeiterfassung_backend::routes::Resource;

// ---------------------------------------------------------------------------
// A store in memory that answers as a well-behaved relational store does.
// ---------------------------------------------------------------------------

trait Row: Record + Clone {
    fn id_of(&self) -> i32;
    fn make(item: &Self::Create, id: i32, now: i64) -> Self;
    fn apply(&mut self, patch: &Self::Patch, now: i64);
    fn collides(&self, item: &Self::Create) -> bool;
}

fn write<T: Clone>(target: &mut T, patch: &Option<T>) {
    if let Some(value) = patch {
        *target = value.clone();
    }
}

impl Row for Client {
    fn id_of(&self) -> i32 {
        self.id
    }
    fn make(item: &CreateClient, id: i32, now: i64) -> Self {
        Client { id, name: item.name.clone(), created_at: now, updated_at: now }
    }
    fn apply(&mut self, patch: &UpdateClient, now: i64) {
        write(&mut self.name, &patch.name);
        self.updated_at = now;
    }
    fn collides(&self, item: &CreateClient) -> bool {
        self.name == item.name
    }
}

impl Row for Project {
    fn id_of(&self) -> i32 {
        self.id
    }
    fn make(item: &CreateProject, id: i32, now: i64) -> Self {
        Project {
            id,
            client_id: item.client_id,
            name: item.name.clone(),
            created_at: now,
            updated_at: now,
        }
    }
    fn apply(&mut self, patch: &UpdateProject, now: i64) {
        write(&mut self.name, &patch.name);
        self.updated_at = now;
    }
    fn collides(&self, _item: &CreateProject) -> bool {
        false
    }
}

impl Row for Activity {
    fn id_of(&self) -> i32 {
        self.id
    }
    fn make(item: &CreateActivity, id: i32, now: i64) -> Self {
        Activity {
            id,
            token: item.token.clone(),
            name: item.name.clone(),
            created_at: now,
            updated_at: now,
        }
    }
    fn apply(&mut self, patch: &UpdateActivity, now: i64) {
        write(&mut self.token, &patch.token);
        write(&mut self.name, &patch.name);
        self.updated_at = now;
    }
    fn collides(&self, item: &CreateActivity) -> bool {
        self.name == item.name
    }
}

impl Row for User {
    fn id_of(&self) -> i32 {
        self.id
    }
    fn make(item: &CreateUser, id: i32, now: i64) -> Self {
        User {
            id,
            username: item.username.clone(),
            firstname: item.firstname.clone(),
            lastname: item.lastname.clone(),
            email: item.email.clone(),
            hash: item.hash.clone(),
            sys_role: item.sys_role.clone(),
            created_at: now,
            updated_at: now,
        }
    }
    fn apply(&mut self, patch: &UpdateUser, now: i64) {
        write(&mut self.username, &patch.username);
        write(&mut self.firstname, &patch.firstname);
        write(&mut self.lastname, &patch.lastname);
        write(&mut self.email, &patch.email);
        write(&mut self.hash, &patch.hash);
        write(&mut self.sys_role, &patch.sys_role);
        self.updated_at = now;
    }
    fn collides(&self, item: &CreateUser) -> bool {
        self.email == item.email
    }
}

impl Row for TrackingDB {
    fn id_of(&self) -> i32 {
        self.id
    }
    fn make(item: &CreateTrackingDB, id: i32, now: i64) -> Self {
        TrackingDB {
            id,
            client_id: item.client_id,
            user_id: item.user_id,
            project_id: item.project_id,
            date: item.date,
            begin: item.begin,
            end: item.end,
            pause: item.pause,
            performed: item.performed,
            billed: item.billed,
            description: item.description.clone(),
            created_at: now,
            updated_at: now,
        }
    }
    fn apply(&mut self, patch: &UpdateTrackingDB, now: i64) {
        write(&mut self.client_id, &patch.client_id);
        write(&mut self.user_id, &patch.user_id);
        write(&mut self.project_id, &patch.project_id);
        write(&mut self.date, &patch.date);
        write(&mut self.begin, &patch.begin);
        write(&mut self.end, &patch.end);
        write(&mut self.pause, &patch.pause);
        write(&mut self.performed, &patch.performed);
        write(&mut self.billed, &patch.billed);
        write(&mut self.description, &patch.description);
        self.updated_at = now;
    }
    fn collides(&self, _item: &CreateTrackingDB) -> bool {
        false
    }
}

impl Row for TrackingToActivity {
    fn id_of(&self) -> i32 {
        self.id
    }
    fn make(item: &CreateTrackingToActivity, id: i32, _now: i64) -> Self {
        TrackingToActivity { id, tracking_id: item.tracking_id, activity_id: item.activity_id }
    }
    fn apply(&mut self, patch: &UpdateTrackingToActivity, _now: i64) {
        write(&mut self.tracking_id, &patch.tracking_id);
        write(&mut self.activity_id, &patch.activity_id);
    }
    fn collides(&self, _item: &CreateTrackingToActivity) -> bool {
        false
    }
}

struct Table<R> {
    rows: Vec<R>,
    last_id: i32,
    /// The number of inserts after which every further insert fails.
    inserts_left: Option<usize>,
}

impl<R: Row> Table<R> {
    fn new() -> Self {
        Table { rows: Vec::new(), last_id: 0, inserts_left: None }
    }

    fn serve(&mut self, query: Query<R::Create, R::Patch>, now: i64) -> Reply<R> {
        match query {
            Query::Insert(item) => {
                if self.rows.iter().any(|row| row.collides(&item)) {
                    return Err(StoreError::Conflict);
                }
                if self.inserts_left == Some(0) || self.last_id == i32::MAX {
                    return Err(StoreError::Failure);
                }
                if let Some(left) = self.inserts_left {
                    self.inserts_left = Some(left - 1);
                }
                self.last_id += 1;
                let row = R::make(&item, self.last_id, now);
                self.rows.push(row.clone());
                Ok(Answer::Row(row))
            }
            Query::Get(id) => match self.rows.iter().find(|row| row.id_of() == id) {
                Some(row) => Ok(Answer::Row(row.clone())),
                None => Err(StoreError::NotFound),
            },
            Query::Patch(id, patch) => match self.rows.iter_mut().find(|row| row.id_of() == id) {
                Some(row) => {
                    row.apply(&patch, now);
                    Ok(Answer::Row(row.clone()))
                }
                None => Err(StoreError::NotFound),
            },
            Query::Remove(id) => {
                let before = self.rows.len();
                self.rows.retain(|row| row.id_of() != id);
                Ok(Answer::Removed(before - self.rows.len()))
            }
            Query::Count => Ok(Answer::Count(self.rows.len() as i64)),
            Query::Page { limit, offset } => {
                if limit < 0 || offset < 0 {
                    return Err(StoreError::Failure);
                }
                let rows = self.rows.iter().skip(offset as usize).take(limit as usize);
                Ok(Answer::Rows(rows.cloned().collect()))
            }
        }
    }

    fn run(&mut self, start: (Pending, Query<R::Create, R::Patch>), now: i64) -> Finished<R> {
        let (mut pending, mut query) = start;
        let mut rounds = 0;
        loop {
            rounds += 1;
            assert!(rounds <= 2, "an operation on one table asks at most twice");
            let reply = self.serve(query, now);
            match resume::<R, R::Create, R::Patch>(pending, reply) {
                Step::Done(finished) => return finished,
                Step::Ask(then, next) => {
                    pending = then;
                    query = next;
                }
            }
        }
    }
}

fn serve_links(links: &mut Table<TrackingToActivity>, query: LinkQuery, now: i64) -> Reply<TrackingToActivity> {
    match query {
        LinkQuery::Table(query) => links.serve(query, now),
        LinkQuery::RemoveOf(id) => {
            let before = links.rows.len();
            links.rows.retain(|row| row.tracking_id != id);
            Ok(Answer::Removed(before - links.rows.len()))
        }
        LinkQuery::ListOf(id) => Ok(Answer::Rows(
            links.rows.iter().filter(|row| row.tracking_id == id).cloned().collect(),
        )),
        LinkQuery::ListOfAll(ids) => Ok(Answer::Rows(
            links.rows.iter().filter(|row| ids.contains(&row.tracking_id)).cloned().collect(),
        )),
    }
}

struct Store {
    clients: Table<Client>,
    projects: Table<Project>,
    activities: Table<Activity>,
    users: Table<User>,
    trackings: Table<TrackingDB>,
    links: Table<TrackingToActivity>,
    clock: i64,
    requests: Vec<String>,
}

impl Store {
    fn new() -> Self {
        Store {
            clients: Table::new(),
            projects: Table::new(),
            activities: Table::new(),
            users: Table::new(),
            trackings: Table::new(),
            links: Table::new(),
            clock: 1_000,
            requests: Vec::new(),
        }
    }

    fn tick(&mut self) -> i64 {
        self.clock += 1;
        self.clock
    }

    fn serve(&mut self, request: Request) -> Response {
        let now = self.tick();
        self.requests.push(format!("{:?}", request));
        match request {
            Request::Tracking(query) => Response::Tracking(self.trackings.serve(query, now)),
            Request::Link(query) => Response::Link(serve_links(&mut self.links, query, now)),
        }
    }

    fn run(&mut self, start: (Task, Request)) -> middlelayer::Finished {
        let (mut task, mut request) = start;
        loop {
            let response = self.serve(request);
            match middlelayer::resume(task, response) {
                Step::Done(finished) => return finished,
                Step::Ask(then, next) => {
                    task = then;
                    request = next;
                }
            }
        }
    }

    fn find_user(&self, query: UserQuery) -> Reply<User> {
        match query {
            UserQuery::ByEmail(email) => match self.users.rows.iter().find(|u| u.email == email) {
                Some(user) => Ok(Answer::Row(user.clone())),
                None => Err(StoreError::NotFound),
            },
            UserQuery::Table(_) => Err(StoreError::Failure),
        }
    }

    fn activities_of(&self, tracking_id: i32) -> Vec<i32> {
        self.links
            .rows
            .iter()
            .filter(|row| row.tracking_id == tracking_id)
            .map(|row| row.activity_id)
            .collect()
    }
}

fn row<R>(finished: Finished<R>) -> R {
    match finished {
        Ok(Outcome::Row(row)) => row,
        _ => panic!("a row was expected"),
    }
}

fn page<R>(finished: Finished<R>) -> PaginationResult<R> {
    match finished {
        Ok(Outcome::Page(page)) => page,
        _ => panic!("a page was expected"),
    }
}

fn client(name: &str) -> CreateClient {
    CreateClient { name: name.to_string() }
}

fn filled_clients(n: usize) -> Table<Client> {
    let mut table: Table<Client> = Table::new();
    for i in 0..n {
        row(table.run(Client::create(client(&format!("Client {}", i))), 50 + i as i64));
    }
    table
}

fn time(secs: u32) -> TimeOfDay {
    TimeOfDay { secs, nanos: 0 }
}

fn hours(value: f32) -> Hours {
    Hours { bits: value.to_bits() }
}

fn tracking(activities: Vec<i32>) -> CreateTracking {
    CreateTracking {
        client_id: 1,
        user_id: 2,
        project_id: 3,
        date: 738_000,
        begin: time(8 * 3600),
        end: time(16 * 3600 + 1800),
        pause: Some(time(1800)),
        performed: hours(8.0),
        billed: hours(7.5),
        description: Some("on site".to_string()),
        activities,
    }
}

// ---------------------------------------------------------------------------
// The operations of one table.
// ---------------------------------------------------------------------------

#[test]
fn operations_start_with_the_query_they_stand_for() {
    assert_eq!(Client::create(client("Acme")), (Pending::Row, Query::Insert(client("Acme"))));
    assert_eq!(Client::read(4), (Pending::Row, Query::Get(4)));
    let patch = UpdateClient { name: Some("New".to_string()), ..Default::default() };
    assert_eq!(Client::update(4, patch.clone()), (Pending::Row, Query::Patch(4, patch)));
    assert_eq!(Client::delete(4), (Pending::Removal, Query::Remove(4)));
    assert_eq!(
        Client::paginate(2, 5),
        (Pending::Counting { page: 2, page_size: 5 }, Query::Count)
    );
    assert_eq!(
        Client::paginate(2, 0),
        (Pending::Counting { page: 2, page_size: 1 }, Query::Count)
    );
    assert_eq!(Client::last_page(5), (Pending::LastPage { page_size: 5 }, Query::Count));
    assert_eq!(Client::last_page(-5), (Pending::LastPage { page_size: 1 }, Query::Count));
    assert_eq!(
        begin::<CreateClient, UpdateClient>(Operation::Read(9)),
        (Pending::Row, Query::Get(9))
    );
}

#[test]
fn a_reply_ends_or_continues_an_operation() {
    type S = Step<Pending, Query<CreateClient, UpdateClient>, Finished<Client>>;
    let acme = Client { id: 1, name: "Acme".to_string(), created_at: 5, updated_at: 5 };
    let step: S = resume(Pending::Row, Ok(Answer::Row(acme.clone())));
    assert_eq!(step, Step::Done(Ok(Outcome::Row(acme.clone()))));
    let step: S = resume(Pending::Rows, Ok(Answer::Rows(vec![acme.clone()])));
    assert_eq!(step, Step::Done(Ok(Outcome::Rows(vec![acme.clone()]))));
    let step: S = resume(Pending::Removal, Ok(Answer::Removed(1)));
    assert_eq!(step, Step::Done(Ok(Outcome::Removed(1))));
    let step: S = resume(Pending::Counting { page: 2, page_size: 5 }, Ok(Answer::Count(13)));
    assert_eq!(
        step,
        Step::Ask(
            Pending::Fetching { page: 2, page_size: 5, total_items: 13 },
            Query::Page { limit: 5, offset: 10 }
        )
    );
    let step: S = resume(
        Pending::Fetching { page: 2, page_size: 5, total_items: 13 },
        Ok(Answer::Rows(vec![acme.clone()])),
    );
    assert_eq!(
        step,
        Step::Done(Ok(Outcome::Page(PaginationResult {
            items: vec![acme.clone()],
            total_items: 13,
            page: 2,
            page_size: 5,
            num_pages: 3,
        })))
    );
    let step: S = resume(Pending::LastPage { page_size: 5 }, Ok(Answer::Count(13)));
    assert_eq!(step, Step::Done(Ok(Outcome::LastPage(2))));
}

#[test]
fn a_failure_of_the_store_ends_an_operation_with_that_failure() {
    type S = Step<Pending, Query<CreateClient, UpdateClient>, Finished<Client>>;
    for pending in [
        Pending::Row,
        Pending::Rows,
        Pending::Removal,
        Pending::Counting { page: 0, page_size: 5 },
        Pending::Fetching { page: 0, page_size: 5, total_items: 1 },
        Pending::LastPage { page_size: 5 },
    ] {
        for e in [StoreError::NotFound, StoreError::Conflict, StoreError::Failure] {
            let step: S = resume(pending, Err(e));
            assert_eq!(step, Step::Done(Err(e)));
        }
    }
}

#[test]
fn an_answer_of_the_wrong_kind_ends_an_operation_with_a_failure() {
    type S = Step<Pending, Query<CreateClient, UpdateClient>, Finished<Client>>;
    let failure: S = Step::Done(Err(StoreError::Failure));
    assert_eq!(resume::<Client, _, _>(Pending::Row, Ok(Answer::Count(1))), failure);
    assert_eq!(resume::<Client, _, _>(Pending::Row, Ok(Answer::Rows(vec![]))), failure);
    assert_eq!(resume::<Client, _, _>(Pending::Removal, Ok(Answer::Count(1))), failure);
    assert_eq!(resume::<Client, _, _>(Pending::Rows, Ok(Answer::Removed(1))), failure);
    assert_eq!(
        resume::<Client, _, _>(Pending::Counting { page: 0, page_size: 5 }, Ok(Answer::Removed(1))),
        failure
    );
    assert_eq!(
        resume::<Client, _, _>(Pending::Counting { page: 0, page_size: 5 }, Ok(Answer::Count(-1))),
        failure
    );
    assert_eq!(
        resume::<Client, _, _>(Pending::LastPage { page_size: 5 }, Ok(Answer::Count(-1))),
        failure
    );
    assert_eq!(
        resume::<Client, _, _>(
            Pending::Fetching { page: 0, page_size: 5, total_items: 1 },
            Ok(Answer::Count(1))
        ),
        failure
    );
}

#[test]
fn create_then_read_returns_the_payload() {
    let mut clients: Table<Client> = Table::new();
    let made = row(clients.run(Client::create(client("Acme")), 100));
    assert_eq!(made, Client { id: 1, name: "Acme".to_string(), created_at: 100, updated_at: 100 });
    assert!(made.matches(&client("Acme")));
    assert_eq!(row(clients.run(Client::read(made.id), 200)), made);

    let mut users: Table<User> = Table::new();
    let payload = CreateUser {
        username: "ada".to_string(),
        firstname: "Ada".to_string(),
        lastname: "Lovelace".to_string(),
        email: "ada@example.com".to_string(),
        hash: "$argon2id$x".to_string(),
        sys_role: "user".to_string(),
    };
    let made = row(users.run(User::create(payload.clone()), 100));
    assert!(made.matches(&payload));
    assert_eq!(made.hash, payload.hash);
    assert_eq!(row(users.run(User::read(made.id), 200)), made);
    assert!(made.same_as(&row(users.run(User::read(made.id), 300))));

    let mut activities: Table<Activity> = Table::new();
    let payload = CreateActivity { token: Some("T-1".to_string()), name: "Planning".to_string() };
    let made = row(activities.run(Activity::create(payload.clone()), 100));
    assert!(made.matches(&payload));
    assert_eq!(row(activities.run(Activity::read(made.id), 200)), made);

    let mut projects: Table<Project> = Table::new();
    let payload = CreateProject { client_id: 9, name: "Bridge".to_string() };
    let made = row(projects.run(Project::create(payload.clone()), 100));
    assert!(made.matches(&payload));
    assert_eq!(row(projects.run(Project::read(made.id), 200)), made);
}

#[test]
fn reading_twice_returns_the_same() {
    let mut clients = filled_clients(3);
    let once = clients.run(Client::read(2), 100);
    let twice = clients.run(Client::read(2), 200);
    assert_eq!(once, twice);
    assert!(once.is_ok());
    assert_eq!(clients.run(Client::read(9), 100), Err(StoreError::NotFound));
    assert_eq!(clients.run(Client::read(9), 200), Err(StoreError::NotFound));
}

#[test]
fn update_writes_the_patched_fields_and_no_others() {
    let mut users: Table<User> = Table::new();
    let payload = CreateUser {
        username: "ada".to_string(),
        firstname: "Ada".to_string(),
        lastname: "Lovelace".to_string(),
        email: "ada@example.com".to_string(),
        hash: "h".to_string(),
        sys_role: "user".to_string(),
    };
    let made = row(users.run(User::create(payload), 100));
    let patch = UpdateUser { username: Some("countess".to_string()), ..Default::default() };
    let updated = row(users.run(User::update(made.id, patch), 300));
    assert_eq!(updated.username, "countess");
    assert_eq!(updated.firstname, made.firstname);
    assert_eq!(updated.lastname, made.lastname);
    assert_eq!(updated.email, made.email);
    assert_eq!(updated.hash, made.hash);
    assert_eq!(updated.sys_role, made.sys_role);
    assert_eq!(updated.id, made.id);
    assert_eq!(updated.created_at, 100);
    assert_eq!(updated.updated_at, 300);
    assert_eq!(row(users.run(User::read(made.id), 400)), updated);
    assert_eq!(
        users.run(User::update(77, UpdateUser::default()), 500),
        Err(StoreError::NotFound)
    );
}

#[test]
fn a_patch_can_clear_a_column_or_leave_it() {
    let mut activities: Table<Activity> = Table::new();
    let payload = CreateActivity { token: Some("T-1".to_string()), name: "Planning".to_string() };
    let made = row(activities.run(Activity::create(payload), 100));
    let leave = UpdateActivity { name: Some("Audit".to_string()), ..Default::default() };
    let updated = row(activities.run(Activity::update(made.id, leave), 200));
    assert_eq!(updated.token, Some("T-1".to_string()));
    let clear = UpdateActivity { token: Some(None), ..Default::default() };
    let updated = row(activities.run(Activity::update(made.id, clear), 300));
    assert_eq!(updated.token, None);
    assert_eq!(updated.name, "Audit");
}

#[test]
fn delete_returns_the_number_of_rows_removed() {
    let mut clients = filled_clients(3);
    assert_eq!(clients.run(Client::delete(2), 100), Ok(Outcome::Removed(1)));
    assert_eq!(clients.run(Client::delete(2), 200), Ok(Outcome::Removed(0)));
    assert_eq!(clients.run(Client::read(2), 300), Err(StoreError::NotFound));
    assert!(clients.run(Client::read(1), 300).is_ok());
    assert!(clients.run(Client::read(3), 300).is_ok());
}

#[test]
fn a_duplicate_is_a_conflict() {
    let mut clients: Table<Client> = Table::new();
    assert_eq!(row(clients.run(Client::create(client("Acme")), 100)).id, 1);
    assert_eq!(clients.run(Client::create(client("Acme")), 200), Err(StoreError::Conflict));
    let answer = routes::answer(Resource::Client, clients.run(Client::create(client("Acme")), 300));
    let error = answer.unwrap_err();
    assert_eq!(error.to_status(), 400);
    assert_eq!(error.to_json(), "{\"error\":\"Client already exists\",\"code\":400}");
}

#[test]
fn thirteen_rows_make_two_pages_of_five_and_one_of_three() {
    let mut clients = filled_clients(13);
    let first = page(clients.run(Client::paginate(0, 5), 100));
    let second = page(clients.run(Client::paginate(1, 5), 100));
    let third = page(clients.run(Client::paginate(2, 5), 100));
    assert_eq!(first.items.len(), 5);
    assert_eq!(second.items.len(), 5);
    assert_eq!(third.items.len(), 3);
    for listed in [&first, &second, &third] {
        assert_eq!(listed.num_pages, 3);
        assert_eq!(listed.total_items, 13);
        assert_eq!(listed.page_size, 5);
    }
    assert_eq!(first.page, 0);
    assert_eq!(second.page, 1);
    assert_eq!(third.page, 2);
    let ids: Vec<i32> = first.items.iter().chain(&second.items).chain(&third.items).map(|c| c.id).collect();
    assert_eq!(ids, (1..=13).collect::<Vec<i32>>());
    assert_eq!(page(clients.run(Client::paginate(3, 5), 100)).items.len(), 0);
}

#[test]
fn the_pages_of_a_table_add_up_to_its_rows() {
    for rows in [0usize, 1, 4, 5, 6, 13] {
        for page_size in [-2i64, 0, 1, 2, 5, 13, 20] {
            let mut clients = filled_clients(rows);
            let size = if page_size < 1 { 1 } else { page_size };
            let pages = page(clients.run(Client::paginate(0, page_size), 100)).num_pages;
            let mut seen = 0;
            for index in 0..pages {
                let listed = page(clients.run(Client::paginate(index, page_size), 100));
                assert!(listed.items.len() as i64 <= size);
                assert_eq!(listed.page_size, size);
                assert_eq!(listed.total_items, rows as i64);
                seen += listed.items.len();
            }
            assert_eq!(seen, rows);
        }
    }
}

#[test]
fn listing_is_stable_between_writes() {
    let mut clients = filled_clients(7);
    let once = clients.run(Client::paginate(1, 3), 100);
    let twice = clients.run(Client::paginate(1, 3), 200);
    assert_eq!(once, twice);
}

#[test]
fn the_last_page_of_a_table_with_rows_is_not_empty() {
    for rows in [1usize, 4, 5, 6, 13] {
        for page_size in [0i64, 1, 2, 5, 13, 20] {
            let mut clients = filled_clients(rows);
            let last = match clients.run(Client::last_page(page_size), 100) {
                Ok(Outcome::LastPage(index)) => index,
                _ => panic!("an index was expected"),
            };
            let start = routes::last_page_listing::<CreateClient, UpdateClient>(last, page_size);
            assert_eq!(start, Client::paginate(last, page_size));
            let listed = page(clients.run(start, 200));
            assert!(!listed.items.is_empty());
            assert_eq!(listed.page, listed.num_pages - 1);
            assert_eq!(listed.items.last().map(|c| c.id), Some(rows as i32));
        }
    }
}

#[test]
fn the_last_page_of_an_empty_table_is_before_the_first() {
    let mut clients: Table<Client> = Table::new();
    assert_eq!(clients.run(Client::last_page(5), 100), Ok(Outcome::LastPage(-1)));
    assert_eq!(clients.run(Client::paginate(-1, 5), 100), Err(StoreError::Failure));
}

#[test]
fn rows_that_come_between_last_page_and_listing_show_in_the_listing_only() {
    let mut clients = filled_clients(5);
    let last = match clients.run(Client::last_page(5), 100) {
        Ok(Outcome::LastPage(index)) => index,
        _ => panic!("an index was expected"),
    };
    assert_eq!(last, 0);
    row(clients.run(Client::create(client("Latecomer")), 150));
    let listed = page(clients.run(Client::paginate(last, 5), 200));
    assert_eq!(listed.num_pages, 2);
    assert_eq!(listed.page, 0);
    assert_eq!(listed.items.len(), 5);
}

#[test]
fn a_page_far_beyond_the_table_is_empty() {
    let mut clients = filled_clients(3);
    let listed = page(clients.run(Client::paginate(i64::MAX, 2), 100));
    assert_eq!(listed.items.len(), 0);
    assert_eq!(listed.total_items, 3);
    assert_eq!(listed.num_pages, 2);
}

// ---------------------------------------------------------------------------
// Time trackings and their activities.
// ---------------------------------------------------------------------------

#[test]
fn creating_a_tracking_inserts_the_row_and_then_a_join_row_for_each_activity() {
    let payload = tracking(vec![7, 3, 5]);
    let (task, request) = Tracking::create(payload.clone());
    assert_eq!(task, Task::Inserting { activities: vec![7, 3, 5] });
    let (row_payload, _) = payload.clone().split();
    assert_eq!(request, Request::Tracking(Query::Insert(row_payload.clone())));

    let stored = TrackingDB::make(&row_payload, 11, 77);
    let mut step = middlelayer::resume(task, Response::Tracking(Ok(Answer::Row(stored.clone()))));
    for (index, activity_id) in [7, 3, 5].into_iter().enumerate() {
        let (task, request) = match step {
            Step::Ask(task, request) => (task, request),
            Step::Done(_) => panic!("join rows are left"),
        };
        assert_eq!(
            request,
            Request::Link(LinkQuery::Table(Query::Insert(CreateTrackingToActivity {
                tracking_id: 11,
                activity_id,
            })))
        );
        assert!(matches!(&task, Task::Linking { id: 11, done, .. } if *done == index));
        let link = TrackingToActivity { id: 100 + index as i32, tracking_id: 11, activity_id };
        step = middlelayer::resume(task, Response::Link(Ok(Answer::Row(link))));
    }
    let made = match step {
        Step::Done(Ok(Outcome::Row(made))) => made,
        _ => panic!("the tracking was expected"),
    };
    assert_eq!(made, Tracking::new(stored, vec![7, 3, 5]));
    assert!(made.matches(&payload));
}

#[test]
fn create_then_read_returns_the_tracking_with_its_activities() {
    let mut store = Store::new();
    let payload = tracking(vec![4, 2, 9]);
    let made = row(store.run(Tracking::create(payload.clone())));
    assert!(made.matches(&payload));
    assert_eq!(made.id, 1);
    assert_eq!(made.activities, vec![4, 2, 9]);
    assert_eq!(store.activities_of(1), vec![4, 2, 9]);
    let read = row(store.run(Tracking::read(made.id)));
    assert_eq!(read, made);
    assert_eq!(row(store.run(Tracking::read(made.id))), read);
    assert_eq!(store.run(Tracking::read(99)), Err(StoreError::NotFound));
}

#[test]
fn a_tracking_without_activities_is_created_with_one_request() {
    let mut store = Store::new();
    let made = row(store.run(Tracking::create(tracking(vec![]))));
    assert_eq!(made.activities, Vec::<i32>::new());
    assert_eq!(store.requests.len(), 1);
}

#[test]
fn a_failure_on_the_way_leaves_what_was_written() {
    let mut store = Store::new();
    store.links.inserts_left = Some(2);
    let outcome = store.run(Tracking::create(tracking(vec![4, 2, 9, 6])));
    assert_eq!(outcome, Err(StoreError::Failure));
    assert_eq!(store.trackings.rows.len(), 1);
    assert_eq!(store.activities_of(1), vec![4, 2]);
    assert_eq!(store.requests.len(), 4);
}

#[test]
fn a_failure_to_insert_the_row_ends_the_creation() {
    let mut store = Store::new();
    store.trackings.inserts_left = Some(0);
    assert_eq!(store.run(Tracking::create(tracking(vec![4]))), Err(StoreError::Failure));
    assert_eq!(store.requests.len(), 1);
    assert!(store.links.rows.is_empty());
}

#[test]
fn an_update_replaces_the_activities_whatever_they_were() {
    for before in [vec![], vec![2, 5, 7], vec![5, 9], vec![1, 3], vec![7, 5, 2]] {
        let mut store = Store::new();
        let other = row(store.run(Tracking::create(tracking(vec![8, 9]))));
        let made = row(store.run(Tracking::create(tracking(before))));
        let patch = UpdateTracking { activities: Some(vec![2, 5, 7]), ..Default::default() };
        let updated = row(store.run(Tracking::update(made.id, patch)));
        assert_eq!(updated.activities, vec![2, 5, 7]);
        let read = row(store.run(Tracking::read(made.id)));
        assert_eq!(read.activities, vec![2, 5, 7]);
        assert_eq!(read, updated);
        assert_eq!(row(store.run(Tracking::read(other.id))).activities, vec![8, 9]);
    }
}

#[test]
fn an_update_with_only_activities_reads_the_row_and_does_not_patch_it() {
    let mut store = Store::new();
    let made = row(store.run(Tracking::create(tracking(vec![1]))));
    store.requests.clear();
    let patch = UpdateTracking { activities: Some(vec![2, 5, 7]), ..Default::default() };
    let (task, request) = Tracking::update(made.id, patch.clone());
    assert_eq!(task, Task::Writing { id: made.id, activities: Some(vec![2, 5, 7]) });
    assert_eq!(request, Request::Tracking(Query::Get(made.id)));
    let updated = row(store.run(Tracking::update(made.id, patch)));
    assert_eq!(updated.updated_at, made.updated_at);
    assert_eq!(store.requests.len(), 5);
    assert!(store.requests[1].contains("RemoveOf"));
}

#[test]
fn an_update_of_row_fields_patches_the_row() {
    let mut store = Store::new();
    let made = row(store.run(Tracking::create(tracking(vec![1, 2]))));
    let patch = UpdateTracking {
        billed: Some(hours(6.25)),
        pause: Some(None),
        description: Some(Some("remote".to_string())),
        ..Default::default()
    };
    let (row_patch, activities) = patch.clone().split();
    assert_eq!(activities, None);
    assert!(!row_patch.is_empty());
    assert!(UpdateTrackingDB::default().is_empty());
    let (_, request) = Tracking::update(made.id, patch.clone());
    assert_eq!(request, Request::Tracking(Query::Patch(made.id, row_patch)));
    let updated = row(store.run(Tracking::update(made.id, patch)));
    assert_eq!(updated.billed, hours(6.25));
    assert_eq!(updated.pause, None);
    assert_eq!(updated.description, Some("remote".to_string()));
    assert_eq!(updated.performed, made.performed);
    assert_eq!(updated.begin, made.begin);
    assert_eq!(updated.client_id, made.client_id);
    assert_eq!(updated.created_at, made.created_at);
    assert!(updated.updated_at > made.updated_at);
    assert_eq!(updated.activities, vec![1, 2]);
    assert_eq!(store.activities_of(made.id), vec![1, 2]);
    let read = row(store.run(Tracking::read(made.id)));
    assert_eq!(read, updated);
    let clear = UpdateTracking { description: Some(None), ..Default::default() };
    let cleared = row(store.run(Tracking::update(made.id, clear)));
    assert_eq!(cleared.description, None);
    assert_eq!(cleared.billed, hours(6.25));
    assert_eq!(cleared.activities, vec![1, 2]);
}

#[test]
fn an_update_without_any_field_returns_the_tracking_as_it_stands() {
    let mut store = Store::new();
    let made = row(store.run(Tracking::create(tracking(vec![1, 2]))));
    store.requests.clear();
    let (task, request) = Tracking::update(made.id, UpdateTracking::default());
    assert_eq!(task, Task::Writing { id: made.id, activities: None });
    assert_eq!(request, Request::Tracking(Query::Get(made.id)));
    let updated = row(store.run(Tracking::update(made.id, UpdateTracking::default())));
    assert_eq!(updated, made);
    assert_eq!(updated.activities, vec![1, 2]);
    assert_eq!(updated.updated_at, made.updated_at);
    assert_eq!(store.requests.len(), 2);
    assert!(store.requests[0].contains("Get"));
    assert!(store.requests[1].contains("ListOf"));
    assert_eq!(store.trackings.rows.len(), 1);
    assert_eq!(store.activities_of(made.id), vec![1, 2]);
    assert_eq!(
        store.run(Tracking::update(99, UpdateTracking::default())),
        Err(StoreError::NotFound)
    );
}

#[test]
fn an_update_keeps_the_time_of_creation_and_refreshes_the_time_of_the_update() {
    let mut clients = filled_clients(1);
    let made = row(clients.run(Client::read(1), 60));
    let patch = UpdateClient { name: Some("Renamed".to_string()) };
    let updated = row(clients.run(Client::update(1, patch), 900));
    assert_eq!(updated.id, made.id);
    assert_eq!(updated.created_at, made.created_at);
    assert_eq!(updated.updated_at, 900);
    assert!(updated.updated_at >= made.updated_at);
    assert_eq!(updated.name, "Renamed");
}

#[test]
fn an_update_of_a_missing_tracking_is_not_found_and_touches_no_join_row() {
    let mut store = Store::new();
    row(store.run(Tracking::create(tracking(vec![1, 2]))));
    let patch = UpdateTracking { activities: Some(vec![5]), ..Default::default() };
    assert_eq!(store.run(Tracking::update(42, patch)), Err(StoreError::NotFound));
    assert_eq!(store.activities_of(1), vec![1, 2]);
}

#[test]
fn deleting_a_tracking_removes_its_join_rows_first() {
    let mut store = Store::new();
    let first = row(store.run(Tracking::create(tracking(vec![1, 2]))));
    let second = row(store.run(Tracking::create(tracking(vec![2, 3]))));
    store.requests.clear();
    assert_eq!(store.run(Tracking::delete(first.id)), Ok(Outcome::Removed(1)));
    assert_eq!(store.requests.len(), 2);
    assert!(store.requests[0].contains("RemoveOf"));
    assert!(store.requests[1].contains("Remove("));
    assert_eq!(store.activities_of(first.id), Vec::<i32>::new());
    assert_eq!(store.activities_of(second.id), vec![2, 3]);
    assert_eq!(store.run(Tracking::read(first.id)), Err(StoreError::NotFound));
    assert_eq!(store.run(Tracking::delete(first.id)), Ok(Outcome::Removed(0)));
}

#[test]
fn a_page_of_trackings_loads_all_activities_with_one_request() {
    let mut store = Store::new();
    let wanted = [vec![1, 2], vec![], vec![3], vec![2, 1], vec![9, 8, 7], vec![4], vec![5, 6]];
    for activities in wanted.iter() {
        row(store.run(Tracking::create(tracking(activities.clone()))));
    }
    store.requests.clear();
    let listed = page(store.run(Tracking::paginate(1, 3)));
    assert_eq!(store.requests.len(), 3);
    assert!(store.requests[2].contains("ListOfAll([4, 5, 6])"));
    assert_eq!(listed.total_items, 7);
    assert_eq!(listed.num_pages, 3);
    assert_eq!(listed.page, 1);
    assert_eq!(listed.page_size, 3);
    assert_eq!(listed.items.len(), 3);
    for (index, item) in listed.items.iter().enumerate() {
        assert_eq!(item.id, 4 + index as i32);
        assert_eq!(item.activities, wanted[3 + index]);
        assert_eq!(*item, row(store.run(Tracking::read(item.id))));
    }
    let last = page(store.run(Tracking::paginate(2, 3)));
    assert_eq!(last.items.len(), 1);
    assert_eq!(last.items[0].activities, vec![5, 6]);
}

#[test]
fn the_last_page_of_trackings_is_that_of_the_table() {
    let mut store = Store::new();
    for _ in 0..7 {
        row(store.run(Tracking::create(tracking(vec![1]))));
    }
    assert_eq!(store.run(Tracking::last_page(3)), Ok(Outcome::LastPage(2)));
    assert_eq!(store.run(Tracking::last_page(0)), Ok(Outcome::LastPage(6)));
}

#[test]
fn a_response_from_the_other_table_ends_the_operation_with_a_failure() {
    let (task, _) = Tracking::read(1);
    let step = middlelayer::resume(task, Response::Link(Ok(Answer::Rows(vec![]))));
    assert_eq!(step, Step::Done(Err(StoreError::Failure)));
    let (task, _) = Tracking::delete(1);
    let step = middlelayer::resume(task, Response::Tracking(Ok(Answer::Removed(1))));
    assert_eq!(step, Step::Done(Err(StoreError::Failure)));
    let (task, _) = Tracking::delete(1);
    let step = middlelayer::resume(task, Response::Link(Err(StoreError::Conflict)));
    assert_eq!(step, Step::Done(Err(StoreError::Conflict)));
}

#[test]
fn the_activities_of_join_rows_keep_their_order() {
    let rows = vec![
        TrackingToActivity { id: 5, tracking_id: 1, activity_id: 9 },
        TrackingToActivity { id: 6, tracking_id: 1, activity_id: 3 },
        TrackingToActivity { id: 8, tracking_id: 1, activity_id: 9 },
    ];
    assert_eq!(TrackingToActivity::activity_ids(&rows), vec![9, 3, 9]);
    assert_eq!(TrackingToActivity::activity_ids(&vec![]), Vec::<i32>::new());
    assert_eq!(TrackingToActivity::get_activity_ids(Ok(Answer::Rows(rows))), Ok(vec![9, 3, 9]));
    assert_eq!(
        TrackingToActivity::get_activity_ids(Ok(Answer::Count(3))),
        Err(StoreError::Failure)
    );
    assert_eq!(
        TrackingToActivity::get_activity_ids(Err(StoreError::NotFound)),
        Err(StoreError::NotFound)
    );
    assert_eq!(
        TrackingToActivity::delete_by_tracking_id(4),
        (Pending::Removal, LinkQuery::RemoveOf(4))
    );
    assert_eq!(TrackingToActivity::from_tracking(4), (Pending::Rows, LinkQuery::ListOf(4)));
}

#[test]
fn the_activities_of_a_tracking_are_gathered_one_by_one() {
    let mut store = Store::new();
    for name in ["Plan", "Build", "Test"] {
        row(store.activities.run(
            Activity::create(CreateActivity { token: None, name: name.to_string() }),
            10,
        ));
    }
    row(store.run(Tracking::create(tracking(vec![3, 1]))));
    let (mut state, mut request) = TrackingToActivity::get_activities(1);
    assert_eq!(state, Gathering::Listing);
    let found = loop {
        let response = match request {
            GatherRequest::Link(query) => GatherResponse::Link(serve_links(&mut store.links, query, 20)),
            GatherRequest::Activity(query) => GatherResponse::Activity(store.activities.serve(query, 20)),
        };
        match gather(state, response) {
            Step::Done(found) => break found,
            Step::Ask(then, next) => {
                state = then;
                request = next;
            }
        }
    };
    let names: Vec<String> = found.unwrap().into_iter().map(|activity| activity.name).collect();
    assert_eq!(names, vec!["Test".to_string(), "Plan".to_string()]);

    let (state, _) = TrackingToActivity::get_activities(1);
    let links = vec![TrackingToActivity { id: 1, tracking_id: 1, activity_id: 77 }];
    let step = gather(state, GatherResponse::Link(Ok(Answer::Rows(links))));
    let state = match step {
        Step::Ask(state, GatherRequest::Activity(Query::Get(77))) => state,
        _ => panic!("the activity 77 was to be read"),
    };
    let step = gather(state, GatherResponse::Activity(Err(StoreError::NotFound)));
    assert_eq!(step, Step::Done(Err(StoreError::NotFound)));
}

// ---------------------------------------------------------------------------
// The routes: guard, role check, operation, answer.
// ---------------------------------------------------------------------------

struct Server {
    store: Store,
    tokenizer: Tokenizer,
}

#[derive(Clone, Debug, PartialEq)]
struct Refusal {
    status: u16,
    body: String,
}

fn refusal(error: ApiError) -> Refusal {
    Refusal { status: error.to_status(), body: error.to_json() }
}

fn body(code: u16, error: &str) -> Option<String> {
    Some(ErrorJson::new(code, error).to_json())
}

impl Server {
    fn new() -> Self {
        Server { store: Store::new(), tokenizer: Tokenizer::new(5 * 24 * 60 * 60) }
    }

    fn guard(&self, header: Option<&str>) -> Result<Identity, Refusal> {
        match from_request(Some(&self.tokenizer), header) {
            Ok(identity) => Ok(identity),
            Err((status, error)) => Err(Refusal { status, body: error.to_json() }),
        }
    }

    fn identify(&self, token: &str) -> Result<Identity, Refusal> {
        let header = format!("Bearer {}", token);
        self.guard(Some(&header))
    }

    fn add_user(&mut self, email: &str, password: &str, sys_role: &str) {
        let item = CreateUser {
            username: email.to_string(),
            firstname: "Test".to_string(),
            lastname: "User".to_string(),
            email: email.to_string(),
            hash: Tokenizer::hash_password(password.as_bytes()).unwrap(),
            sys_role: sys_role.to_string(),
        };
        let now = self.store.tick();
        row(self.store.users.run(User::create(item), now));
    }

    fn login(&self, body: Option<Login<'_>>) -> Result<String, Refusal> {
        let login = match body {
            Some(login) => login,
            // a body that cannot be read never reaches the route: the catcher answers
            None => return Err(Refusal { status: 400, body: default_catcher(400) }),
        };
        let (_, query) = User::find_by_email(login.email());
        let found = self.store.find_user(query);
        match post_login(&self.tokenizer, found, &login) {
            Ok(responder) => Ok(responder.into_token().token),
            Err(error) => Err(refusal(error)),
        }
    }

    fn token_for(&mut self, email: &str, password: &str, sys_role: &str) -> String {
        self.add_user(email, password, sys_role);
        self.login(Some(Login::new(email, password))).unwrap()
    }

    fn admin_token(&mut self) -> String {
        self.token_for("admin@example.com", "Admin_01!", "admin")
    }

    fn user_token(&mut self) -> String {
        self.token_for("user@example.com", "User_01!", "user")
    }
}

fn serve_route<R: Row>(
    identity: Result<Identity, Refusal>,
    table: &mut Table<R>,
    now: i64,
    resource: Resource,
    operation: Operation<R::Create, R::Patch>,
) -> Result<Outcome<R>, Refusal> {
    let identity = identity?;
    let start = routes::start(&identity, resource, operation).map_err(refusal)?;
    routes::answer(resource, table.run(start, now)).map_err(refusal)
}

fn serve_last_page<R: Row>(
    identity: Result<Identity, Refusal>,
    table: &mut Table<R>,
    now: i64,
    resource: Resource,
    page_size: i64,
) -> Result<Outcome<R>, Refusal> {
    let last = serve_route(identity.clone(), table, now, resource, Operation::LastPage { page_size })?;
    let last = match last {
        Outcome::LastPage(index) => index,
        _ => panic!("an index was expected"),
    };
    let identity = identity?;
    let operation = Operation::Paginate { page: last, page_size };
    let start = routes::start(&identity, resource, operation).map_err(refusal)?;
    routes::answer(resource, table.run(start, now)).map_err(refusal)
}

impl Server {
    fn client(&mut self, token: &str, operation: Operation<CreateClient, UpdateClient>) -> Result<Outcome<Client>, Refusal> {
        let now = self.store.tick();
        serve_route(self.identify(token), &mut self.store.clients, now, Resource::Client, operation)
    }

    fn activity(&mut self, token: &str, operation: Operation<CreateActivity, UpdateActivity>) -> Result<Outcome<Activity>, Refusal> {
        let now = self.store.tick();
        serve_route(self.identify(token), &mut self.store.activities, now, Resource::Activity, operation)
    }

    fn project(&mut self, token: &str, operation: Operation<CreateProject, UpdateProject>) -> Result<Outcome<Project>, Refusal> {
        let now = self.store.tick();
        serve_route(self.identify(token), &mut self.store.projects, now, Resource::Project, operation)
    }

    fn user(&mut self, token: &str, operation: Operation<CreateUser, UpdateUser>) -> Result<Outcome<User>, Refusal> {
        let now = self.store.tick();
        let operation = match operation {
            Operation::Create(mut item) => {
                item.hash = Tokenizer::hash_password(item.hash.as_bytes()).map_err(refusal)?;
                Operation::Create(item)
            }
            other => other,
        };
        serve_route(self.identify(token), &mut self.store.users, now, Resource::User, operation)
    }

    fn tracking(
        &mut self,
        identity: Result<Identity, Refusal>,
        operation: Operation<CreateTracking, UpdateTracking>,
    ) -> Result<Outcome<Tracking>, Refusal> {
        let identity = identity?;
        let start = routes::start_tracking(&identity, operation).map_err(refusal)?;
        routes::answer(Resource::Tracking, self.store.run(start)).map_err(refusal)
    }

    fn create_tracking(&mut self, token: &str, item: CreateTracking) -> Result<Tracking, Refusal> {
        let identity = self.identify(token);
        self.tracking(identity, Operation::Create(item)).map(|outcome| row(Ok(outcome)))
    }

    fn update_tracking(&mut self, token: &str, id: i32, patch: UpdateTracking) -> Result<Tracking, Refusal> {
        let identity = self.identify(token);
        self.tracking(identity, Operation::Update(id, patch)).map(|outcome| row(Ok(outcome)))
    }

    fn get_tracking(&mut self, token: &str, id: i32) -> Result<Tracking, Refusal> {
        let identity = self.identify(token);
        self.tracking(identity, Operation::Read(id)).map(|outcome| row(Ok(outcome)))
    }

    fn delete_tracking(&mut self, token: &str, id: i32) -> Result<Outcome<Tracking>, Refusal> {
        let identity = self.identify(token);
        self.tracking(identity, Operation::Delete(id))
    }

    fn page_of_trackings(&mut self, token: &str, page_size: i64, index: i64) -> Result<PaginationResult<Tracking>, Refusal> {
        let identity = self.identify(token);
        self.tracking(identity, Operation::Paginate { page: index, page_size })
            .map(|outcome| page(Ok(outcome)))
    }

    fn last_page_of_trackings(&mut self, token: &str, page_size: i64) -> Result<PaginationResult<Tracking>, Refusal> {
        let identity = self.identify(token);
        let last = match self.tracking(identity, Operation::LastPage { page_size })? {
            Outcome::LastPage(index) => index,
            _ => panic!("an index was expected"),
        };
        self.page_of_trackings(token, page_size, last)
    }
}

fn status<T>(answer: &Result<T, Refusal>) -> u16 {
    match answer {
        Ok(_) => 200,
        Err(refusal) => refusal.status,
    }
}

fn text<T>(answer: Result<T, Refusal>) -> Option<String> {
    answer.err().map(|refusal| refusal.body)
}

#[test]
fn client_single() {
    let mut server = Server::new();
    let token = server.admin_token();
    let client = CreateClient { name: "Muster GmbH".to_string() };

    // Test unauthorized
    let now = server.store.tick();
    let nobody = server.guard(None);
    let res = serve_route(nobody, &mut server.store.clients, now, Resource::Client, Operation::Create(client.clone()));
    assert_eq!(status(&res), 401);

    // Test empty token
    let res = server.client("", Operation::Create(client.clone()));
    assert_eq!(status(&res), 401);

    // Create new client
    let res = server.client(&token, Operation::Create(client.clone()));
    let inserted_client = row(res.map_err(|_| StoreError::Failure));
    assert!(inserted_client.matches(&client));
    let client_id = inserted_client.id;

    // Check duplicate client insert
    let res = server.client(&token, Operation::Create(client.clone()));
    assert_eq!(status(&res), 400);
    assert_eq!(text(res), body(400, "Client already exists"));

    // Update client
    let new_client_name = format!("{} GmbH", client.name);
    let update_client = UpdateClient { name: Some(new_client_name.clone()), ..Default::default() };
    let res = server.client(&token, Operation::Update(client_id, update_client));
    assert_eq!(status(&res), 200);
    let updated_client = row(res.map_err(|_| StoreError::Failure));
    assert_eq!(updated_client.name, new_client_name);
    assert_ne!(updated_client, inserted_client);

    // Get client
    let res = server.client(&token, Operation::Read(client_id));
    assert_eq!(status(&res), 200);
    assert_eq!(row(res.map_err(|_| StoreError::Failure)), updated_client);

    // Test inserting as normal user
    let user_token = server.user_token();
    let res = server.client(&user_token, Operation::Create(client));
    assert_eq!(status(&res), 403);

    // delete client
    let res = server.client(&token, Operation::Delete(client_id));
    assert_eq!(status(&res), 200);
    assert_eq!(res, Ok(Outcome::Removed(1)));
}

#[test]
fn client_multiple() {
    let mut server = Server::new();
    let token = server.admin_token();
    let mut client_list = Vec::new();
    for i in 0..10 {
        let client = CreateClient { name: format!("Client {}", i) };
        let res = server.client(&token, Operation::Create(client));
        assert_eq!(status(&res), 200);
        client_list.push(row(res.map_err(|_| StoreError::Failure)));
    }

    let res = server.client(&token, Operation::Read(client_list[0].id));
    assert_eq!(status(&res), 200);
    assert_eq!(row(res.map_err(|_| StoreError::Failure)), client_list[0]);

    // get first page of clients with page_size 5
    let res = server.client(&token, Operation::Paginate { page: 0, page_size: 5 });
    assert_eq!(status(&res), 200);
    let pagination = page(res.map_err(|_| StoreError::Failure));
    assert_eq!(pagination.page, 0);
    assert_eq!(pagination.page_size, 5);

    // get last page of clients with page_size 5 with number
    let res = server.client(&token, Operation::Paginate { page: pagination.num_pages - 1, page_size: 5 });
    assert_eq!(status(&res), 200);
    let pagination = page(res.map_err(|_| StoreError::Failure));
    // the last page contains 5 OR LESS items
    let last_page_items: usize =
        (pagination.total_items - (pagination.num_pages - 1) * 5).try_into().unwrap();
    // reverse to get items from the bottom
    let last_page_items = 10 - last_page_items;
    assert_eq!(pagination.items, client_list[last_page_items..]);

    let now = server.store.tick();
    let identity = server.identify(&token);
    let res = serve_last_page(identity, &mut server.store.clients, now, Resource::Client, 5);
    assert_eq!(status(&res), 200);
    let last_page = page(res.map_err(|_| StoreError::Failure));
    assert_eq!(last_page, pagination);

    // delete all clients
    for client in client_list {
        let res = server.client(&token, Operation::Delete(client.id));
        assert_eq!(status(&res), 200);
    }
}

#[test]
fn activity_single() {
    let mut server = Server::new();
    let token = server.admin_token();
    let activity = CreateActivity { token: None, name: "leverage seamless synergies".to_string() };

    // Test unauthorized
    let now = server.store.tick();
    let nobody = server.guard(None);
    let res = serve_route(nobody, &mut server.store.activities, now, Resource::Activity, Operation::Create(activity.clone()));
    assert_eq!(status(&res), 401);

    // Test empty token
    let res = server.activity("", Operation::Create(activity.clone()));
    assert_eq!(status(&res), 401);

    // Create new activity
    let res = server.activity(&token, Operation::Create(activity.clone()));
    let inserted_activity = row(res.map_err(|_| StoreError::Failure));
    assert!(inserted_activity.matches(&activity));
    let activity_id = inserted_activity.id;

    // Check duplicate activity insert
    let res = server.activity(&token, Operation::Create(activity.clone()));
    assert_eq!(status(&res), 400);
    assert_eq!(text(res), body(400, "Activity already exists"));

    // Update activity
    let new_activity_name = format!("{} GmbH", activity.name);
    let update_activity = UpdateActivity { name: Some(new_activity_name.clone()), ..Default::default() };
    let res = server.activity(&token, Operation::Update(activity_id, update_activity));
    assert_eq!(status(&res), 200);
    let updated_activity = row(res.map_err(|_| StoreError::Failure));
    assert_eq!(updated_activity.name, new_activity_name);
    assert_ne!(updated_activity, inserted_activity);

    // Get activity
    let res = server.activity(&token, Operation::Read(activity_id));
    assert_eq!(status(&res), 200);
    assert_eq!(row(res.map_err(|_| StoreError::Failure)), updated_activity);

    // Test inserting as normal user
    let user_token = server.user_token();
    let res = server.activity(&user_token, Operation::Create(activity));
    assert_eq!(status(&res), 403);

    // delete activity
    let res = server.activity(&token, Operation::Delete(activity_id));
    assert_eq!(status(&res), 200);
}

#[test]
fn activity_multiple() {
    let mut server = Server::new();
    let token = server.admin_token();
    let mut activity_list = Vec::new();
    for i in 0..10 {
        let activity = CreateActivity { token: None, name: format!("Activity {}", i) };
        let res = server.activity(&token, Operation::Create(activity));
        assert_eq!(status(&res), 200);
        activity_list.push(row(res.map_err(|_| StoreError::Failure)));
    }

    let res = server.activity(&token, Operation::Read(activity_list[0].id));
    assert_eq!(status(&res), 200);
    assert_eq!(row(res.map_err(|_| StoreError::Failure)), activity_list[0]);

    let res = server.activity(&token, Operation::Paginate { page: 0, page_size: 5 });
    assert_eq!(status(&res), 200);
    let pagination = page(res.map_err(|_| StoreError::Failure));
    assert_eq!(pagination.page, 0);
    assert_eq!(pagination.page_size, 5);

    let res = server.activity(&token, Operation::Paginate { page: pagination.num_pages - 1, page_size: 5 });
    assert_eq!(status(&res), 200);
    let pagination = page(res.map_err(|_| StoreError::Failure));
    let last_page_items: usize =
        (pagination.total_items - (pagination.num_pages - 1) * 5).try_into().unwrap();
    let last_page_items = 10 - last_page_items;
    assert_eq!(pagination.items, activity_list[last_page_items..]);

    let now = server.store.tick();
    let identity = server.identify(&token);
    let res = serve_last_page(identity, &mut server.store.activities, now, Resource::Activity, 5);
    assert_eq!(status(&res), 200);
    assert_eq!(page(res.map_err(|_| StoreError::Failure)), pagination);

    for activity in activity_list {
        let res = server.activity(&token, Operation::Delete(activity.id));
        assert_eq!(status(&res), 200);
    }
}

#[test]
fn login() {
    let mut server = Server::new();
    server.add_user("admin@example.com", "Admin_01!", "admin");

    // a body that is no login request
    let res = server.login(None);
    assert_eq!(status(&res), 400);
    assert_eq!(text(res), body(400, "Bad Request"));

    let res = server.login(Some(Login::new("admin@example.com", "Admin_01!")));
    assert_eq!(status(&res), 200);
    let token = res.unwrap();
    assert!(server.tokenizer.verify(&token).is_ok());
    assert_eq!(server.tokenizer.verify(&token).unwrap().id, 1);

    let res = server.login(Some(Login::new("admin@example.com", "Admin_02!")));
    assert_eq!(status(&res), 401);
    assert_eq!(text(res), body(401, "Wrong Credentials"));
    let res = server.login(Some(Login::new("nobody@example.com", "Admin_01!")));
    assert_eq!(status(&res), 401);
    assert_eq!(text(res), body(401, "Wrong Credentials"));
}

#[test]
fn project() {
    let mut server = Server::new();
    let token = server.admin_token();
    // Create new client for project
    let res = server.client(&token, Operation::Create(CreateClient { name: "Muster".to_string() }));
    let project_client = row(res.map_err(|_| StoreError::Failure));
    let project = CreateProject { client_id: project_client.id, name: "architect portals".to_string() };

    // Test unauthorized
    let res = server.project("", Operation::Create(project.clone()));
    assert_eq!(status(&res), 401);

    // Create new project
    let res = server.project(&token, Operation::Create(project.clone()));
    let inserted_project = row(res.map_err(|_| StoreError::Failure));
    assert!(inserted_project.matches(&project));
    let project_id = inserted_project.id;

    // Update project
    let new_project_name = "lorem ipsum".to_string();
    let update_project = UpdateProject { name: Some(new_project_name.clone()), ..Default::default() };
    let res = server.project(&token, Operation::Update(project_id, update_project));
    assert_eq!(status(&res), 200);
    let updated_project = row(res.map_err(|_| StoreError::Failure));
    assert_eq!(updated_project.name, new_project_name);
    assert_ne!(updated_project, inserted_project);

    // Get project
    let res = server.project(&token, Operation::Read(project_id));
    assert_eq!(status(&res), 200);
    assert_eq!(row(res.map_err(|_| StoreError::Failure)), updated_project);

    // Test inserting as normal user
    let user_token = server.user_token();
    let res = server.project(&user_token, Operation::Create(project));
    assert_eq!(status(&res), 403);

    // delete project
    let res = server.project(&token, Operation::Delete(project_id));
    assert_eq!(status(&res), 200);
}

#[test]
fn projects() {
    let mut server = Server::new();
    let token = server.admin_token();
    let res = server.client(&token, Operation::Create(CreateClient { name: "Muster".to_string() }));
    let client = row(res.map_err(|_| StoreError::Failure));
    let mut project_list = Vec::new();
    for i in 0..10 {
        let project = CreateProject { client_id: client.id, name: format!("Project {}", i) };
        let res = server.project(&token, Operation::Create(project));
        assert_eq!(status(&res), 200);
        project_list.push(row(res.map_err(|_| StoreError::Failure)));
    }

    let res = server.project(&token, Operation::Read(project_list[0].id));
    assert_eq!(status(&res), 200);
    assert_eq!(row(res.map_err(|_| StoreError::Failure)), project_list[0]);

    let res = server.project(&token, Operation::Paginate { page: 0, page_size: 5 });
    assert_eq!(status(&res), 200);
    let pagination = page(res.map_err(|_| StoreError::Failure));
    assert_eq!(pagination.page, 0);
    assert_eq!(pagination.page_size, 5);

    let res = server.project(&token, Operation::Paginate { page: pagination.num_pages - 1, page_size: 5 });
    assert_eq!(status(&res), 200);
    let pagination = page(res.map_err(|_| StoreError::Failure));
    let last_page_items: usize =
        (pagination.total_items - (pagination.num_pages - 1) * 5).try_into().unwrap();
    let last_page_items = 10 - last_page_items;
    assert_eq!(pagination.items, project_list[last_page_items..]);

    let now = server.store.tick();
    let identity = server.identify(&token);
    let res = serve_last_page(identity, &mut server.store.projects, now, Resource::Project, 5);
    assert_eq!(status(&res), 200);
    assert_eq!(page(res.map_err(|_| StoreError::Failure)), pagination);

    for project in project_list {
        let res = server.project(&token, Operation::Delete(project.id));
        assert_eq!(status(&res), 200);
    }
}

#[test]
fn tracking_single() {
    let mut server = Server::new();
    let token = server.admin_token();
    let tracking = tracking(vec![12, 31, 44]);

    // Test unauthorized
    let nobody = server.guard(None);
    let res = server.tracking(nobody, Operation::Create(tracking.clone()));
    assert_eq!(status(&res), 401);

    // Test empty token
    let res = server.create_tracking("", tracking.clone());
    assert_eq!(status(&res), 401);

    // Create new tracking
    let res = server.create_tracking(&token, tracking.clone());
    let inserted_tracking = res.unwrap();
    assert!(inserted_tracking.matches(&tracking));
    let tracking_id = inserted_tracking.id;

    // Check duplicate tracking insert: a tracking may be there twice
    let res = server.create_tracking(&token, tracking.clone());
    assert_eq!(status(&res), 200);
    assert_ne!(text(res), body(400, "Tracking already exists"));

    // Update tracking
    let new_activities = vec![2, 5, 7];
    let update_tracking = UpdateTracking { activities: Some(new_activities.clone()), ..Default::default() };
    let res = server.update_tracking(&token, tracking_id, update_tracking);
    assert_eq!(status(&res), 200);
    let updated_tracking = res.unwrap();
    assert_eq!(updated_tracking.activities, new_activities);
    assert_ne!(updated_tracking, inserted_tracking);

    // Get tracking
    let res = server.get_tracking(&token, tracking_id);
    assert_eq!(status(&res), 200);
    assert_eq!(res.unwrap(), updated_tracking);

    // Test inserting as normal user
    let user_token = server.user_token();
    let res = server.create_tracking(&user_token, tracking);
    assert_eq!(status(&res), 403);

    // delete tracking
    let res = server.delete_tracking(&token, tracking_id);
    assert_eq!(status(&res), 200);
}

#[test]
fn tracking_multiple() {
    let mut server = Server::new();
    let token = server.admin_token();
    let mut tracking_list: Vec<Tracking> = Vec::new();
    // insert multiple trackings
    for i in 0..10 {
        let tracking = tracking(vec![1 + i, 20 + i, 40 + i]);
        let res = server.create_tracking(&token, tracking);
        assert_eq!(status(&res), 200);
        tracking_list.push(res.unwrap());
    }

    let res = server.get_tracking(&token, tracking_list[0].id);
    assert_eq!(status(&res), 200);
    assert_eq!(res.unwrap(), tracking_list[0]);

    // get first page of trackings with page_size 5
    let res = server.page_of_trackings(&token, 5, 0);
    assert_eq!(status(&res), 200);
    let pagination = res.unwrap();
    assert_eq!(pagination.page, 0);
    assert_eq!(pagination.page_size, 5);

    // get last page of trackings with page_size 5 with number
    let res = server.page_of_trackings(&token, 5, pagination.num_pages - 1);
    assert_eq!(status(&res), 200);
    let pagination = res.unwrap();
    // the last page contains 5 OR LESS items
    let last_page_items: usize =
        (pagination.total_items - (pagination.num_pages - 1) * 5).try_into().unwrap();
    // reverse to get items from the bottom
    let last_page_items = 10 - last_page_items;
    assert_eq!(
        pagination.items,
        tracking_list[last_page_items..],
        "race conditions may occur here, but in prod it doesn't matter"
    );

    let res = server.last_page_of_trackings(&token, 5);
    assert_eq!(status(&res), 200);
    assert_eq!(res.unwrap(), pagination);

    // delete all trackings
    for tracking in tracking_list {
        let res = server.delete_tracking(&token, tracking.id);
        assert_eq!(status(&res), 200);
    }
}

fn new_user(n: usize) -> CreateUser {
    CreateUser {
        username: format!("user{}", n),
        firstname: "Erika".to_string(),
        lastname: "Mustermann".to_string(),
        email: format!("user{}@example.com", n),
        hash: "User_01!".to_string(),
        sys_role: "user".to_string(),
    }
}

#[test]
fn user() {
    let mut server = Server::new();
    let mut user = new_user(0);

    // Test unauthorized
    let res = server.user("", Operation::Create(user.clone()));
    assert_eq!(status(&res), 401);

    let token = server.admin_token();
    // Create new user
    let res = server.user(&token, Operation::Create(user.clone()));
    let inserted_user = row(res.map_err(|_| StoreError::Failure));
    assert!(inserted_user.matches(&user));
    let user_id = inserted_user.id;

    // Check duplicate user insert
    let res = server.user(&token, Operation::Create(user.clone()));
    assert_eq!(status(&res), 400);
    assert_eq!(text(res), body(400, "User already exists"));

    let new_username = "mustermann".to_string();
    user.username = new_username.clone();
    let update_user = UpdateUser { username: Some(new_username.clone()), ..Default::default() };
    let res = server.user(&token, Operation::Update(user_id, update_user));
    assert_eq!(status(&res), 200);
    let updated_user = row(res.map_err(|_| StoreError::Failure));
    assert_eq!(updated_user.username, new_username);
    assert_eq!(updated_user.firstname, user.firstname);
    // They differ because updated_at is refreshed and the username is changed
    assert_ne!(updated_user, inserted_user);

    let res = server.user(&token, Operation::Read(user_id));
    assert_eq!(status(&res), 200);
    let res = row(res.map_err(|_| StoreError::Failure));
    assert!(res.matches(&user));
    assert_eq!(res, updated_user);

    // Test inserting as normal user -> should fail
    let user_token = server.user_token();
    let res = server.user(&user_token, Operation::Create(new_user(1)));
    assert_eq!(status(&res), 403);

    // test deleting user
    let res = server.user(&token, Operation::Delete(user_id));
    assert_eq!(status(&res), 200);
}

#[test]
fn users() {
    let mut server = Server::new();
    let token = server.admin_token();
    let user_token = server.user_token();
    let mut user_list = Vec::new();
    for i in 0..10 {
        let res = server.user(&token, Operation::Create(new_user(i)));
        assert_eq!(status(&res), 200);
        user_list.push(row(res.map_err(|_| StoreError::Failure)));
    }

    // get single user from id
    let res = server.user("", Operation::Read(user_list[0].id));
    assert_eq!(status(&res), 401);
    let res = server.user(&user_token, Operation::Read(user_list[0].id));
    assert_eq!(status(&res), 200);
    assert_eq!(row(res.map_err(|_| StoreError::Failure)), user_list[0]);

    // get first page of users with page_size 5
    let res = server.user(&user_token, Operation::Paginate { page: 0, page_size: 5 });
    assert_eq!(status(&res), 200);
    let pagination = page(res.map_err(|_| StoreError::Failure));
    assert_eq!(pagination.page, 0);
    assert_eq!(pagination.page_size, 5);

    // get last page of users with page_size 5 with number
    let res = server.user(&user_token, Operation::Paginate { page: pagination.num_pages - 1, page_size: 5 });
    assert_eq!(status(&res), 200);
    let pagination = page(res.map_err(|_| StoreError::Failure));
    // the last page contains 5 OR LESS items
    let last_page_items: usize =
        (pagination.total_items - (pagination.num_pages - 1) * 5).try_into().unwrap();
    // reverse to get items from the bottom
    let last_page_items = 10 - last_page_items;
    assert_eq!(pagination.items, user_list[last_page_items..]);

    let now = server.store.tick();
    let identity = server.identify(&user_token);
    let res = serve_last_page(identity, &mut server.store.users, now, Resource::User, 5);
    assert_eq!(status(&res), 200);
    assert_eq!(page(res.map_err(|_| StoreError::Failure)), pagination);

    // delete all users
    for user in user_list {
        let res = server.user(&user_token, Operation::Delete(user.id));
        assert_eq!(status(&res), 403);
        let res = server.user(&token, Operation::Delete(user.id));
        assert_eq!(status(&res), 200);
    }
}

#[test]
fn a_user_may_update_itself_and_an_admin_may_update_anyone() {
    let mut server = Server::new();
    let admin = server.admin_token();
    let user = server.user_token();
    let patch = UpdateUser { firstname: Some("Max".to_string()), ..Default::default() };
    // the admin has id 1 and the user id 2
    assert_eq!(status(&server.user(&user, Operation::Update(2, patch.clone()))), 200);
    assert_eq!(status(&server.user(&user, Operation::Update(1, patch.clone()))), 403);
    assert_eq!(status(&server.user(&admin, Operation::Update(2, patch.clone()))), 200);
    assert_eq!(status(&server.user(&admin, Operation::Update(1, patch.clone()))), 200);
    let res = server.user(&admin, Operation::Update(99, patch));
    assert_eq!(status(&res), 404);
    assert_eq!(text(res), body(404, "Not found"));
}

#[test]
fn roles_decide_who_may_start_what() {
    let admin = Identity { id: 1, sys_role: "admin".to_string() };
    let user = Identity { id: 2, sys_role: "user".to_string() };
    let other = Identity { id: 3, sys_role: "Admin".to_string() };
    assert_eq!(routes::admin_only(&admin), Ok(()));
    assert_eq!(routes::admin_only(&user), Err(ApiError::ForbiddenAccess));
    assert_eq!(routes::admin_only(&other), Err(ApiError::ForbiddenAccess));
    assert_eq!(routes::self_or_admin(&user, 2), Ok(()));
    assert_eq!(routes::self_or_admin(&user, 3), Err(ApiError::ForbiddenAccess));
    assert_eq!(routes::self_or_admin(&admin, 3), Ok(()));

    type Op = Operation<CreateClient, UpdateClient>;
    let create: Op = Operation::Create(client("Acme"));
    let delete: Op = Operation::Delete(1);
    let update: Op = Operation::Update(5, UpdateClient::default());
    let read: Op = Operation::Read(1);
    let list: Op = Operation::Paginate { page: 0, page_size: 5 };
    let last: Op = Operation::LastPage { page_size: 5 };
    assert_eq!(routes::start(&user, Resource::Client, create.clone()), Err(ApiError::ForbiddenAccess));
    assert_eq!(routes::start(&user, Resource::Client, delete.clone()), Err(ApiError::ForbiddenAccess));
    assert_eq!(routes::start(&admin, Resource::Client, create.clone()), Ok(begin(create)));
    assert_eq!(routes::start(&admin, Resource::Client, delete.clone()), Ok(begin(delete)));
    assert_eq!(routes::start(&user, Resource::Client, update.clone()), Ok(begin(update.clone())));
    assert_eq!(routes::start(&user, Resource::User, update.clone()), Err(ApiError::ForbiddenAccess));
    assert_eq!(routes::start(&admin, Resource::User, update.clone()), Ok(begin(update)));
    for operation in [read, list, last] {
        assert_eq!(
            routes::start(&user, Resource::Client, operation.clone()),
            Ok(begin(operation))
        );
    }
}
