//! The seeding script as a state machine: it names the next query to send,
//! records each answer, and stops at the first failure.
use vstd::prelude::*;

verus! {

/// Number of queries the script sends when nothing fails.
pub const SEED_STEPS: usize = 18;

/// The shape the database's answer to a query is read as.
#[derive(Clone, Copy, Debug, PartialEq, Eq, Structural)]
pub enum Shape {
    /// `{"user": User}`
    CreatedUser,
    /// `{"post": Post}`
    CreatedPost,
    /// `{"users": [User]}`
    Users,
    /// `{"posts": [Post]}`
    Posts,
    /// `{"following": [User]}`
    Following,
    /// `{"followers": [User]}`
    Followers,
    /// Any JSON value.
    Anything,
}

/// The input of one query. Embedding vectors are given in tenths: the
/// component `3` stands for `0.3`.
pub enum SeedInput {
    User { name: &'static str, age: u32, email: &'static str },
    Follow { follower_id: String, followed_id: String },
    Post { user_id: String, content: &'static str },
    Embedding { post_id: String, tenths: Vec<u32>, content: &'static str },
    Nothing,
    ByUser { user_id: String },
    Search { tenths: Vec<u32>, k: i64 },
}

pub enum SeedInputModel {
    User { name: Seq<char>, age: u32, email: Seq<char> },
    Follow { follower_id: Seq<char>, followed_id: Seq<char> },
    Post { user_id: Seq<char>, content: Seq<char> },
    Embedding { post_id: Seq<char>, tenths: Seq<u32>, content: Seq<char> },
    Nothing,
    ByUser { user_id: Seq<char> },
    Search { tenths: Seq<u32>, k: i64 },
}

impl View for SeedInput {
    type V = SeedInputModel;

    open spec fn view(&self) -> SeedInputModel {
        match self {
            SeedInput::User { name, age, email } => SeedInputModel::User {
                name: name@,
                age: *age,
                email: email@,
            },
            SeedInput::Follow { follower_id, followed_id } => SeedInputModel::Follow {
                follower_id: follower_id@,
                followed_id: followed_id@,
            },
            SeedInput::Post { user_id, content } => SeedInputModel::Post {
                user_id: user_id@,
                content: content@,
            },
            SeedInput::Embedding { post_id, tenths, content } => SeedInputModel::Embedding {
                post_id: post_id@,
                tenths: tenths@,
                content: content@,
            },
            SeedInput::Nothing => SeedInputModel::Nothing,
            SeedInput::ByUser { user_id } => SeedInputModel::ByUser { user_id: user_id@ },
            SeedInput::Search { tenths, k } => SeedInputModel::Search { tenths: tenths@, k: *k },
        }
    }
}

/// One query of the script: its name, its input, and how its answer is read.
pub struct SeedCall {
    pub query: &'static str,
    pub input: SeedInput,
    pub shape: Shape,
}

pub struct SeedCallModel {
    pub query: Seq<char>,
    pub input: SeedInputModel,
    pub shape: Shape,
}

impl View for SeedCall {
    type V = SeedCallModel;

    open spec fn view(&self) -> SeedCallModel {
        SeedCallModel { query: self.query@, input: self.input@, shape: self.shape }
    }
}

/// The script's progress: answers received so far, the ids of the users and
/// posts created, and the failure that stopped it, if one did.
pub struct SeedState {
    pub step: nat,
    pub users: Seq<Seq<char>>,
    pub posts: Seq<Seq<char>>,
    pub failure: Option<Seq<char>>,
}

/// The query sent at each step.
pub open spec fn query_at(step: nat) -> Seq<char> {
    if step < 3 {
        "createUser"@
    } else if step < 6 {
        "createFollow"@
    } else if step < 9 {
        "createPost"@
    } else if step < 12 {
        "createPostEmbedding"@
    } else if step == 12 {
        "getUsers"@
    } else if step == 13 {
        "getPosts"@
    } else if step == 14 {
        "getPostsByUser"@
    } else if step == 15 {
        "getFollowing"@
    } else if step == 16 {
        "getFollowers"@
    } else {
        "searchPostEmbeddings"@
    }
}

/// The queries in the order the script sends them.
pub open spec fn seed_queries() -> Seq<Seq<char>> {
    Seq::new(SEED_STEPS as nat, |i: int| query_at(i as nat))
}

pub open spec fn shape_at(step: nat) -> Shape {
    if step < 3 {
        Shape::CreatedUser
    } else if step < 6 {
        Shape::Anything
    } else if step < 9 {
        Shape::CreatedPost
    } else if step < 12 {
        Shape::Anything
    } else if step == 12 {
        Shape::Users
    } else if step == 15 {
        Shape::Following
    } else if step == 16 {
        Shape::Followers
    } else {
        Shape::Posts
    }
}

pub open spec fn user_name(i: nat) -> Seq<char> {
    if i == 0 {
        "Alice"@
    } else if i == 1 {
        "Bob"@
    } else {
        "Charlie"@
    }
}

pub open spec fn user_age(i: nat) -> u32 {
    if i == 0 {
        25
    } else if i == 1 {
        30
    } else {
        28
    }
}

pub open spec fn user_email(i: nat) -> Seq<char> {
    if i == 0 {
        "alice@example.com"@
    } else if i == 1 {
        "bob@example.com"@
    } else {
        "charlie@example.com"@
    }
}

pub open spec fn post_content(i: nat) -> Seq<char> {
    if i == 0 {
        "Hello world! My first post on HelixDB"@
    } else if i == 1 {
        "Loving the graph database capabilities"@
    } else {
        "Building cool social networks with Helix"@
    }
}

/// The embedding of the `i`-th post, in tenths: `[i+1, ..., i+5]`.
pub open spec fn post_tenths(i: nat) -> Seq<u32> {
    Seq::new(5, |j: int| (i + j + 1) as u32)
}

/// User `i` follows user `(i + 1) % 3`.
pub open spec fn followed_of(i: nat) -> nat {
    (i + 1) % 3
}

/// The input of the query at `s.step`, built from the ids gathered so far.
pub open spec fn input_at(s: SeedState) -> SeedInputModel {
    let step = s.step;
    if step < 3 {
        SeedInputModel::User {
            name: user_name(step),
            age: user_age(step),
            email: user_email(step),
        }
    } else if step < 6 {
        SeedInputModel::Follow {
            follower_id: s.users[step - 3],
            followed_id: s.users[followed_of((step - 3) as nat) as int],
        }
    } else if step < 9 {
        SeedInputModel::Post { user_id: s.users[step - 6], content: post_content((step - 6) as nat) }
    } else if step < 12 {
        SeedInputModel::Embedding {
            post_id: s.posts[step - 9],
            tenths: post_tenths((step - 9) as nat),
            content: post_content((step - 9) as nat),
        }
    } else if step < 14 {
        SeedInputModel::Nothing
    } else if step < 16 {
        SeedInputModel::ByUser { user_id: s.users[0] }
    } else if step == 16 {
        SeedInputModel::ByUser { user_id: s.users[1] }
    } else {
        SeedInputModel::Search { tenths: post_tenths(0), k: 1 }
    }
}

pub open spec fn call_at(s: SeedState) -> SeedCallModel {
    SeedCallModel { query: query_at(s.step), input: input_at(s), shape: shape_at(s.step) }
}

pub open spec fn initial_state() -> SeedState {
    SeedState { step: 0, users: Seq::empty(), posts: Seq::empty(), failure: None }
}

/// The next query to send: none once a query has failed or all were sent.
pub open spec fn next_spec(s: SeedState) -> Option<SeedCallModel> {
    if s.failure is Some || s.step >= SEED_STEPS {
        None
    } else {
        Some(call_at(s))
    }
}

/// The state after the answer to the query at `s.step`. A success carries
/// the id of what the query created, which is kept for the users and posts.
pub open spec fn record_spec(s: SeedState, answer: Result<Seq<char>, Seq<char>>) -> SeedState {
    match answer {
        Ok(id) => SeedState {
            step: s.step + 1,
            users: if s.step < 3 { s.users.push(id) } else { s.users },
            posts: if 6 <= s.step < 9 { s.posts.push(id) } else { s.posts },
            failure: None,
        },
        Err(e) => SeedState { step: s.step + 1, users: s.users, posts: s.posts, failure: Some(e) },
    }
}

/// Runs the script from `s` against a client whose answer to the query at
/// step `i` is `answers[i]`: the queries sent, and the state it stops in.
pub open spec fn run(s: SeedState, answers: Seq<Result<Seq<char>, Seq<char>>>) -> (
    Seq<SeedCallModel>,
    SeedState,
)
    decreases SEED_STEPS - s.step,
{
    if s.failure is Some || s.step >= SEED_STEPS {
        (Seq::empty(), s)
    } else {
        let rest = run(record_spec(s, answers[s.step as int]), answers);
        (seq![call_at(s)] + rest.0, rest.1)
    }
}

pub open spec fn min3(n: nat) -> nat {
    if n < 3 {
        n
    } else {
        3
    }
}

pub open spec fn seed_wf(s: SeedState) -> bool {
    &&& s.step <= SEED_STEPS
    &&& s.failure is None ==> {
        &&& s.users.len() == min3(s.step)
        &&& s.posts.len() == if s.step < 6 { 0 } else { min3((s.step - 6) as nat) }
    }
}

pub open spec fn answer_view(answer: Result<String, String>) -> Result<Seq<char>, Seq<char>> {
    match answer {
        Ok(id) => Ok(id@),
        Err(e) => Err(e@),
    }
}

pub open spec fn ids_view(ids: Seq<String>) -> Seq<Seq<char>> {
    ids.map_values(|id: String| id@)
}

/// The seeding script's state. Its view is a `SeedState`.
pub struct SeedScript {
    step: usize,
    users: Vec<String>,
    posts: Vec<String>,
    failure: Option<String>,
}

impl View for SeedScript {
    type V = SeedState;

    closed spec fn view(&self) -> SeedState {
        SeedState {
            step: self.step as nat,
            users: ids_view(self.users@),
            posts: ids_view(self.posts@),
            failure: match self.failure {
                Some(e) => Some(e@),
                None => None,
            },
        }
    }
}

fn user_name_of(i: usize) -> (r: &'static str)
    ensures
        r@ == user_name(i as nat),
{
    if i == 0 {
        "Alice"
    } else if i == 1 {
        "Bob"
    } else {
        "Charlie"
    }
}

fn user_age_of(i: usize) -> (r: u32)
    ensures
        r == user_age(i as nat),
{
    if i == 0 {
        25
    } else if i == 1 {
        30
    } else {
        28
    }
}

fn user_email_of(i: usize) -> (r: &'static str)
    ensures
        r@ == user_email(i as nat),
{
    if i == 0 {
        "alice@example.com"
    } else if i == 1 {
        "bob@example.com"
    } else {
        "charlie@example.com"
    }
}

fn post_content_of(i: usize) -> (r: &'static str)
    ensures
        r@ == post_content(i as nat),
{
    if i == 0 {
        "Hello world! My first post on HelixDB"
    } else if i == 1 {
        "Loving the graph database capabilities"
    } else {
        "Building cool social networks with Helix"
    }
}

fn post_tenths_of(i: usize) -> (r: Vec<u32>)
    requires
        i < 3,
    ensures
        r@ == post_tenths(i as nat),
{
    let mut r: Vec<u32> = Vec::new();
    let mut j: usize = 0;
    while j < 5
        invariant
            i < 3,
            j <= 5,
            r@ =~= Seq::new(j as nat, |t: int| (i + t + 1) as u32),
        decreases 5 - j,
    {
        r.push((i + j + 1) as u32);
        j = j + 1;
    }
    r
}

fn query_of(step: usize) -> (r: &'static str)
    ensures
        r@ == query_at(step as nat),
{
    if step < 3 {
        "createUser"
    } else if step < 6 {
        "createFollow"
    } else if step < 9 {
        "createPost"
    } else if step < 12 {
        "createPostEmbedding"
    } else if step == 12 {
        "getUsers"
    } else if step == 13 {
        "getPosts"
    } else if step == 14 {
        "getPostsByUser"
    } else if step == 15 {
        "getFollowing"
    } else if step == 16 {
        "getFollowers"
    } else {
        "searchPostEmbeddings"
    }
}

fn shape_of(step: usize) -> (r: Shape)
    ensures
        r == shape_at(step as nat),
{
    if step < 3 {
        Shape::CreatedUser
    } else if step < 6 {
        Shape::Anything
    } else if step < 9 {
        Shape::CreatedPost
    } else if step < 12 {
        Shape::Anything
    } else if step == 12 {
        Shape::Users
    } else if step == 15 {
        Shape::Following
    } else if step == 16 {
        Shape::Followers
    } else {
        Shape::Posts
    }
}

impl SeedScript {
    pub open spec fn wf(&self) -> bool {
        seed_wf(self@)
    }

    pub fn new() -> (r: Self)
        ensures
            r@ == initial_state(),
            r.wf(),
    {
        let r = SeedScript { step: 0, users: Vec::new(), posts: Vec::new(), failure: None };
        assert(ids_view(r.users@) =~= Seq::empty());
        assert(ids_view(r.posts@) =~= Seq::empty());
        r
    }

    /// The next query to send, or `None` once a query failed or all were sent.
    pub fn next_call(&self) -> (r: Option<SeedCall>)
        requires
            self.wf(),
        ensures
            match r {
                Some(c) => next_spec(self@) == Some(c@),
                None => next_spec(self@) is None,
            },
    {
        if self.failure.is_some() || self.step >= SEED_STEPS {
            return None;
        }
        let step = self.step;
        let input = if step < 3 {
            SeedInput::User {
                name: user_name_of(step),
                age: user_age_of(step),
                email: user_email_of(step),
            }
        } else if step < 6 {
            let i = step - 3;
            let f = if i == 2 { 0 } else { i + 1 };
            SeedInput::Follow {
                follower_id: self.users[i].clone(),
                followed_id: self.users[f].clone(),
            }
        } else if step < 9 {
            let i = step - 6;
            SeedInput::Post { user_id: self.users[i].clone(), content: post_content_of(i) }
        } else if step < 12 {
            let i = step - 9;
            SeedInput::Embedding {
                post_id: self.posts[i].clone(),
                tenths: post_tenths_of(i),
                content: post_content_of(i),
            }
        } else if step < 14 {
            SeedInput::Nothing
        } else if step < 16 {
            SeedInput::ByUser { user_id: self.users[0].clone() }
        } else if step == 16 {
            SeedInput::ByUser { user_id: self.users[1].clone() }
        } else {
            SeedInput::Search { tenths: post_tenths_of(0), k: 1 }
        };
        let c = SeedCall { query: query_of(step), input, shape: shape_of(step) };
        assert(c@.input == input_at(self@));
        Some(c)
    }

    /// Takes in the answer to the query last named by `next_call`: the id of
    /// what it created, or the client's error. Once the script has stopped,
    /// answers change nothing.
    pub fn record(&mut self, answer: Result<String, String>)
        requires
            old(self).wf(),
        ensures
            final(self).wf(),
            final(self)@ == if next_spec(old(self)@) is None {
                old(self)@
            } else {
                record_spec(old(self)@, answer_view(answer))
            },
    {
        if self.failure.is_some() || self.step >= SEED_STEPS {
            return;
        }
        let step = self.step;
        match answer {
            Ok(id) => {
                proof {
                    broadcast use vstd::seq_lib::group_seq_properties;
                }
                let ghost id_view = id@;
                if step < 3 {
                    self.users.push(id);
                    assert(ids_view(self.users@) =~= ids_view(old(self).users@).push(id_view));
                } else if 6 <= step && step < 9 {
                    self.posts.push(id);
                    assert(ids_view(self.posts@) =~= ids_view(old(self).posts@).push(id_view));
                }
                self.step = step + 1;
            },
            Err(e) => {
                self.failure = Some(e);
                self.step = step + 1;
            },
        }
    }

    /// The client's error that stopped the script, if one did.
    pub fn failure(&self) -> (r: Option<String>)
        ensures
            match r {
                Some(e) => self@.failure == Some(e@),
                None => self@.failure is None,
            },
    {
        match &self.failure {
            Some(e) => Some(e.clone()),
            None => None,
        }
    }

    /// Whether the script has stopped: a query failed or all were sent.
    pub fn finished(&self) -> (r: bool)
        ensures
            r == next_spec(self@) is None,
    {
        self.failure.is_some() || self.step >= SEED_STEPS
    }
}

pub open spec fn queries_of(calls: Seq<SeedCallModel>) -> Seq<Seq<char>> {
    calls.map_values(|c: SeedCallModel| c.query)
}

/// The ids carried by the successful answers `answers[lo..hi]`.
pub open spec fn answered_ids(answers: Seq<Result<Seq<char>, Seq<char>>>, lo: int, hi: int) -> Seq<
    Seq<char>,
> {
    answers.subrange(lo, hi).map_values(|a: Result<Seq<char>, Seq<char>>| a->Ok_0)
}

/// The state reached after `step` successful answers.
pub open spec fn reached(answers: Seq<Result<Seq<char>, Seq<char>>>, step: nat) -> SeedState {
    SeedState {
        step,
        users: answered_ids(answers, 0, min3(step) as int),
        posts: answered_ids(
            answers,
            6,
            6 + if step < 6 { 0 } else { min3((step - 6) as nat) as int },
        ),
        failure: None,
    }
}

proof fn record_reaches_next(answers: Seq<Result<Seq<char>, Seq<char>>>, step: nat)
    requires
        step < SEED_STEPS,
        answers.len() >= SEED_STEPS,
        answers[step as int] is Ok,
    ensures
        record_spec(reached(answers, step), answers[step as int]) == reached(answers, step + 1),
{
    let s = reached(answers, step);
    let t = record_spec(s, answers[step as int]);
    let n = reached(answers, step + 1);
    assert(t.users =~= n.users);
    assert(t.posts =~= n.posts);
}

proof fn run_all_answered(s: SeedState, answers: Seq<Result<Seq<char>, Seq<char>>>)
    requires
        s.step <= SEED_STEPS,
        answers.len() >= SEED_STEPS,
        s == reached(answers, s.step),
        forall|i: int| s.step <= i < SEED_STEPS ==> answers[i] is Ok,
    ensures
        run(s, answers).0.len() == SEED_STEPS - s.step,
        forall|j: int|
            0 <= j < run(s, answers).0.len() ==> #[trigger] run(s, answers).0[j] == call_at(
                reached(answers, (s.step + j) as nat),
            ),
        run(s, answers).1.failure is None,
        run(s, answers).1.step == SEED_STEPS,
    decreases SEED_STEPS - s.step,
{
    if s.step < SEED_STEPS {
        let s2 = record_spec(s, answers[s.step as int]);
        record_reaches_next(answers, s.step);
        run_all_answered(s2, answers);
        assert forall|j: int| 0 < j < run(s, answers).0.len() implies run(s, answers).0[j]
            == run(s2, answers).0[j - 1] by {}
    }
}

proof fn run_until_failure(s: SeedState, answers: Seq<Result<Seq<char>, Seq<char>>>, k: nat)
    requires
        s.step <= k < SEED_STEPS,
        s.failure is None,
        answers[k as int] is Err,
        forall|i: int| s.step <= i < k ==> answers[i] is Ok,
    ensures
        run(s, answers).0.len() == k + 1 - s.step,
        forall|j: int|
            0 <= j < run(s, answers).0.len() ==> (#[trigger] run(s, answers).0[j]).query == query_at(
                (s.step + j) as nat,
            ),
        run(s, answers).1.failure == Some(answers[k as int]->Err_0),
    decreases k - s.step,
{
    let s2 = record_spec(s, answers[s.step as int]);
    if s.step < k {
        run_until_failure(s2, answers, k);
    } else {
        assert(run(s2, answers).0.len() == 0);
    }
    assert forall|j: int| 0 < j < run(s, answers).0.len() implies run(s, answers).0[j]
        == run(s2, answers).0[j - 1] by {}
}

/// Against a client that answers every query, each query's input carries the
/// ids of the users and posts that earlier answers created, and the script
/// sends exactly its queries, in this order: three `createUser`, three `createFollow`, three
/// `createPost`, three `createPostEmbedding`, then `getUsers`, `getPosts`,
/// `getPostsByUser`, `getFollowing`, `getFollowers` and
/// `searchPostEmbeddings`. It then stops, with no failure.
pub proof fn sends_all_queries_in_order(answers: Seq<Result<Seq<char>, Seq<char>>>)
    requires
        answers.len() == SEED_STEPS,
        forall|i: int| 0 <= i < SEED_STEPS ==> answers[i] is Ok,
    ensures
        forall|j: int|
            0 <= j < SEED_STEPS ==> #[trigger] run(initial_state(), answers).0[j] == call_at(
                reached(answers, j as nat),
            ),
        queries_of(run(initial_state(), answers).0) == seq![
            "createUser"@, "createUser"@, "createUser"@,
            "createFollow"@, "createFollow"@, "createFollow"@,
            "createPost"@, "createPost"@, "createPost"@,
            "createPostEmbedding"@, "createPostEmbedding"@, "createPostEmbedding"@,
            "getUsers"@, "getPosts"@, "getPostsByUser"@,
            "getFollowing"@, "getFollowers"@, "searchPostEmbeddings"@,
        ],
        run(initial_state(), answers).1.failure is None,
        next_spec(run(initial_state(), answers).1) is None,
{
    assert(initial_state() == reached(answers, 0)) by {
        assert(answered_ids(answers, 0, 0) =~= Seq::empty());
        assert(answered_ids(answers, 6, 6) =~= Seq::empty());
    }
    run_all_answered(initial_state(), answers);
    assert(queries_of(run(initial_state(), answers).0) =~= seq![
        "createUser"@, "createUser"@, "createUser"@,
        "createFollow"@, "createFollow"@, "createFollow"@,
        "createPost"@, "createPost"@, "createPost"@,
        "createPostEmbedding"@, "createPostEmbedding"@, "createPostEmbedding"@,
        "getUsers"@, "getPosts"@, "getPostsByUser"@,
        "getFollowing"@, "getFollowers"@, "searchPostEmbeddings"@,
    ]);
}

/// When the query at step `k` fails and every earlier one succeeded, the
/// script sends the first `k + 1` queries, the failing one last, and stops
/// with the client's error.
pub proof fn stops_at_first_failure(answers: Seq<Result<Seq<char>, Seq<char>>>, k: nat)
    requires
        k < SEED_STEPS,
        answers[k as int] is Err,
        forall|i: int| 0 <= i < k ==> answers[i] is Ok,
    ensures
        queries_of(run(initial_state(), answers).0) == seed_queries().take((k + 1) as int),
        run(initial_state(), answers).1.failure == Some(answers[k as int]->Err_0),
        next_spec(run(initial_state(), answers).1) is None,
{
    run_until_failure(initial_state(), answers, k);
    assert(queries_of(run(initial_state(), answers).0) =~= seed_queries().take((k + 1) as int));
}

} // verus!
