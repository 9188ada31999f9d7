//! The service's routes: their paths, HTTP methods and database queries.
use vstd::prelude::*;
use vstd::utf8::encode_utf8_decode_utf8;

use crate::bytes::bytes_eq;

verus! {

/// HTTP request methods the service distinguishes.
#[derive(Clone, Copy, Debug, PartialEq, Eq, Structural)]
pub enum Method {
    Get,
    Post,
}

/// One endpoint of the service.
#[derive(Clone, Copy, Debug, PartialEq, Eq, Structural)]
pub enum Route {
    CreateUser,
    CreateFollow,
    CreatePost,
    CreatePostEmbedding,
    GetUsers,
    GetPosts,
    GetPostsByUser,
    GetFollowers,
    GetFollowing,
    SearchPostEmbeddings,
    Health,
}

impl Route {
    /// The path segment under which the route is served.
    pub open spec fn path_spec(self) -> Seq<char> {
        match self {
            Route::CreateUser => "createUser"@,
            Route::CreateFollow => "createFollow"@,
            Route::CreatePost => "createPost"@,
            Route::CreatePostEmbedding => "createPostEmbedding"@,
            Route::GetUsers => "getUsers"@,
            Route::GetPosts => "getPosts"@,
            Route::GetPostsByUser => "getPostsByUser"@,
            Route::GetFollowers => "getFollowers"@,
            Route::GetFollowing => "getFollowing"@,
            Route::SearchPostEmbeddings => "searchPostEmbeddings"@,
            Route::Health => "health"@,
        }
    }

    /// Every route but the health check forwards to the database query of
    /// the same name.
    pub open spec fn query_spec(self) -> Option<Seq<char>> {
        if self == Route::Health {
            None
        } else {
            Some(self.path_spec())
        }
    }

    /// The health check is read with GET; every query route with POST.
    pub open spec fn method_spec(self) -> Method {
        if self == Route::Health {
            Method::Get
        } else {
            Method::Post
        }
    }

    /// Query routes whose input is taken from the request body. The others
    /// ignore the body.
    pub open spec fn reads_body_spec(self) -> bool {
        match self {
            Route::GetUsers | Route::GetPosts | Route::Health => false,
            _ => true,
        }
    }

    pub fn path(&self) -> (r: &'static str)
        ensures
            r@ == self.path_spec(),
    {
        match self {
            Route::CreateUser => "createUser",
            Route::CreateFollow => "createFollow",
            Route::CreatePost => "createPost",
            Route::CreatePostEmbedding => "createPostEmbedding",
            Route::GetUsers => "getUsers",
            Route::GetPosts => "getPosts",
            Route::GetPostsByUser => "getPostsByUser",
            Route::GetFollowers => "getFollowers",
            Route::GetFollowing => "getFollowing",
            Route::SearchPostEmbeddings => "searchPostEmbeddings",
            Route::Health => "health",
        }
    }

    pub fn query(&self) -> (r: Option<&'static str>)
        ensures
            r matches Some(q) <==> self.query_spec() is Some,
            r matches Some(q) ==> self.query_spec() == Some(q@),
    {
        if *self == Route::Health {
            None
        } else {
            Some(self.path())
        }
    }

    pub fn method(&self) -> (r: Method)
        ensures
            r == self.method_spec(),
    {
        if *self == Route::Health {
            Method::Get
        } else {
            Method::Post
        }
    }

    pub fn reads_body(&self) -> (r: bool)
        ensures
            r == self.reads_body_spec(),
    {
        match self {
            Route::GetUsers | Route::GetPosts | Route::Health => false,
            _ => true,
        }
    }
}

/// Every route, in the order the service lists them.
pub open spec fn all_routes_spec() -> Seq<Route> {
    seq![
        Route::CreateUser,
        Route::CreateFollow,
        Route::CreatePost,
        Route::CreatePostEmbedding,
        Route::GetUsers,
        Route::GetPosts,
        Route::GetPostsByUser,
        Route::GetFollowers,
        Route::GetFollowing,
        Route::SearchPostEmbeddings,
        Route::Health,
    ]
}

pub fn all_routes() -> (r: Vec<Route>)
    ensures
        r@ == all_routes_spec(),
        forall|rt: Route| r@.contains(rt),
{
    let r = vec![
        Route::CreateUser,
        Route::CreateFollow,
        Route::CreatePost,
        Route::CreatePostEmbedding,
        Route::GetUsers,
        Route::GetPosts,
        Route::GetPostsByUser,
        Route::GetFollowers,
        Route::GetFollowing,
        Route::SearchPostEmbeddings,
        Route::Health,
    ];
    assert(r@ =~= all_routes_spec());
    assert forall|rt: Route| r@.contains(rt) by {
        let i: int = match rt {
            Route::CreateUser => 0,
            Route::CreateFollow => 1,
            Route::CreatePost => 2,
            Route::CreatePostEmbedding => 3,
            Route::GetUsers => 4,
            Route::GetPosts => 5,
            Route::GetPostsByUser => 6,
            Route::GetFollowers => 7,
            Route::GetFollowing => 8,
            Route::SearchPostEmbeddings => 9,
            Route::Health => 10,
        };
        assert(r@[i] == rt);
    }
    r
}

/// Whether two strings hold the same characters, decided on their UTF-8 bytes.
pub fn same_text(a: &str, b: &str) -> (r: bool)
    ensures
        r == (a@ == b@),
{
    let r = bytes_eq(a.as_bytes(), b.as_bytes());
    proof {
        encode_utf8_decode_utf8(a@);
        encode_utf8_decode_utf8(b@);
    }
    r
}

/// The route served under `path`, if any.
pub fn route_for_path(path: &str) -> (r: Option<Route>)
    ensures
        r matches Some(rt) ==> rt.path_spec() == path@,
        r is None ==> forall|rt: Route| rt.path_spec() != path@,
{
    let routes = all_routes();
    let mut i: usize = 0;
    while i < routes.len()
        invariant
            routes@ == all_routes_spec(),
            forall|rt: Route| routes@.contains(rt),
            i <= routes@.len(),
            forall|j: int| 0 <= j < i ==> (#[trigger] routes@[j]).path_spec() != path@,
        decreases routes@.len() - i,
    {
        let rt = routes[i];
        if same_text(rt.path(), path) {
            return Some(rt);
        }
        i = i + 1;
    }
    assert forall|rt: Route| rt.path_spec() != path@ by {
        assert(routes@.contains(rt));
        let j = choose|j: int| 0 <= j < routes@.len() && routes@[j] == rt;
        assert(routes@[j].path_spec() != path@);
    }
    None
}

/// No two routes share a path.
pub proof fn route_paths_distinct(a: Route, b: Route)
    ensures
        a.path_spec() == b.path_spec() ==> a == b,
{
    if a != b {
        assert(a.path_spec() != b.path_spec()) by {
            reveal_strlit("createUser");
            reveal_strlit("createFollow");
            reveal_strlit("createPost");
            reveal_strlit("createPostEmbedding");
            reveal_strlit("getUsers");
            reveal_strlit("getPosts");
            reveal_strlit("getPostsByUser");
            reveal_strlit("getFollowers");
            reveal_strlit("getFollowing");
            reveal_strlit("searchPostEmbeddings");
            reveal_strlit("health");
            let (x, y) = (a.path_spec(), b.path_spec());
            assert(x.len() != y.len() || x[0] != y[0] || x[3] != y[3] || x[6] != y[6] || x[9] != y[9]);
        }
    }
}

} // verus!
