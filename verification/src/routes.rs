//! The routes of the service, and which of them stand behind the
//! authentication middleware.

use vstd::prelude::*;

verus! {

/// The request methods that the service answers.
#[derive(Clone, Copy, Debug, PartialEq, Eq, Structural)]
pub enum Method {
    Get,
    Post,
    Put,
    Delete,
}

/// The handlers that a route can lead to.
#[derive(Clone, Copy, Debug, PartialEq, Eq, Structural)]
pub enum Handler {
    CreateUser,
    LoginUser,
    GetUser,
    CreateTask,
    GetTasks,
    GetTask,
    UpdateTask,
    DeleteTask,
}

impl Handler {
    /// Whether requests for this handler must carry a valid access token.
    /// Registration and login cannot ask for one; everything that shows or
    /// changes stored data does.
    pub open spec fn protected(self) -> bool {
        match self {
            Handler::CreateUser | Handler::LoginUser => false,
            _ => true,
        }
    }

    pub fn is_protected(self) -> (protected: bool)
        ensures
            protected == self.protected(),
    {
        match self {
            Handler::CreateUser | Handler::LoginUser => false,
            _ => true,
        }
    }
}

/// One route: a method and a path below the scope, and where they lead.
#[derive(Clone, Copy, Debug, PartialEq, Eq)]
pub struct Route {
    pub method: Method,
    pub path: &'static str,
    pub handler: Handler,
    /// Whether the route stands behind the authentication middleware.
    pub protected: bool,
}

/// What a `Route` holds.
pub struct RouteView {
    pub method: Method,
    pub path: Seq<char>,
    pub handler: Handler,
    pub protected: bool,
}

impl View for Route {
    type V = RouteView;

    open spec fn view(&self) -> RouteView {
        RouteView {
            method: self.method,
            path: self.path@,
            handler: self.handler,
            protected: self.protected,
        }
    }
}

/// The route to `handler`, protected if the handler asks for it.
pub open spec fn route(method: Method, path: Seq<char>, handler: Handler) -> RouteView {
    RouteView { method, path, handler, protected: handler.protected() }
}

/// The routes below `/users`.
pub open spec fn user_route_table() -> Seq<RouteView> {
    seq![
        route(Method::Post, "/register"@, Handler::CreateUser),
        route(Method::Post, "/login"@, Handler::LoginUser),
        route(Method::Get, "/get_user"@, Handler::GetUser),
    ]
}

/// The routes below `/tasks`.
pub open spec fn task_route_table() -> Seq<RouteView> {
    seq![
        route(Method::Post, ""@, Handler::CreateTask),
        route(Method::Get, ""@, Handler::GetTasks),
        route(Method::Get, "/{task_id}"@, Handler::GetTask),
        route(Method::Put, "/{task_id}"@, Handler::UpdateTask),
        route(Method::Delete, "/{task_id}"@, Handler::DeleteTask),
    ]
}

/// The views of `routes`, in their order.
pub open spec fn route_views(routes: Seq<Route>) -> Seq<RouteView> {
    routes.map(|i: int, r: Route| r@)
}

fn make_route(method: Method, path: &'static str, handler: Handler) -> (r: Route)
    ensures
        r@ == route(method, path@, handler),
{
    Route { method, path, handler, protected: handler.is_protected() }
}

/// The routes below `/users`, in the order in which they are tried.
pub fn user_routes() -> (routes: Vec<Route>)
    ensures
        route_views(routes@) == user_route_table(),
{
    let mut routes: Vec<Route> = Vec::new();
    routes.push(make_route(Method::Post, "/register", Handler::CreateUser));
    routes.push(make_route(Method::Post, "/login", Handler::LoginUser));
    routes.push(make_route(Method::Get, "/get_user", Handler::GetUser));
    assert(route_views(routes@) =~= user_route_table());
    routes
}

/// The routes below `/tasks`, in the order in which they are tried.
pub fn task_routes() -> (routes: Vec<Route>)
    ensures
        route_views(routes@) == task_route_table(),
{
    let mut routes: Vec<Route> = Vec::new();
    routes.push(make_route(Method::Post, "", Handler::CreateTask));
    routes.push(make_route(Method::Get, "", Handler::GetTasks));
    routes.push(make_route(Method::Get, "/{task_id}", Handler::GetTask));
    routes.push(make_route(Method::Put, "/{task_id}", Handler::UpdateTask));
    routes.push(make_route(Method::Delete, "/{task_id}", Handler::DeleteTask));
    assert(route_views(routes@) =~= task_route_table());
    routes
}

/// Every task route stands behind the middleware, and of the user routes
/// exactly the listing of users does.
pub proof fn lemma_protected_routes()
    ensures
        forall|i: int|
            0 <= i < task_route_table().len() ==> (#[trigger] task_route_table()[i]).protected,
        forall|i: int|
            0 <= i < user_route_table().len() ==> ((#[trigger] user_route_table()[i]).protected
                <==> user_route_table()[i].handler == Handler::GetUser),
{
}

/// The greeting at the root of the service.
#[derive(Debug, PartialEq, Eq)]
pub struct Greeting {
    pub message: String,
    pub status: u16,
}

/// Greets whoever asks for the root.
pub fn hello() -> (greeting: Greeting)
    ensures
        greeting.message@ == "Hello world"@,
        greeting.status == 201,
{
    Greeting { message: "Hello world".to_owned(), status: 201 }
}

} // verus!
