use vstd::prelude::*;
use vstd::utf8::{decode_utf8, encode_utf8, encode_utf8_decode_utf8};

verus! {

/// The screens of the application.
#[derive(Clone, Copy, Debug, PartialEq, Eq, Structural)]
pub enum Route {
    Login,
    Todos,
    Registration,
}

/// The path under which a screen is reached.
pub open spec fn route_path(route: Route) -> Seq<char> {
    match route {
        Route::Login => seq!['/'],
        Route::Todos => seq!['/', 't', 'o', 'd', 'o', 's'],
        Route::Registration => seq![
            '/', 'r', 'e', 'g', 'i', 's', 't', 'r', 'a', 't', 'i', 'o', 'n'
        ],
    }
}

/// The screen reached under a path, if any.
pub open spec fn route_at(path: Seq<char>) -> Option<Route> {
    if path == route_path(Route::Login) {
        Some(Route::Login)
    } else if path == route_path(Route::Todos) {
        Some(Route::Todos)
    } else if path == route_path(Route::Registration) {
        Some(Route::Registration)
    } else {
        None
    }
}

/// Whether two texts are the same, compared by their UTF-8 bytes.
pub fn same_text(a: &str, b: &str) -> (r: bool)
    ensures
        r == (a@ == b@),
{
    let x = a.as_bytes();
    let y = b.as_bytes();
    proof {
        encode_utf8_decode_utf8(a@);
        encode_utf8_decode_utf8(b@);
    }
    if x.len() != y.len() {
        return false;
    }
    let n = x.len();
    for i in 0..n
        invariant
            n == x@.len(),
            n == y@.len(),
            x@ == encode_utf8(a@),
            y@ == encode_utf8(b@),
            decode_utf8(encode_utf8(a@)) == a@,
            decode_utf8(encode_utf8(b@)) == b@,
            forall|j: int| 0 <= j < i ==> x@[j] == y@[j],
    {
        if x[i] != y[i] {
            return false;
        }
    }
    assert(x@ =~= y@);
    true
}

impl Route {
    /// The path of this screen.
    pub fn path(&self) -> (p: &'static str)
        ensures
            p@ == route_path(*self),
    {
        match self {
            Route::Login => {
                proof {
                    reveal_strlit("/");
                }
                "/"
            },
            Route::Todos => {
                proof {
                    reveal_strlit("/todos");
                }
                "/todos"
            },
            Route::Registration => {
                proof {
                    reveal_strlit("/registration");
                }
                "/registration"
            },
        }
    }

    /// The screen reached under `path`; `None` for a path that leads nowhere.
    pub fn from_path(path: &str) -> (r: Option<Route>)
        ensures
            r == route_at(path@),
    {
        if same_text(path, Route::Login.path()) {
            Some(Route::Login)
        } else if same_text(path, Route::Todos.path()) {
            Some(Route::Todos)
        } else if same_text(path, Route::Registration.path()) {
            Some(Route::Registration)
        } else {
            None
        }
    }
}

/// Every screen is found again under its own path, and no two screens share
/// a path.
pub proof fn lemma_route_path_round_trip(route: Route, other: Route)
    ensures
        route_at(route_path(route)) == Some(route),
        route_path(route) == route_path(other) ==> route == other,
{
    assert(route_path(Route::Login) != route_path(Route::Todos)) by {
        assert(route_path(Route::Login).len() != route_path(Route::Todos).len());
    }
    assert(route_path(Route::Login) != route_path(Route::Registration)) by {
        assert(route_path(Route::Login).len() != route_path(Route::Registration).len());
    }
    assert(route_path(Route::Todos) != route_path(Route::Registration)) by {
        assert(route_path(Route::Todos).len() != route_path(Route::Registration).len());
    }
}

} // verus!
