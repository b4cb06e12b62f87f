//! Which requests are under access control.
//!
//! A request is secure when some configured route covers it: the route's
//! pattern matches somewhere in the path, and the route names no methods or
//! names the request's method. Methods are compared in upper case.

use crate::config::{SecureRoute, SecureRouteView};
use crate::error::{ConfigError, ConfigErrorView};
use crate::pattern::{
    compile, compile_error_text, compile_outcome, error_text, finds, is_match, to_uppercase,
    uppercase,
};
use regex::Regex;
use vstd::prelude::*;

verus! {

/// Whether `pattern` compiles to an expression that matches somewhere in
/// `path`.
pub open spec fn pattern_matches(pattern: Seq<char>, path: Seq<char>) -> bool {
    match compile_outcome(pattern) {
        Ok(re) => finds(re, path),
        Err(_) => false,
    }
}

/// Each of `methods` in upper case.
pub open spec fn upper_all(methods: Seq<Seq<char>>) -> Seq<Seq<char>> {
    methods.map_values(|method: Seq<char>| uppercase(method))
}

/// The methods that a compiled route holds: those of the route in upper
/// case, or none where the route names none.
pub open spec fn compiled_methods(methods: Option<Seq<Seq<char>>>) -> Option<Seq<Seq<char>>> {
    match methods {
        Some(named) => Some(upper_all(named)),
        None => None,
    }
}

/// Whether a route with the compiled methods `methods` covers a request
/// with the upper-case method `method`, given whether its pattern was found
/// in the path.
pub open spec fn covers(found: bool, methods: Option<Seq<Seq<char>>>, method: Seq<char>) -> bool {
    &&& found
    &&& match methods {
        Some(named) => named.contains(method),
        None => true,
    }
}

/// Whether `route` covers a request: its pattern matches in `path`, and it
/// names no methods or, in upper case, the upper case of `method`.
pub open spec fn route_applies(route: SecureRouteView, path: Seq<char>, method: Seq<char>) -> bool {
    covers(
        pattern_matches(route.path_pattern, path),
        compiled_methods(route.methods),
        uppercase(method),
    )
}

/// Whether a request is under access control: at least one of `routes`
/// covers it.
pub open spec fn secure(routes: Seq<SecureRouteView>, path: Seq<char>, method: Seq<char>) -> bool {
    exists|i: int| 0 <= i < routes.len() && route_applies(#[trigger] routes[i], path, method)
}

/// Whether `pattern` compiles.
pub open spec fn compiles(pattern: Seq<char>) -> bool {
    compile_outcome(pattern) is Ok
}

/// Whether the pattern of every route compiles.
pub open spec fn all_compile(routes: Seq<SecureRouteView>) -> bool {
    forall|i: int| 0 <= i < routes.len() ==> compiles(#[trigger] routes[i].path_pattern)
}

/// Whether the route at `i` is the first whose pattern does not compile.
pub open spec fn first_invalid(routes: Seq<SecureRouteView>, i: int) -> bool {
    &&& 0 <= i < routes.len()
    &&& !compiles(routes[i].path_pattern)
    &&& forall|j: int| 0 <= j < i ==> compiles(#[trigger] routes[j].path_pattern)
}

/// The error for a pattern that does not compile: it names the pattern as
/// it stands, and gives what the compiler said as the cause.
pub open spec fn route_error(pattern: Seq<char>) -> ConfigErrorView {
    ConfigErrorView::InvalidRoute {
        pattern,
        cause: compile_error_text(compile_outcome(pattern)->Err_0),
    }
}

/// Whether `error` is the error for the first of `routes` whose pattern
/// does not compile.
pub open spec fn is_route_error(routes: Seq<SecureRouteView>, error: ConfigErrorView) -> bool {
    exists|i: int| first_invalid(routes, i) && error == route_error(#[trigger] routes[i].path_pattern)
}

/// Whether `compiled` holds, route for route, what `routes` compile to.
pub open spec fn routes_compiled(compiled: Seq<CompiledRoute>, routes: Seq<SecureRouteView>) -> bool {
    &&& compiled.len() == routes.len()
    &&& forall|i: int| 0 <= i < compiled.len() ==> (#[trigger] compiled[i]).compiled_from(routes[i])
}

/// A route ready for matching: the compiled pattern, and the route's methods
/// in upper case.
pub struct CompiledRoute {
    re: Regex,
    methods: Option<Vec<String>>,
}

impl CompiledRoute {
    /// The compiled pattern.
    pub closed spec fn expression(&self) -> Regex {
        self.re
    }

    /// The methods held, or none where every method is covered.
    pub closed spec fn methods(&self) -> Option<Seq<Seq<char>>> {
        self.methods.deep_view()
    }

    /// Whether this is what `route` compiles to.
    pub open spec fn compiled_from(&self, route: SecureRouteView) -> bool {
        &&& compile_outcome(route.path_pattern) == Ok::<Regex, regex::Error>(self.expression())
        &&& self.methods() == compiled_methods(route.methods)
    }

    /// A compiled route from a compiled pattern and the methods of its route.
    /// The methods are taken to upper case.
    pub fn assemble(re: Regex, methods: &Option<Vec<String>>) -> (route: CompiledRoute)
        ensures
            route.expression() == re,
            route.methods() == compiled_methods(methods.deep_view()),
    {
        let methods = match methods {
            Some(named) => Some(uppercase_all(named)),
            None => None,
        };
        CompiledRoute { re, methods }
    }

    /// Whether the route covers a request with the upper-case method
    /// `method`, given in `found` whether its pattern was found in the path.
    pub fn covers(&self, found: bool, method: &str) -> (yes: bool)
        ensures
            yes == covers(found, self.methods(), method@),
    {
        if !found {
            return false;
        }
        match &self.methods {
            None => true,
            Some(named) => holds(named, method),
        }
    }

    /// Whether the route covers a request for `path` with the upper-case
    /// method `method`.
    pub fn applies(&self, path: &str, method: &str) -> (yes: bool)
        ensures
            yes == covers(finds(self.expression(), path@), self.methods(), method@),
    {
        let found = is_match(&self.re, path);
        self.covers(found, method)
    }
}

/// What a route becomes once `outcome`, the result of compiling its pattern,
/// is known: the compiled route, or the error that names the pattern.
pub fn compile_route(route: &SecureRoute, outcome: Result<Regex, regex::Error>) -> (compiled:
    Result<CompiledRoute, ConfigError>)
    ensures
        match outcome {
            Ok(re) => compiled matches Ok(ready) && ready.expression() == re && ready.methods()
                == compiled_methods(route@.methods),
            Err(error) => compiled matches Err(refusal) && refusal@
                == (ConfigErrorView::InvalidRoute {
                pattern: route@.path_pattern,
                cause: compile_error_text(error),
            }),
        },
{
    match outcome {
        Ok(re) => Ok(CompiledRoute::assemble(re, &route.methods)),
        Err(error) => Err(ConfigError::invalid_route(route.path_pattern.as_str(), error_text(&error))),
    }
}

/// The routes compiled, in their order; or the error for the first whose
/// pattern does not compile.
pub fn compile_routes(routes: &Vec<SecureRoute>) -> (compiled: Result<
    Vec<CompiledRoute>,
    ConfigError,
>)
    ensures
        match compiled {
            Ok(ready) => routes_compiled(ready@, routes@.map_values(|route: SecureRoute| route@)),
            Err(error) => is_route_error(routes@.map_values(|route: SecureRoute| route@), error@),
        },
{
    let ghost views = routes@.map_values(|route: SecureRoute| route@);
    let mut ready: Vec<CompiledRoute> = Vec::new();
    let mut i: usize = 0;
    while i < routes.len()
        invariant
            i <= routes.len(),
            views == routes@.map_values(|route: SecureRoute| route@),
            ready.len() == i,
            forall|k: int| 0 <= k < i ==> (#[trigger] ready@[k]).compiled_from(views[k]),
        decreases routes.len() - i,
    {
        let route = &routes[i];
        assert(views[i as int] == route@);
        match compile_route(route, compile(route.path_pattern.as_str())) {
            Ok(next) => {
                ready.push(next);
            },
            Err(error) => {
                assert forall|j: int| 0 <= j < i implies compiles(
                    #[trigger] views[j].path_pattern,
                ) by {
                    assert(ready@[j].compiled_from(views[j]));
                }
                assert(first_invalid(views, i as int));
                assert(error@ == route_error(views[i as int].path_pattern));
                return Err(error);
            },
        }
        i = i + 1;
    }
    Ok(ready)
}

/// Each of `methods` in upper case.
fn uppercase_all(methods: &Vec<String>) -> (upper: Vec<String>)
    ensures
        upper.deep_view() == upper_all(methods.deep_view()),
{
    let mut upper: Vec<String> = Vec::new();
    let mut i: usize = 0;
    while i < methods.len()
        invariant
            i <= methods.len(),
            upper.len() == i,
            forall|k: int| 0 <= k < i ==> (#[trigger] upper@[k])@ == uppercase(methods@[k]@),
        decreases methods.len() - i,
    {
        upper.push(to_uppercase(methods[i].as_str()));
        i = i + 1;
    }
    assert(upper.deep_view() =~= upper_all(methods.deep_view()));
    upper
}

/// Whether `method` is among `methods`.
fn holds(methods: &Vec<String>, method: &str) -> (yes: bool)
    ensures
        yes == methods.deep_view().contains(method@),
{
    let mut i: usize = 0;
    while i < methods.len()
        invariant
            i <= methods.len(),
            forall|k: int| 0 <= k < i ==> (#[trigger] methods@[k])@ != method@,
        decreases methods.len() - i,
    {
        if crate::text::same(methods[i].as_str(), method) {
            assert(methods.deep_view()[i as int] == method@);
            return true;
        }
        i = i + 1;
    }
    assert forall|k: int| 0 <= k < methods.deep_view().len() implies methods.deep_view()[k]
        != method@ by {
        assert(methods.deep_view()[k] == methods@[k]@);
    }
    false
}

/// How a request's method is spelt does not matter beyond its upper case:
/// two methods with the same upper case are covered by the same routes.
pub proof fn lemma_method_case_insensitive(
    routes: Seq<SecureRouteView>,
    path: Seq<char>,
    first: Seq<char>,
    second: Seq<char>,
)
    requires
        uppercase(first) == uppercase(second),
    ensures
        secure(routes, path, first) == secure(routes, path, second),
{
    if secure(routes, path, first) {
        let i = choose|i: int| 0 <= i < routes.len() && route_applies(#[trigger] routes[i], path, first);
        assert(route_applies(routes[i], path, second));
    }
    if secure(routes, path, second) {
        let i = choose|i: int|
            0 <= i < routes.len() && route_applies(#[trigger] routes[i], path, second);
        assert(route_applies(routes[i], path, first));
    }
}

/// Routes are independent of each other and of their order: a request is
/// secure under a list of routes exactly when it is under one of the two
/// parts that the list is made of.
pub proof fn lemma_secure_accumulates(
    front: Seq<SecureRouteView>,
    back: Seq<SecureRouteView>,
    path: Seq<char>,
    method: Seq<char>,
)
    ensures
        secure(front + back, path, method) == (secure(front, path, method) || secure(
            back,
            path,
            method,
        )),
{
    let all = front + back;
    if secure(all, path, method) {
        let i = choose|i: int| 0 <= i < all.len() && route_applies(#[trigger] all[i], path, method);
        if i < front.len() {
            assert(route_applies(front[i], path, method));
        } else {
            assert(route_applies(back[i - front.len()], path, method));
        }
    }
    if secure(front, path, method) {
        let i = choose|i: int|
            0 <= i < front.len() && route_applies(#[trigger] front[i], path, method);
        assert(route_applies(all[i], path, method));
    }
    if secure(back, path, method) {
        let i = choose|i: int|
            0 <= i < back.len() && route_applies(#[trigger] back[i], path, method);
        assert(route_applies(all[i + front.len()], path, method));
    }
}

} // verus!
