//! Traits used by the library: the ways in which a model says by what it is
//! found, what route leads to it, and how it is fetched.

use vstd::prelude::*;
use crate::clone::FaithfulClone;
use crate::error::Error;
use crate::http::client::Client;
use crate::http::headers::header_values;
use crate::http::request::HttpRequest;
use crate::http::response::Response;
use crate::http::routes::{Route, RouteView};

verus! {

/// A type with a property by which it is fetched, such as a tag, and a route
/// with which to fetch it.
pub trait GetFetchProp: Sized {
    type Property: View + ?Sized;

    /// The property by which this instance is fetched.
    spec fn spec_fetch_prop(&self) -> <Self::Property as View>::V;

    /// The route that leads to the instance with the property `prop`.
    /// `auto_hashtag` says whether a tag that lacks the hash sign gets one.
    spec fn spec_route(prop: <Self::Property as View>::V, auto_hashtag: bool) -> RouteView;

    /// Obtain the relevant property for fetching.
    fn get_fetch_prop(&self) -> (prop: &Self::Property)
        ensures
            prop@ == self.spec_fetch_prop(),
    ;

    /// Obtain the route for fetching by using a property, completing a tag that
    /// lacks the hash sign only where `auto_hashtag` is set.
    fn get_route_with(prop: &Self::Property, auto_hashtag: bool) -> (route: Route)
        ensures
            route@ == Self::spec_route(prop@, auto_hashtag),
    ;

    /// Obtain the route for fetching by using a property. A tag that lacks the
    /// hash sign gets one.
    fn get_route(prop: &Self::Property) -> (route: Route)
        ensures
            route@ == Self::spec_route(prop@, true),
    {
        Self::get_route_with(prop, true)
    }
}

/// The URL that a property leads to is settled by the property and the flag:
/// the same property gives the same URL, however often it is asked for.
pub proof fn route_is_determined<T: GetFetchProp>(
    first: <T::Property as View>::V,
    second: <T::Property as View>::V,
    auto_hashtag: bool,
)
    requires
        first == second,
    ensures
        T::spec_route(first, auto_hashtag).url() == T::spec_route(second, auto_hashtag).url(),
{
}

/// A weaker variant of `GetFetchProp`: the route can be obtained from a
/// property, but the property cannot be obtained from an instance. All
/// `GetFetchProp` implementers also implement `PropRouteable`.
pub trait PropRouteable: Sized {
    type Property: View + ?Sized;

    /// The route that leads to the instance with the property `prop`.
    spec fn spec_route(prop: <Self::Property as View>::V, auto_hashtag: bool) -> RouteView;

    /// Obtain the route for fetching by using a property, completing a tag that
    /// lacks the hash sign only where `auto_hashtag` is set.
    fn get_route_with(prop: &Self::Property, auto_hashtag: bool) -> (route: Route)
        ensures
            route@ == Self::spec_route(prop@, auto_hashtag),
    ;

    /// Obtain the route for fetching by using a property. A tag that lacks the
    /// hash sign gets one.
    fn get_route(prop: &Self::Property) -> (route: Route)
        ensures
            route@ == Self::spec_route(prop@, true),
    {
        Self::get_route_with(prop, true)
    }
}

impl<T: GetFetchProp> PropRouteable for T {
    type Property = <T as GetFetchProp>::Property;

    open spec fn spec_route(
        prop: <<T as GetFetchProp>::Property as View>::V,
        auto_hashtag: bool,
    ) -> RouteView {
        <T as GetFetchProp>::spec_route(prop, auto_hashtag)
    }

    fn get_route_with(prop: &<T as GetFetchProp>::Property, auto_hashtag: bool) -> (route: Route) {
        <T as GetFetchProp>::get_route_with(prop, auto_hashtag)
    }
}

/// A type whose instance can be fetched from the API using some property. This
/// is usually the object's tag. A fetch is one request and one response: the
/// library says what to ask, the caller sends it, and the library reads what
/// came back.
pub trait PropFetchable: Sized {
    type Property: View + ?Sized;

    /// The route that a fetch by `prop` asks for.
    spec fn spec_fetch_route(prop: <Self::Property as View>::V, auto_hashtag: bool) -> RouteView;

    /// Whether `r` is what the response to a fetch by `prop` reads as.
    spec fn fetched(
        prop: <Self::Property as View>::V,
        response: Response,
        r: Result<Self, Error>,
    ) -> bool;

    /// The request that fetches the instance with the property `prop`: one GET
    /// request to the URL of its route.
    fn fetch_request(client: &Client, prop: &Self::Property) -> (r: Result<HttpRequest, Error>)
        ensures
            client.asks_for(Self::spec_fetch_route(prop@, client.auto_hashtag).url(), r),
    ;

    /// Constructs a new instance of this type out of the response to the
    /// request of `fetch_request` for the same property.
    fn fetch(prop: &Self::Property, response: Response) -> (r: Result<Self, Error>)
        ensures
            Self::fetched(prop@, response, r),
    ;
}

/// A type that returns a `Route` object given a property and a limit of how
/// many to fetch.
pub trait PropLimRouteable: Sized {
    type Property: View + ?Sized;

    type Limit;

    /// The route that leads to the first `limit` items under the property `prop`.
    spec fn spec_route(prop: <Self::Property as View>::V, limit: Self::Limit) -> RouteView;

    /// Obtain the route for fetching by using a property and specifying the
    /// limit of fetching.
    fn get_route(prop: &Self::Property, limit: Self::Limit) -> (route: Route)
        ensures
            route@ == Self::spec_route(prop@, limit),
    ;
}

/// A type whose instance can be fetched from the API using some property and
/// specifying a limit of how many objects to fetch.
pub trait PropLimFetchable: Sized {
    type Property: View + ?Sized;

    type Limit;

    /// The route that a fetch by `prop` and `limit` asks for.
    spec fn spec_fetch_route(prop: <Self::Property as View>::V, limit: Self::Limit) -> RouteView;

    /// Whether `r` is what the response to a fetch reads as.
    spec fn fetched(response: Response, r: Result<Self, Error>) -> bool;

    /// The request that fetches the first `limit` items under the property
    /// `prop`: one GET request to the URL of their route.
    fn fetch_request(client: &Client, prop: &Self::Property, limit: Self::Limit) -> (r: Result<
        HttpRequest,
        Error,
    >)
        ensures
            client.asks_for(Self::spec_fetch_route(prop@, limit).url(), r),
    ;

    /// Constructs a new instance of this type out of the response to the
    /// request of `fetch_request`.
    fn fetch(response: Response) -> (r: Result<Self, Error>)
        ensures
            Self::fetched(response, r),
    ;
}

/// A type whose instance can be fetched again. All types implementing
/// `GetFetchProp` and `PropFetchable` over one property also implement
/// `Refetchable`.
pub trait Refetchable: Sized {
    /// The route that fetching this instance again asks for.
    spec fn spec_refetch_route(&self, auto_hashtag: bool) -> RouteView;

    /// Whether `r` is what the response to fetching this instance again reads
    /// as.
    spec fn refetched(&self, response: Response, r: Result<Self, Error>) -> bool;

    /// The request that fetches this instance again.
    fn refetch_request(&self, client: &Client) -> (r: Result<HttpRequest, Error>)
        ensures
            client.asks_for(self.spec_refetch_route(client.auto_hashtag).url(), r),
    ;

    /// Constructs the new instance out of the response to the request of
    /// `refetch_request`. This instance stays as it is.
    fn refetch(&self, response: Response) -> (r: Result<Self, Error>)
        ensures
            self.refetched(response, r),
    ;

    /// Like `refetch`, but puts the new instance in the place of this one,
    /// where there is one. On an error this instance stays as it is.
    fn refetch_update(&mut self, response: Response) -> (r: Result<(), Error>)
        ensures
            match r {
                Ok(_) => old(self).refetched(response, Ok(*final(self))),
                Err(e) => old(self).refetched(response, Err(e)) && *final(self) == *old(self),
            },
    {
        match self.refetch(response) {
            Ok(fresh) => {
                *self = fresh;
                Ok(())
            },
            Err(e) => Err(e),
        }
    }
}

impl<T> Refetchable for T where
    T: PropFetchable<Property = <T as GetFetchProp>::Property> + GetFetchProp,
 {
    open spec fn spec_refetch_route(&self, auto_hashtag: bool) -> RouteView {
        <T as PropFetchable>::spec_fetch_route(self.spec_fetch_prop(), auto_hashtag)
    }

    open spec fn refetched(&self, response: Response, r: Result<Self, Error>) -> bool {
        <T as PropFetchable>::fetched(self.spec_fetch_prop(), response, r)
    }

    fn refetch_request(&self, client: &Client) -> (r: Result<HttpRequest, Error>) {
        Self::fetch_request(client, self.get_fetch_prop())
    }

    fn refetch(&self, response: Response) -> (r: Result<Self, Error>) {
        Self::fetch(self.get_fetch_prop(), response)
    }
}

/// Fetching an instance again asks for the very route that fetching by the
/// property of the instance asks for: the two requests fail together, and where
/// they do not, they go to one URL with one method, the same headers and no
/// body.
pub proof fn refetch_asks_as_fetch<T>(
    client: &Client,
    instance: T,
    again: Result<HttpRequest, Error>,
    by_property: Result<HttpRequest, Error>,
) where T: PropFetchable<Property = <T as GetFetchProp>::Property> + GetFetchProp
    requires
        client.asks_for(instance.spec_refetch_route(client.auto_hashtag).url(), again),
        client.asks_for(
            <T as PropFetchable>::spec_fetch_route(
                instance.spec_fetch_prop(),
                client.auto_hashtag,
            ).url(),
            by_property,
        ),
    ensures
        instance.spec_refetch_route(client.auto_hashtag) == <T as PropFetchable>::spec_fetch_route(
            instance.spec_fetch_prop(),
            client.auto_hashtag,
        ),
        again is Ok <==> by_property is Ok,
        again is Err ==> (again->Err_0 is Url <==> by_property->Err_0 is Url),
        again matches Ok(first) ==> {
            &&& first.url@ == by_property->Ok_0.url@
            &&& first.method == by_property->Ok_0.method
            &&& header_values(first.headers) == header_values(by_property->Ok_0.headers)
            &&& first.body is None
            &&& by_property->Ok_0.body is None
        },
{
}

/// What it takes to have an instance: nothing more, where it is at hand, or a
/// request to send.
#[derive(Debug)]
pub enum Fetching<T> {
    /// The instance is at hand: nothing is asked of the API.
    Ready(T),
    /// The request that fetches the instance.
    Asking(HttpRequest),
}

/// Whether `r` is what comes of asking for `url` with the client's key, where
/// nothing is at hand yet.
pub open spec fn asking<T>(client: &Client, url: Seq<char>, r: Result<Fetching<T>, Error>) -> bool {
    match r {
        Ok(Fetching::Asking(request)) => client.asks_for(url, Ok(request)),
        Ok(Fetching::Ready(_)) => false,
        Err(e) => client.asks_for(url, Err(e)),
    }
}

/// Indicates that another type can be converted into this one by fetching from
/// the API. Implementing this implies `FetchInto` for the other type.
pub trait FetchFrom<T>: Sized {
    /// Whether `r` is the first step from `value` to an instance of this type.
    spec fn fetching_from(client: &Client, value: &T, r: Result<Fetching<Self>, Error>) -> bool;

    /// Whether `r` is what the response to the request of `fetch_from` reads as.
    spec fn fetched_from(value: &T, response: Response, r: Result<Self, Error>) -> bool;

    /// The first step from `value` to an instance of this type: the request to
    /// send, or the instance itself where no request is needed.
    fn fetch_from(client: &Client, value: &T) -> (r: Result<Fetching<Self>, Error>)
        ensures
            Self::fetching_from(client, value, r),
    ;

    /// Constructs the instance out of the response to the request of
    /// `fetch_from`.
    fn fetch_from_response(value: &T, response: Response) -> (r: Result<Self, Error>)
        ensures
            Self::fetched_from(value, response, r),
    ;
}

/// Indicates that this type can be converted into another by fetching from the
/// API. `FetchFrom` should be implemented: this trait follows from it.
pub trait FetchInto<T>: Sized {
    /// Whether `r` is the first step from this value to an instance of `T`.
    spec fn fetching_into(&self, client: &Client, r: Result<Fetching<T>, Error>) -> bool;

    /// Whether `r` is what the response to the request of `fetch_into` reads as.
    spec fn fetched_into(&self, response: Response, r: Result<T, Error>) -> bool;

    /// The first step from this value to an instance of `T`: the request to
    /// send, or the instance itself where no request is needed.
    fn fetch_into(&self, client: &Client) -> (r: Result<Fetching<T>, Error>)
        ensures
            self.fetching_into(client, r),
    ;

    /// Constructs the instance out of the response to the request of
    /// `fetch_into`.
    fn fetch_into_response(&self, response: Response) -> (r: Result<T, Error>)
        ensures
            self.fetched_into(response, r),
    ;
}

impl<T, U: FetchFrom<T>> FetchInto<U> for T {
    open spec fn fetching_into(&self, client: &Client, r: Result<Fetching<U>, Error>) -> bool {
        U::fetching_from(client, self, r)
    }

    open spec fn fetched_into(&self, response: Response, r: Result<U, Error>) -> bool {
        U::fetched_from(self, response, r)
    }

    fn fetch_into(&self, client: &Client) -> (r: Result<Fetching<U>, Error>) {
        U::fetch_from(client, self)
    }

    fn fetch_into_response(&self, response: Response) -> (r: Result<U, Error>) {
        U::fetch_from_response(self, response)
    }
}

/// `FetchFrom` (and thus `FetchInto`) is reflexive: a value of the wanted type
/// is at hand already, so nothing is asked of the API and the result is a clone
/// of the value. In order to fetch again, see `Refetchable`.
impl<T: Clone> FetchFrom<T> for T {
    open spec fn fetching_from(client: &Client, value: &T, r: Result<Fetching<T>, Error>) -> bool {
        r matches Ok(Fetching::Ready(copy)) && cloned(*value, copy)
    }

    open spec fn fetched_from(value: &T, response: Response, r: Result<T, Error>) -> bool {
        r matches Ok(copy) && cloned(*value, copy)
    }

    fn fetch_from(client: &Client, value: &T) -> (r: Result<Fetching<T>, Error>) {
        Ok(Fetching::Ready(value.clone()))
    }

    fn fetch_from_response(value: &T, response: Response) -> (r: Result<T, Error>) {
        Ok(value.clone())
    }
}

/// Fetching a value of the wanted type from itself asks nothing of the API, and
/// what comes back holds the same as the value, for every type whose clones
/// are faithful: all the models of this library are such types.
pub proof fn reflexive_fetch_keeps_the_value<T: FaithfulClone>(
    client: &Client,
    value: &T,
    response: Response,
    first: Result<Fetching<T>, Error>,
    read: Result<T, Error>,
)
    requires
        <T as FetchFrom<T>>::fetching_from(client, value, first),
        <T as FetchFrom<T>>::fetched_from(value, response, read),
    ensures
        first matches Ok(Fetching::Ready(copy)) && copy.same(value),
        read matches Ok(copy) && copy.same(value),
{
    T::clone_is_same(*value, first->Ok_0->Ready_0);
    T::clone_is_same(*value, read->Ok_0);
}

} // verus!
