//! The client: where the catalogue is and the key that opens it, and the
//! request each of the three operations sends.

use vstd::prelude::*;
use vstd::string::StringExecFns;
use crate::criteria::FilterMode;
use crate::query::{
    FindMarkersQuery, FindPerformersQuery, FindTagsQuery, MarkerSelection, MarkerVariables,
    NoVariables, QueryBody, QueryText, FIND_MARKERS_DOCUMENT, FIND_PERFORMERS_DOCUMENT,
    FIND_TAGS_DOCUMENT,
};

verus! {

/// What is appended to the catalogue's address to reach its query endpoint.
pub const GRAPHQL_PATH: &'static str = "/graphql";

/// The name of the header that carries the API key.
pub const API_KEY_HEADER: &'static str = "ApiKey";

/// Where the catalogue is and the key that opens it, as configured.
#[derive(Debug, PartialEq, Eq)]
pub struct Config {
    pub stash_url: String,
    pub api_key: String,
}

/// A request to the catalogue: an HTTP POST to `url` that carries the header
/// `header_name: header_value` and has `body`, as JSON, for its content.
#[derive(Debug, PartialEq, Eq)]
pub struct Request<V> {
    pub url: String,
    pub header_name: &'static str,
    pub header_value: String,
    pub body: QueryBody<V>,
}

/// What a [`Request`] says.
pub struct RequestText<V> {
    pub url: Seq<char>,
    pub header_name: Seq<char>,
    pub header_value: Seq<char>,
    pub body: QueryText<V>,
}

impl<V: View> View for Request<V> {
    type V = RequestText<V::V>;

    open spec fn view(&self) -> RequestText<V::V> {
        RequestText {
            url: self.url@,
            header_name: self.header_name@,
            header_value: self.header_value@,
            body: self.body@,
        }
    }
}

/// A client of one catalogue. It is made once and never changes.
pub struct Api {
    api_url: String,
    api_key: String,
}

/// What an [`Api`] holds.
pub struct Session {
    pub base_url: Seq<char>,
    pub api_key: Seq<char>,
}

impl Session {
    /// The request that carries `body` to this session's catalogue: it goes
    /// to the address followed by `/graphql`, with the key in the `ApiKey`
    /// header.
    pub open spec fn request<V>(self, body: QueryText<V>) -> RequestText<V> {
        RequestText {
            url: self.base_url + GRAPHQL_PATH@,
            header_name: API_KEY_HEADER@,
            header_value: self.api_key,
            body,
        }
    }
}

impl View for Api {
    type V = Session;

    closed spec fn view(&self) -> Session {
        Session { base_url: self.api_url@, api_key: self.api_key@ }
    }
}

impl Api {
    /// A client of the catalogue at `url`, with `api_key` for its key.
    /// Neither is examined: a malformed address shows when a request to it
    /// is sent.
    pub fn new(url: &str, api_key: &str) -> (api: Api)
        ensures
            api@ == (Session { base_url: url@, api_key: api_key@ }),
    {
        Api { api_url: url.to_owned(), api_key: api_key.to_owned() }
    }

    /// A client of the catalogue that `config` names.
    pub fn from_config(config: &Config) -> (api: Api)
        ensures
            api@ == (Session { base_url: config.stash_url@, api_key: config.api_key@ }),
    {
        Api::new(config.stash_url.as_str(), config.api_key.as_str())
    }

    /// A client of the catalogue named by a configuration that was just
    /// loaded, or the error that loading it gave, as it is.
    pub fn load_config<E>(loaded: Result<Config, E>) -> (result: Result<Api, E>)
        ensures
            match loaded {
                Ok(config) => result is Ok && result->Ok_0@ == (Session {
                    base_url: config.stash_url@,
                    api_key: config.api_key@,
                }),
                Err(error) => result == Err::<Api, E>(error),
            },
    {
        match loaded {
            Ok(config) => Ok(Api::from_config(&config)),
            Err(error) => Err(error),
        }
    }

    /// Wraps `body` in a request to this client's catalogue.
    fn post<V: View>(&self, body: QueryBody<V>) -> (request: Request<V>)
        ensures
            request@ == self@.request(body@),
            request.body == body,
    {
        let url = self.api_url.clone().concat(GRAPHQL_PATH);
        Request { url, header_name: API_KEY_HEADER, header_value: self.api_key.clone(), body }
    }

    /// The request that lists every tag.
    pub fn find_tags(&self) -> (request: Request<NoVariables>)
        ensures
            request@ == self@.request(
                QueryText {
                    variables: (),
                    query: FIND_TAGS_DOCUMENT@,
                    operation_name: FindTagsQuery::OPERATION_NAME@,
                },
            ),
    {
        self.post(FindTagsQuery::build_query(NoVariables {  }))
    }

    /// The request that lists every scene marker that `ids` select under
    /// `mode`.
    ///
    /// Under `ByPerformers` the markers are those in which one of the
    /// performers `ids` appears; under `ByTags`, those that carry one of
    /// the tags `ids`. The request asks for all of them at once.
    pub fn find_markers(&self, ids: Vec<String>, mode: FilterMode) -> (request: Request<
        MarkerVariables,
    >)
        ensures
            request@ == self@.request(
                QueryText {
                    variables: MarkerSelection::for_mode(ids.deep_view(), mode),
                    query: FIND_MARKERS_DOCUMENT@,
                    operation_name: FindMarkersQuery::OPERATION_NAME@,
                },
            ),
    {
        self.post(FindMarkersQuery::build_query(MarkerVariables::for_mode(ids, mode)))
    }

    /// The request that lists every performer.
    pub fn find_performers(&self) -> (request: Request<NoVariables>)
        ensures
            request@ == self@.request(
                QueryText {
                    variables: (),
                    query: FIND_PERFORMERS_DOCUMENT@,
                    operation_name: FindPerformersQuery::OPERATION_NAME@,
                },
            ),
    {
        self.post(FindPerformersQuery::build_query(NoVariables {  }))
    }
}

} // verus!
