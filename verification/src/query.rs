//! The three queries of this client: for each its document, the variables
//! it takes, and how the records are taken out of a reply to it.

use vstd::prelude::*;
use crate::criteria::{FilterMode, SceneMarkerFilter, SceneMarkerFilterType};
use crate::paging::{FindFilter, FindFilterType};
use crate::records::{
    FindMarkersData, FindPerformersData, FindTagsData, Performer, SceneMarker, Tag,
};
use crate::reply::{ApiError, Reply};

verus! {

/// The document of [`FindTagsQuery`].
pub const FIND_TAGS_DOCUMENT: &'static str = "query FindTagsQuery { findTags { tags { id name } } }";

/// The document of [`FindMarkersQuery`].
pub const FIND_MARKERS_DOCUMENT: &'static str =
    "query FindMarkersQuery($filter: FindFilterType, $sceneMarkerFilter: SceneMarkerFilterType) { findSceneMarkers(filter: $filter, sceneMarkerFilter: $sceneMarkerFilter) { sceneMarkers { id title } } }";

/// The document of [`FindPerformersQuery`].
pub const FIND_PERFORMERS_DOCUMENT: &'static str =
    "query FindPerformersQuery { findPerformers { performers { id name } } }";

/// The body of a request: a document, the name of the operation to run from
/// it, and the values of the operation's variables.
#[derive(Debug, PartialEq, Eq)]
pub struct QueryBody<V> {
    pub variables: V,
    pub query: &'static str,
    pub operation_name: &'static str,
}

/// What a [`QueryBody`] says.
pub struct QueryText<V> {
    pub variables: V,
    pub query: Seq<char>,
    pub operation_name: Seq<char>,
}

impl<V: View> View for QueryBody<V> {
    type V = QueryText<V::V>;

    open spec fn view(&self) -> QueryText<V::V> {
        QueryText {
            variables: self.variables@,
            query: self.query@,
            operation_name: self.operation_name@,
        }
    }
}

/// The variables of a query that takes none.
#[derive(Debug, PartialEq, Eq)]
pub struct NoVariables {}

impl View for NoVariables {
    type V = ();

    open spec fn view(&self) -> () {
        ()
    }
}

/// The variables of [`FindMarkersQuery`].
#[derive(Debug, PartialEq, Eq)]
pub struct MarkerVariables {
    pub filter: Option<FindFilterType>,
    pub scene_marker_filter: Option<SceneMarkerFilterType>,
}

/// What [`MarkerVariables`] say.
pub struct MarkerSelection {
    pub filter: Option<FindFilter>,
    pub scene_marker_filter: Option<SceneMarkerFilter>,
}

impl View for MarkerVariables {
    type V = MarkerSelection;

    open spec fn view(&self) -> MarkerSelection {
        MarkerSelection {
            filter: match self.filter {
                Some(filter) => Some(filter@),
                None => None,
            },
            scene_marker_filter: match self.scene_marker_filter {
                Some(filter) => Some(filter@),
                None => None,
            },
        }
    }
}

impl MarkerSelection {
    /// Every marker that `ids` select under `mode`, in one response.
    pub open spec fn for_mode(ids: Seq<Seq<char>>, mode: FilterMode) -> MarkerSelection {
        MarkerSelection {
            filter: Some(FindFilter::everything()),
            scene_marker_filter: Some(SceneMarkerFilter::for_mode(ids, mode)),
        }
    }
}

impl MarkerVariables {
    /// The variables that ask for every marker that `ids` select under
    /// `mode`.
    ///
    /// Paging does not depend on the identifiers: the page size is always
    /// the unbounded one, and no page number is given.
    pub fn for_mode(ids: Vec<String>, mode: FilterMode) -> (variables: MarkerVariables)
        ensures
            variables@ == MarkerSelection::for_mode(ids.deep_view(), mode),
            variables@.filter is Some,
            variables@.filter->0.per_page == Some(-1i64),
            variables@.filter->0.page is None,
    {
        MarkerVariables {
            filter: Some(FindFilterType::everything()),
            scene_marker_filter: Some(SceneMarkerFilterType::for_mode(ids, mode)),
        }
    }
}

/// However many identifiers are given, and whichever the mode, a
/// scene-marker query asks for the unbounded page size and names no page.
pub proof fn lemma_markers_are_never_paged(ids: Seq<Seq<char>>, mode: FilterMode)
    ensures
        MarkerSelection::for_mode(ids, mode).filter is Some,
        MarkerSelection::for_mode(ids, mode).filter->0.per_page == Some(-1i64),
        MarkerSelection::for_mode(ids, mode).filter->0.page is None,
{
}

/// The query for every tag of the catalogue.
pub struct FindTagsQuery;

/// The query for the scene markers that a filter selects.
pub struct FindMarkersQuery;

/// The query for every performer of the catalogue.
pub struct FindPerformersQuery;

impl FindTagsQuery {
    /// The name of the operation in [`FIND_TAGS_DOCUMENT`].
    pub const OPERATION_NAME: &'static str = "FindTagsQuery";

    /// Pairs the query's document with its variables.
    pub fn build_query(variables: NoVariables) -> (body: QueryBody<NoVariables>)
        ensures
            body.variables == variables,
            body.query@ == FIND_TAGS_DOCUMENT@,
            body.operation_name@ == FindTagsQuery::OPERATION_NAME@,
    {
        QueryBody {
            variables,
            query: FIND_TAGS_DOCUMENT,
            operation_name: FindTagsQuery::OPERATION_NAME,
        }
    }

    /// Takes the tags out of a reply to this query, or says why the call
    /// failed.
    ///
    /// The tags are the ones the reply's data holds, all of them, in the
    /// server's order.
    pub fn read_reply(reply: Reply<FindTagsData>) -> (result: Result<Vec<Tag>, ApiError>)
        ensures
            match reply.outcome() {
                Ok(data) => result is Ok && result->Ok_0@ == data.find_tags.tags@,
                Err(failure) => result is Err && result->Err_0@ == failure,
            },
    {
        match reply.conclude() {
            Ok(data) => Ok(data.find_tags.tags),
            Err(error) => Err(error),
        }
    }
}

impl FindMarkersQuery {
    /// The name of the operation in [`FIND_MARKERS_DOCUMENT`].
    pub const OPERATION_NAME: &'static str = "FindMarkersQuery";

    /// Pairs the query's document with its variables.
    pub fn build_query(variables: MarkerVariables) -> (body: QueryBody<MarkerVariables>)
        ensures
            body.variables == variables,
            body.query@ == FIND_MARKERS_DOCUMENT@,
            body.operation_name@ == FindMarkersQuery::OPERATION_NAME@,
    {
        QueryBody {
            variables,
            query: FIND_MARKERS_DOCUMENT,
            operation_name: FindMarkersQuery::OPERATION_NAME,
        }
    }

    /// Takes the scene markers out of a reply to this query, or says why the
    /// call failed.
    ///
    /// The markers are the ones the reply's data holds, all of them, in the
    /// server's order.
    pub fn read_reply(reply: Reply<FindMarkersData>) -> (result: Result<
        Vec<SceneMarker>,
        ApiError,
    >)
        ensures
            match reply.outcome() {
                Ok(data) => result is Ok && result->Ok_0@
                    == data.find_scene_markers.scene_markers@,
                Err(failure) => result is Err && result->Err_0@ == failure,
            },
    {
        match reply.conclude() {
            Ok(data) => Ok(data.find_scene_markers.scene_markers),
            Err(error) => Err(error),
        }
    }
}

impl FindPerformersQuery {
    /// The name of the operation in [`FIND_PERFORMERS_DOCUMENT`].
    pub const OPERATION_NAME: &'static str = "FindPerformersQuery";

    /// Pairs the query's document with its variables.
    pub fn build_query(variables: NoVariables) -> (body: QueryBody<NoVariables>)
        ensures
            body.variables == variables,
            body.query@ == FIND_PERFORMERS_DOCUMENT@,
            body.operation_name@ == FindPerformersQuery::OPERATION_NAME@,
    {
        QueryBody {
            variables,
            query: FIND_PERFORMERS_DOCUMENT,
            operation_name: FindPerformersQuery::OPERATION_NAME,
        }
    }

    /// Takes the performers out of a reply to this query, or says why the
    /// call failed.
    ///
    /// The performers are the ones the reply's data holds, all of them, in
    /// the server's order.
    pub fn read_reply(reply: Reply<FindPerformersData>) -> (result: Result<
        Vec<Performer>,
        ApiError,
    >)
        ensures
            match reply.outcome() {
                Ok(data) => result is Ok && result->Ok_0@ == data.find_performers.performers@,
                Err(failure) => result is Err && result->Err_0@ == failure,
            },
    {
        match reply.conclude() {
            Ok(data) => Ok(data.find_performers.performers),
            Err(error) => Err(error),
        }
    }
}

} // verus!
