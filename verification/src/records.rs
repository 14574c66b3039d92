//! The records the catalogue returns, and the shape of the data each query
//! wraps them in. The client hands the records on as they came.

use vstd::prelude::*;

verus! {

/// A tag of the catalogue.
#[derive(Debug, PartialEq, Eq)]
pub struct Tag {
    pub id: String,
    pub name: String,
}

/// A performer of the catalogue.
#[derive(Debug, PartialEq, Eq)]
pub struct Performer {
    pub id: String,
    pub name: String,
}

/// A marker on a scene of the catalogue.
#[derive(Debug, PartialEq, Eq)]
pub struct SceneMarker {
    pub id: String,
    pub title: String,
}

/// A scene marker as the query returns it.
pub type GqlMarker = SceneMarker;

/// What `findTags` returns.
#[derive(Debug, PartialEq, Eq)]
pub struct FindTags {
    pub tags: Vec<Tag>,
}

/// The data of a reply to [`FindTagsQuery`](crate::query::FindTagsQuery).
#[derive(Debug, PartialEq, Eq)]
pub struct FindTagsData {
    pub find_tags: FindTags,
}

/// What `findSceneMarkers` returns.
#[derive(Debug, PartialEq, Eq)]
pub struct FindSceneMarkers {
    pub scene_markers: Vec<SceneMarker>,
}

/// The data of a reply to [`FindMarkersQuery`](crate::query::FindMarkersQuery).
#[derive(Debug, PartialEq, Eq)]
pub struct FindMarkersData {
    pub find_scene_markers: FindSceneMarkers,
}

/// What `findPerformers` returns.
#[derive(Debug, PartialEq, Eq)]
pub struct FindPerformers {
    pub performers: Vec<Performer>,
}

/// The data of a reply to [`FindPerformersQuery`](crate::query::FindPerformersQuery).
#[derive(Debug, PartialEq, Eq)]
pub struct FindPerformersData {
    pub find_performers: FindPerformers,
}

} // verus!
