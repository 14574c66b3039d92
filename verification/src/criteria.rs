//! The criteria a scene-marker query can filter by, and the one filter this
//! client ever builds: an inclusion test on performers or on tags, chosen by
//! a [`FilterMode`].

use vstd::prelude::*;

verus! {

/// Which of the two criteria a scene-marker query filters by.
#[derive(Clone, Copy, Debug, PartialEq, Eq, Structural)]
pub enum FilterMode {
    /// Match markers by the performers that appear in them.
    ByPerformers,
    /// Match markers by the tags attached to them.
    ByTags,
}

/// How a criterion compares a record's values with the given ones.
#[derive(Clone, Copy, Debug, PartialEq, Eq, Structural)]
pub enum CriterionModifier {
    Equals,
    NotEquals,
    GreaterThan,
    LessThan,
    IsNull,
    NotNull,
    IncludesAll,
    /// The record is associated with at least one of the given identifiers.
    Includes,
    Excludes,
    MatchesRegex,
    NotMatchesRegex,
    Between,
    NotBetween,
}

/// A criterion over a list of identifiers.
#[derive(Debug, PartialEq, Eq)]
pub struct MultiCriterionInput {
    pub modifier: CriterionModifier,
    pub value: Option<Vec<String>>,
}

/// What a [`MultiCriterionInput`] says.
pub struct MultiCriterion {
    pub modifier: CriterionModifier,
    pub value: Option<Seq<Seq<char>>>,
}

impl View for MultiCriterionInput {
    type V = MultiCriterion;

    open spec fn view(&self) -> MultiCriterion {
        MultiCriterion { modifier: self.modifier, value: self.value.deep_view() }
    }
}

/// A criterion over a list of identifiers of a hierarchy, which may also
/// reach `depth` levels below each of them.
#[derive(Debug, PartialEq, Eq)]
pub struct HierarchicalMultiCriterionInput {
    pub depth: Option<i64>,
    pub modifier: CriterionModifier,
    pub value: Option<Vec<String>>,
}

/// What a [`HierarchicalMultiCriterionInput`] says.
pub struct HierarchicalMultiCriterion {
    pub depth: Option<i64>,
    pub modifier: CriterionModifier,
    pub value: Option<Seq<Seq<char>>>,
}

impl View for HierarchicalMultiCriterionInput {
    type V = HierarchicalMultiCriterion;

    open spec fn view(&self) -> HierarchicalMultiCriterion {
        HierarchicalMultiCriterion {
            depth: self.depth,
            modifier: self.modifier,
            value: self.value.deep_view(),
        }
    }
}

/// A criterion over a point in time, or over a span between two of them.
#[derive(Debug, PartialEq, Eq)]
pub struct TimestampCriterionInput {
    pub value: String,
    pub value2: Option<String>,
    pub modifier: CriterionModifier,
}

/// A criterion over a calendar date, or over a span between two of them.
#[derive(Debug, PartialEq, Eq)]
pub struct DateCriterionInput {
    pub value: String,
    pub value2: Option<String>,
    pub modifier: CriterionModifier,
}

/// What a [`TimestampCriterionInput`] or a [`DateCriterionInput`] says.
pub struct RangeCriterion {
    pub value: Seq<char>,
    pub value2: Option<Seq<char>>,
    pub modifier: CriterionModifier,
}

impl View for TimestampCriterionInput {
    type V = RangeCriterion;

    open spec fn view(&self) -> RangeCriterion {
        RangeCriterion {
            value: self.value@,
            value2: self.value2.deep_view(),
            modifier: self.modifier,
        }
    }
}

impl View for DateCriterionInput {
    type V = RangeCriterion;

    open spec fn view(&self) -> RangeCriterion {
        RangeCriterion {
            value: self.value@,
            value2: self.value2.deep_view(),
            modifier: self.modifier,
        }
    }
}

/// The filter of a scene-marker query: every criterion the remote schema
/// offers, each of them optional.
#[derive(Debug, PartialEq, Eq)]
pub struct SceneMarkerFilterType {
    pub created_at: Option<TimestampCriterionInput>,
    pub scene_created_at: Option<TimestampCriterionInput>,
    pub scene_updated_at: Option<TimestampCriterionInput>,
    pub updated_at: Option<TimestampCriterionInput>,
    pub performers: Option<MultiCriterionInput>,
    pub scene_date: Option<DateCriterionInput>,
    pub scene_tags: Option<HierarchicalMultiCriterionInput>,
    pub tag_id: Option<String>,
    pub tags: Option<HierarchicalMultiCriterionInput>,
}

/// What a [`SceneMarkerFilterType`] says.
pub struct SceneMarkerFilter {
    pub created_at: Option<RangeCriterion>,
    pub scene_created_at: Option<RangeCriterion>,
    pub scene_updated_at: Option<RangeCriterion>,
    pub updated_at: Option<RangeCriterion>,
    pub performers: Option<MultiCriterion>,
    pub scene_date: Option<RangeCriterion>,
    pub scene_tags: Option<HierarchicalMultiCriterion>,
    pub tag_id: Option<Seq<char>>,
    pub tags: Option<HierarchicalMultiCriterion>,
}

impl View for SceneMarkerFilterType {
    type V = SceneMarkerFilter;

    open spec fn view(&self) -> SceneMarkerFilter {
        SceneMarkerFilter {
            created_at: match self.created_at {
                Some(c) => Some(c@),
                None => None,
            },
            scene_created_at: match self.scene_created_at {
                Some(c) => Some(c@),
                None => None,
            },
            scene_updated_at: match self.scene_updated_at {
                Some(c) => Some(c@),
                None => None,
            },
            updated_at: match self.updated_at {
                Some(c) => Some(c@),
                None => None,
            },
            performers: match self.performers {
                Some(c) => Some(c@),
                None => None,
            },
            scene_date: match self.scene_date {
                Some(c) => Some(c@),
                None => None,
            },
            scene_tags: match self.scene_tags {
                Some(c) => Some(c@),
                None => None,
            },
            tag_id: self.tag_id.deep_view(),
            tags: match self.tags {
                Some(c) => Some(c@),
                None => None,
            },
        }
    }
}

impl SceneMarkerFilter {
    /// The filter with no criterion at all.
    pub open spec fn absent() -> SceneMarkerFilter {
        SceneMarkerFilter {
            created_at: None,
            scene_created_at: None,
            scene_updated_at: None,
            updated_at: None,
            performers: None,
            scene_date: None,
            scene_tags: None,
            tag_id: None,
            tags: None,
        }
    }

    /// The filter this client sends for `ids` under `mode`: the criterion
    /// that `mode` names includes `ids`, in the order given, and nothing else
    /// is set.
    pub open spec fn for_mode(ids: Seq<Seq<char>>, mode: FilterMode) -> SceneMarkerFilter {
        match mode {
            FilterMode::ByPerformers => SceneMarkerFilter {
                performers: Some(
                    MultiCriterion { modifier: CriterionModifier::Includes, value: Some(ids) },
                ),
                ..SceneMarkerFilter::absent()
            },
            FilterMode::ByTags => SceneMarkerFilter {
                tags: Some(
                    HierarchicalMultiCriterion {
                        depth: None,
                        modifier: CriterionModifier::Includes,
                        value: Some(ids),
                    },
                ),
                ..SceneMarkerFilter::absent()
            },
        }
    }

    /// Exactly one of the performers and the tags criterion is set, and no
    /// other criterion is.
    pub open spec fn has_single_criterion(self) -> bool {
        &&& (self.performers is Some) != (self.tags is Some)
        &&& self.created_at is None
        &&& self.scene_created_at is None
        &&& self.scene_updated_at is None
        &&& self.updated_at is None
        &&& self.scene_date is None
        &&& self.scene_tags is None
        &&& self.tag_id is None
    }
}

impl SceneMarkerFilterType {
    /// Builds the filter for `ids` under `mode`.
    ///
    /// The identifiers are passed on as they are: same order, nothing
    /// dropped, nothing merged.
    pub fn for_mode(ids: Vec<String>, mode: FilterMode) -> (filter: SceneMarkerFilterType)
        ensures
            filter@ == SceneMarkerFilter::for_mode(ids.deep_view(), mode),
            filter@.has_single_criterion(),
            filter@.performers is Some <==> mode == FilterMode::ByPerformers,
            filter@.tags is Some <==> mode == FilterMode::ByTags,
            !(filter@.performers is Some && filter@.tags is Some),
    {
        match mode {
            FilterMode::ByPerformers => SceneMarkerFilterType {
                created_at: None,
                scene_created_at: None,
                scene_updated_at: None,
                updated_at: None,
                performers: Some(
                    MultiCriterionInput { modifier: CriterionModifier::Includes, value: Some(ids) },
                ),
                scene_date: None,
                scene_tags: None,
                tag_id: None,
                tags: None,
            },
            FilterMode::ByTags => SceneMarkerFilterType {
                created_at: None,
                scene_created_at: None,
                scene_updated_at: None,
                updated_at: None,
                performers: None,
                scene_date: None,
                scene_tags: None,
                tag_id: None,
                tags: Some(
                    HierarchicalMultiCriterionInput {
                        depth: None,
                        modifier: CriterionModifier::Includes,
                        value: Some(ids),
                    },
                ),
            },
        }
    }
}

/// Whatever the identifiers and whichever the mode, the filter built for
/// them never sets the performers criterion and the tags criterion together:
/// it sets the one the mode names, and only that one.
pub proof fn lemma_criteria_are_exclusive(ids: Seq<Seq<char>>, mode: FilterMode)
    ensures
        !(SceneMarkerFilter::for_mode(ids, mode).performers is Some && SceneMarkerFilter::for_mode(
            ids,
            mode,
        ).tags is Some),
        SceneMarkerFilter::for_mode(ids, mode).performers is Some <==> mode
            == FilterMode::ByPerformers,
        SceneMarkerFilter::for_mode(ids, mode).tags is Some <==> mode == FilterMode::ByTags,
        SceneMarkerFilter::for_mode(ids, mode).has_single_criterion(),
{
}

} // verus!
