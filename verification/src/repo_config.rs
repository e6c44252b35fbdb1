//! The policy that the decisions repository publishes: which labels carry
//! over to a decision, and which component answers for which specification.

use crate::text_map::TextMap;
use vstd::prelude::*;

verus! {

/// Which labels of an issue carry over to the decision filed for it.
#[derive(Debug)]
pub struct RepoConfigLabels {
    /// A label of this colour carries over.
    pub color: Option<String>,
    /// A label whose name begins with one of these carries over.
    pub prefixes: Option<Vec<String>>,
}

/// The policy on labels as mathematics.
pub struct RepoConfigLabelsView {
    pub color: Option<Seq<char>>,
    pub prefixes: Option<Seq<Seq<char>>>,
}

impl View for RepoConfigLabels {
    type V = RepoConfigLabelsView;

    open spec fn view(&self) -> RepoConfigLabelsView {
        RepoConfigLabelsView {
            color: self.color.deep_view(),
            prefixes: self.prefixes.deep_view(),
        }
    }
}

/// The policy of the decisions repository.
#[derive(Debug)]
pub struct RepoConfig {
    pub labels: Option<RepoConfigLabels>,
    /// From a specification's short name to `Product :: Component`; the key
    /// `default` answers for the specifications that have no entry.
    pub components: Option<TextMap>,
}

/// The policy as mathematics: the components as a map from text to text.
pub struct RepoConfigView {
    pub labels: Option<RepoConfigLabelsView>,
    pub components: Option<Map<Seq<char>, Seq<char>>>,
}

impl View for RepoConfig {
    type V = RepoConfigView;

    open spec fn view(&self) -> RepoConfigView {
        RepoConfigView {
            labels: match self.labels {
                Some(labels) => Some(labels@),
                None => None,
            },
            components: match self.components {
                Some(components) => Some(components@),
                None => None,
            },
        }
    }
}

impl Default for RepoConfigLabels {
    fn default() -> (r: RepoConfigLabels)
        ensures
            r@ == (RepoConfigLabelsView { color: None, prefixes: None }),
    {
        RepoConfigLabels { color: None, prefixes: None }
    }
}

impl Default for RepoConfig {
    fn default() -> (r: RepoConfig)
        ensures
            r@ == (RepoConfigView { labels: None, components: None }),
    {
        RepoConfig { labels: None, components: None }
    }
}

} // verus!
