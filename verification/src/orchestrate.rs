//! Prepares one run: derives the output path first — before any graph
//! resource exists — then resolves the fixed topology against the engine's
//! registry, binds both file locations, and embeds the comment tag.

use vstd::prelude::*;
use crate::bytes::{views, copy_bytes};
use crate::graph::{
    build, standard_descriptor, standard_names, standard_types, standard_links, missing_spec,
    node_names, node_types, Graph, ConfigError,
};
use crate::path_resolve::{resolve_output_path, resolve_spec, PathError};
use crate::tags::{
    embed_comment, tags_view, value_of, comment_key, TagList,
};

verus! {

/// Everything a run needs, ready before playback: the idle graph skeleton,
/// both file locations, and the mux node's tags.
pub struct Plan {
    pub graph: Graph,
    pub input_path: Vec<u8>,
    pub output_path: Vec<u8>,
    pub tags: TagList,
}

/// Why no run could be prepared.
pub enum PlanError {
    /// The input path lacks a component; found before any graph resource
    /// is allocated.
    Path(PathError),
    /// The descriptor references node types the registry lacks.
    Config(ConfigError),
}

/// Prepares a run from the input path, the tag value and the engine's
/// registry of available node types. The output path is derived first, so
/// a path failure precedes any graph construction; then the fixed
/// topology is resolved against the registry; then the comment tag is
/// embedded, the caller's bytes passing through exactly.
pub fn prepare_run(input_path: &Vec<u8>, tag_value: &Vec<u8>, registry: &Vec<Vec<u8>>) -> (r:
    Result<Plan, PlanError>)
    ensures
        match r {
            Ok(p) => {
                &&& resolve_spec(input_path@) == Ok::<Seq<u8>, PathError>(p.output_path@)
                &&& missing_spec(standard_types(), views(registry@)).len() == 0
                &&& p.graph.wf()
                &&& node_names(p.graph) == standard_names()
                &&& node_types(p.graph) == standard_types()
                &&& p.graph.static_links@ == standard_links()
                &&& p.graph.streams@.len() == 0
                &&& p.graph.state is Null
                &&& p.input_path@ == input_path@
                &&& tags_view(p.tags) == seq![(comment_key(), tag_value@)]
                &&& value_of(tags_view(p.tags), comment_key()) == Some(tag_value@)
            },
            Err(PlanError::Path(pe)) => resolve_spec(input_path@) == Err::<Seq<u8>, PathError>(
                pe,
            ),
            Err(PlanError::Config(c)) => {
                &&& resolve_spec(input_path@) is Ok
                &&& views(c.missing@) == missing_spec(standard_types(), views(registry@))
                &&& views(c.missing@).len() > 0
            },
        },
{
    let output_path: Vec<u8> = match resolve_output_path(input_path) {
        Err(e) => {
            return Err(PlanError::Path(e));
        },
        Ok(o) => o,
    };
    let descriptor = standard_descriptor();
    let graph: Graph = match build(&descriptor, registry) {
        Err(c) => {
            return Err(PlanError::Config(c));
        },
        Ok(g) => g,
    };
    let mut tags = TagList::new();
    proof {
        assert(tags_view(tags) =~= Seq::<(Seq<u8>, Seq<u8>)>::empty());
    }
    embed_comment(&mut tags, tag_value);
    proof {
        assert(tags_view(tags) =~= seq![(comment_key(), tag_value@)]);
    }
    Ok(Plan { graph, input_path: copy_bytes(input_path), output_path, tags })
}

} // verus!
