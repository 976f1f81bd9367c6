//! A read-only view of which memory layers a snapshot exercises.
use vstd::prelude::*;

use crate::domain::snapshot::SelfSnapshot;
use crate::seqs::texts;
use crate::text::{owned, same_text};

verus! {

/// A snapshot and how many episode projections exist.
#[derive(Debug, Clone, PartialEq, Eq)]
pub struct MemoryLayerProjectionInput {
    pub snapshot: SelfSnapshot,
    pub episode_projection_count: usize,
}

/// The status of each memory layer; nothing is written.
#[derive(Debug, Clone, PartialEq, Eq)]
pub struct MemoryLayerProjection {
    pub read_only: bool,
    pub writes_performed: bool,
    pub durable_self_model_write_path: String,
    pub layers: Vec<MemoryLayerStatus>,
}

/// One memory layer: its status and the entries behind it.
#[derive(Debug, Clone, PartialEq, Eq)]
pub struct MemoryLayerStatus {
    pub layer: String,
    pub status: String,
    pub evidence: Vec<String>,
    pub writes_allowed: bool,
}

/// The status of a layer with a given number of entries.
pub open spec fn count_status(count: nat) -> Seq<char> {
    if count == 0 {
        "not_implemented"@
    } else {
        "partial"@
    }
}

/// A layer entry with the given name, status and entries, which allows no writes.
pub open spec fn is_layer(
    entry: MemoryLayerStatus,
    name: Seq<char>,
    status: Seq<char>,
    evidence: Seq<Seq<char>>,
) -> bool {
    entry.layer@ == name && entry.status@ == status && texts(entry.evidence@) == evidence
        && !entry.writes_allowed
}

/// The status of the first layer with the given name, if any.
pub open spec fn spec_layer_status(layers: Seq<MemoryLayerStatus>, layer: Seq<char>) -> Option<
    Seq<char>,
> {
    if exists|i: int| 0 <= i < layers.len() && layers[i].layer@ == layer {
        let i = choose|i: int|
            0 <= i < layers.len() && layers[i].layer@ == layer && forall|j: int|
                0 <= j < i ==> (#[trigger] layers[j]).layer@ != layer;
        Some(layers[i].status@)
    } else {
        None
    }
}

impl MemoryLayerProjection {
    /// The status of the named layer.
    pub fn layer_status(&self, layer: &str) -> (r: Option<String>)
        ensures
            match r {
                Some(s) => spec_layer_status(self.layers@, layer@) == Some(s@),
                None => spec_layer_status(self.layers@, layer@) is None,
            },
    {
        let mut i: usize = 0;
        while i < self.layers.len()
            invariant
                i <= self.layers@.len(),
                forall|j: int| 0 <= j < i ==> (#[trigger] self.layers@[j]).layer@ != layer@,
            decreases self.layers@.len() - i,
        {
            if same_text(self.layers[i].layer.as_str(), layer) {
                proof {
                    let ls = self.layers@;
                    let c = choose|c: int|
                        0 <= c < ls.len() && ls[c].layer@ == layer@ && forall|j: int|
                            0 <= j < c ==> (#[trigger] ls[j]).layer@ != layer@;
                    assert(0 <= i < ls.len() && ls[i as int].layer@ == layer@);
                    if c < i {
                        assert(ls[c].layer@ != layer@);
                    }
                    if c > i {
                        assert(ls[i as int].layer@ != layer@);
                    }
                }
                return Some(self.layers[i].status.clone());
            }
            i = i + 1;
        }
        None
    }
}

/// The status of a layer with a given number of entries.
fn status_for_count(count: usize) -> (r: &'static str)
    ensures
        r@ == count_status(count as nat),
{
    if count == 0 {
        "not_implemented"
    } else {
        "partial"
    }
}

/// A layer entry that allows no writes.
fn layer(name: &str, status: &str, evidence: Vec<String>) -> (r: MemoryLayerStatus)
    ensures
        r.layer@ == name@,
        r.status@ == status@,
        r.evidence == evidence,
        !r.writes_allowed,
{
    MemoryLayerStatus { layer: owned(name), status: owned(status), evidence, writes_allowed: false }
}

/// The five layers of a snapshot: working memory (the evidence), episodic (the
/// episodes, counted as at least the episode projections), semantic (the
/// claims), procedural (not implemented) and the self model (identity then
/// commitments). A layer with no entries is `not_implemented`, otherwise
/// `partial`; the projection is read-only and writes nothing.
pub fn build_memory_layer_projection(input: MemoryLayerProjectionInput) -> (r:
    MemoryLayerProjection)
    ensures
        r.read_only,
        !r.writes_performed,
        r.durable_self_model_write_path@ == "run_reflection"@,
        r.layers@.len() == 5,
        is_layer(
            r.layers@[0],
            "working"@,
            count_status(input.snapshot.evidence@.len()),
            texts(input.snapshot.evidence@),
        ),
        is_layer(
            r.layers@[1],
            "episodic"@,
            count_status(
                if input.snapshot.episodes@.len() >= input.episode_projection_count {
                    input.snapshot.episodes@.len()
                } else {
                    input.episode_projection_count as nat
                },
            ),
            texts(input.snapshot.episodes@),
        ),
        is_layer(
            r.layers@[2],
            "semantic"@,
            count_status(input.snapshot.claims@.len()),
            texts(input.snapshot.claims@),
        ),
        is_layer(r.layers@[3], "procedural"@, "not_implemented"@, Seq::empty()),
        is_layer(
            r.layers@[4],
            "self_model"@,
            count_status(input.snapshot.identity@.len() + input.snapshot.commitments@.len()),
            texts(input.snapshot.identity@) + texts(input.snapshot.commitments@),
        ),
{
    let snapshot = input.snapshot;
    let episodic_count = if snapshot.episodes.len() >= input.episode_projection_count {
        snapshot.episodes.len()
    } else {
        input.episode_projection_count
    };
    let working_status = status_for_count(snapshot.evidence.len());
    let episodic_status = status_for_count(episodic_count);
    let semantic_status = status_for_count(snapshot.claims.len());
    let self_model_status = if snapshot.identity.len() == 0 && snapshot.commitments.len() == 0 {
        "not_implemented"
    } else {
        "partial"
    };
    let ghost identity = texts(snapshot.identity@);
    let ghost commitments = texts(snapshot.commitments@);
    let mut self_model = snapshot.identity;
    let mut extra = snapshot.commitments;
    self_model.append(&mut extra);
    assert(texts(self_model@) =~= identity + commitments);
    let mut layers: Vec<MemoryLayerStatus> = Vec::new();
    layers.push(layer("working", working_status, snapshot.evidence));
    layers.push(layer("episodic", episodic_status, snapshot.episodes));
    layers.push(layer("semantic", semantic_status, snapshot.claims));
    layers.push(layer("procedural", "not_implemented", Vec::new()));
    layers.push(layer("self_model", self_model_status, self_model));
    proof {
        assert(texts(layers@[3].evidence@) =~= Seq::<Seq<char>>::empty());
    }
    MemoryLayerProjection {
        read_only: true,
        writes_performed: false,
        durable_self_model_write_path: owned("run_reflection"),
        layers,
    }
}

} // verus!
