//! The local mirror of a nightly CI artifact.
//!
//! For each product and artifact the mirror holds two files: the blob, and a
//! marker with the identifier of the CI run that produced the blob. Only the two
//! together are a cached artifact.
use crate::artifacttype::ArtifactError;
use crate::text::concat;
use vstd::prelude::*;

verus! {

/// What is stored for one artifact of one product.
pub struct NightlyStore {
    /// The content of the marker file, if the file is there.
    pub marker: Option<String>,
    /// The content of the blob file, if the file is there.
    pub blob: Option<Vec<u8>>,
}

/// A `NightlyStore` as plain values.
pub struct NightlyStoreView {
    pub marker: Option<Seq<char>>,
    pub blob: Option<Seq<u8>>,
}

impl View for NightlyStore {
    type V = NightlyStoreView;

    open spec fn view(&self) -> NightlyStoreView {
        NightlyStoreView {
            marker: match self.marker {
                Some(m) => Some(m@),
                None => None,
            },
            blob: match self.blob {
                Some(b) => Some(b@),
                None => None,
            },
        }
    }
}

/// One write to the mirror.
pub enum StoreStep {
    WriteBlob(Vec<u8>),
    WriteMarker(String),
}

impl NightlyStoreView {
    /// Nothing stored.
    pub open spec fn empty() -> Self {
        NightlyStoreView { marker: None, blob: None }
    }

    /// Whether the store holds the artifact of the run `run_id`: the marker names
    /// the run and the blob is there.
    pub open spec fn is_hit(self, run_id: Seq<char>) -> bool {
        self.marker == Some(run_id) && self.blob is Some
    }

    /// The recorded run: the marker's content where marker and blob are both
    /// there, else the empty string.
    pub open spec fn run_id(self) -> Seq<char> {
        if self.marker is Some && self.blob is Some {
            self.marker->0
        } else {
            Seq::empty()
        }
    }

    /// The store after the blob was written.
    pub open spec fn with_blob(self, bytes: Seq<u8>) -> Self {
        NightlyStoreView { marker: self.marker, blob: Some(bytes) }
    }

    /// The store after the marker was written.
    pub open spec fn with_marker(self, run_id: Seq<char>) -> Self {
        NightlyStoreView { marker: Some(run_id), blob: self.blob }
    }

    /// The store after the artifact of a run was stored: first the blob, then
    /// the marker.
    pub open spec fn stored(self, run_id: Seq<char>, bytes: Seq<u8>) -> Self {
        self.with_blob(bytes).with_marker(run_id)
    }
}

/// The name of the marker file of an artifact, in the product's directory.
pub fn run_id_file_name(artifact: &str) -> (r: String)
    ensures
        r@ == artifact@ + ".runid"@,
{
    concat(artifact, ".runid")
}

/// The name of the blob file of an artifact, in the product's directory.
pub fn artifact_file_name(artifact: &str) -> (r: String)
    ensures
        r@ == artifact@ + ".zip"@,
{
    concat(artifact, ".zip")
}

/// The run whose artifact is stored, or the empty string where marker or blob is
/// missing.
pub fn get_cached_artifact_run_id(store: &NightlyStore) -> (r: String)
    ensures
        r@ == store@.run_id(),
{
    match (&store.marker, &store.blob) {
        (Some(marker), Some(_)) => marker.clone(),
        _ => String::new(),
    }
}

/// Whether the store holds the artifact of the run `run_id`.
pub fn is_cached(store: &NightlyStore, run_id: &str) -> (r: bool)
    ensures
        r == store@.is_hit(run_id@),
{
    match (&store.marker, &store.blob) {
        (Some(marker), Some(_)) => marker.as_str().eq(run_id),
        _ => false,
    }
}

/// The writes that store the artifact of a run, in the order in which they are
/// made: the blob first, the marker last.
pub fn store_steps(run_id: String, binartifact: Vec<u8>) -> (r: (StoreStep, StoreStep))
    ensures
        r.0 matches StoreStep::WriteBlob(b) && b@ == binartifact@,
        r.1 matches StoreStep::WriteMarker(m) && m@ == run_id@,
{
    (StoreStep::WriteBlob(binartifact), StoreStep::WriteMarker(run_id))
}

/// Makes one write.
pub fn apply_step(store: &mut NightlyStore, step: StoreStep)
    ensures
        final(store)@ == match step {
            StoreStep::WriteBlob(b) => old(store)@.with_blob(b@),
            StoreStep::WriteMarker(m) => old(store)@.with_marker(m@),
        },
{
    match step {
        StoreStep::WriteBlob(b) => {
            store.blob = Some(b);
        },
        StoreStep::WriteMarker(m) => {
            store.marker = Some(m);
        },
    }
}

/// Stores the artifact of a run in place of what was stored.
pub fn store_cached_artifact_run(store: &mut NightlyStore, run_id: String, binartifact: Vec<u8>)
    ensures
        final(store)@ == old(store)@.stored(run_id@, binartifact@),
        final(store)@ == (NightlyStoreView { marker: Some(run_id@), blob: Some(binartifact@) }),
{
    let (first, second) = store_steps(run_id, binartifact);
    apply_step(store, first);
    apply_step(store, second);
}

/// The stored blob; `Custom` where there is none.
pub fn get_cached_artifact(store: &NightlyStore) -> (r: Result<&Vec<u8>, ArtifactError>)
    ensures
        match r {
            Ok(blob) => store@.blob == Some(blob@),
            Err(e) => e == ArtifactError::Custom && store@.blob is None,
        },
{
    match &store.blob {
        Some(blob) => Ok(blob),
        None => Err(ArtifactError::Custom),
    }
}

} // verus!
