//! What is read from the answers of the CI service.
use vstd::prelude::*;

verus! {

/// One artifact of a workflow run, as the CI service lists it.
pub struct RunArtifact {
    pub id: u64,
    pub name: String,
}

/// Whether `i` is the first artifact with the name `artifact_name`.
pub open spec fn artifact_at(artifacts: Seq<RunArtifact>, artifact_name: Seq<char>, i: int) -> bool {
    &&& 0 <= i < artifacts.len()
    &&& artifacts[i].name@ == artifact_name
    &&& forall|j: int| 0 <= j < i ==> (#[trigger] artifacts[j]).name@ != artifact_name
}

/// The identifier of the first listed artifact with the name `artifact_name`;
/// `None` where the run has no listing or no such artifact.
pub fn find_workflow_run_artifact(artifacts: &Option<Vec<RunArtifact>>, artifact_name: &str) -> (r:
    Option<u64>)
    ensures
        r is Some ==> artifacts is Some && exists|i: int| #[trigger]
            artifact_at(artifacts->0@, artifact_name@, i) && artifacts->0@[i].id == r->0,
        r is None && artifacts is Some ==> forall|i: int|
            0 <= i < artifacts->0@.len() ==> (#[trigger] artifacts->0@[i]).name@ != artifact_name@,
{
    if let Some(list) = artifacts {
        let mut i: usize = 0;
        while i < list.len()
            invariant
                i <= list.len(),
                *artifacts == Some(*list),
                forall|j: int| 0 <= j < i ==> (#[trigger] list@[j]).name@ != artifact_name@,
            decreases list.len() - i,
        {
            if list[i].name.as_str().eq(artifact_name) {
                let id = list[i].id;
                assert(artifacts is Some);
                assert(artifacts->0@ == list@);
                assert(artifact_at(artifacts->0@, artifact_name@, i as int) && artifacts->0@[i as int].id == id);
                return Some(id);
            }
            i = i + 1;
        }
        None
    } else {
        None
    }
}

} // verus!
