use vstd::prelude::*;

verus! {

/// Why a run failed.
#[derive(Clone, Copy, Debug, PartialEq, Eq, Structural)]
pub enum EngineError {
    /// The source could not be opened for reading.
    SourceOpenFailed,
    /// The destination could not be created or truncated.
    DestinationCreateFailed,
    /// The source's length could not be read, or the destination not sized.
    MetadataReadFailed,
    /// A read or a write inside a segment failed.
    IoFailure,
}

/// The result of a run once every segment has finished: success when every
/// segment succeeded, else the error of the first segment that failed.
pub fn combine_outcomes(outcomes: &Vec<Result<(), EngineError>>) -> (r: Result<(), EngineError>)
    ensures
        r is Ok <==> forall|i: int| 0 <= i < outcomes@.len() ==> outcomes@[i] is Ok,
        r is Err ==> exists|i: int|
            0 <= i < outcomes@.len() && outcomes@[i] == r && forall|j: int|
                0 <= j < i ==> outcomes@[j] is Ok,
{
    let mut i: usize = 0;
    while i < outcomes.len()
        invariant
            i <= outcomes@.len(),
            forall|j: int| 0 <= j < i ==> outcomes@[j] is Ok,
        decreases outcomes@.len() - i,
    {
        match outcomes[i] {
            Ok(()) => {},
            Err(e) => {
                return Err(e);
            },
        }
        i = i + 1;
    }
    Ok(())
}

} // verus!
