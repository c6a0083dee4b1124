//! Loading: from what identifies a unit to the loaded value.

use vstd::prelude::*;

pub mod file_loader;

verus! {

/// Loads values of type `T`, one at a time or as a batch.
pub trait Loader<T>: Sized {
    /// Why a load can fail.
    type Error;

    /// What identifies one unit to load.
    type Option;

    /// Whether `result` is an outcome of loading `option`.
    spec fn loads(&self, option: &Self::Option, result: Result<T, Self::Error>) -> bool;

    /// Loads one unit.
    fn load(&self, option: &Self::Option) -> (r: Result<T, Self::Error>)
        ensures
            self.loads(option, r),
    ;

    /// Loads a batch. Every unit is loaded, whether or not the ones before it
    /// failed, and the outcomes come back in the order of the batch: the
    /// outcome at each position is that of the unit at the same position.
    fn multiple_load(&self, options: &[Self::Option]) -> (r: Vec<Result<T, Self::Error>>)
        ensures
            r.len() == options.len(),
            forall|i: int| 0 <= i < options.len() ==> self.loads(&options[i], #[trigger] r[i]),
    {
        let mut results: Vec<Result<T, Self::Error>> = Vec::new();
        let mut i: usize = 0;
        while i < options.len()
            invariant
                i <= options.len(),
                results.len() == i,
                forall|j: int| 0 <= j < i ==> self.loads(&options[j], #[trigger] results[j]),
            decreases options.len() - i,
        {
            let loaded = self.load(&options[i]);
            results.push(loaded);
            i += 1;
        }
        results
    }
}

} // verus!
