//! Entry point that runs a session body on the calling thread.

use vstd::prelude::*;

verus! {

/// Runs `main` to completion on the calling thread and hands back its result.
pub fn run<T, F: FnOnce() -> T + Send + 'static>(main: F) -> (result: T) where T: Send + 'static
    requires
        main.requires(()),
    ensures
        main.ensures((), result),
{
    main()
}

} // verus!
