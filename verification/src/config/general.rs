//! Settings of the run as a whole.

use vstd::prelude::*;

verus! {

#[derive(Debug, Clone, Copy, PartialEq, Eq, Structural)]
pub struct GeneralConfig {
    pub unfollow_companies: bool,
    /// The bound on the iterations of the workflow. Without one the
    /// workflow is bound by the largest count the machine can hold.
    pub maximum_iterations: Option<u8>,
}

impl GeneralConfig {
    /// The bound on the iterations of the workflow.
    pub open spec fn iteration_bound(self) -> usize {
        match self.maximum_iterations {
            Some(bound) => bound as usize,
            None => usize::MAX,
        }
    }

    /// The bound on the iterations of the workflow: the one that is set,
    /// or the largest count the machine can hold.
    pub fn max_iterations(&self) -> (bound: usize)
        ensures
            bound == self.iteration_bound(),
    {
        match self.maximum_iterations {
            Some(bound) => bound as usize,
            None => usize::MAX,
        }
    }
}

impl Default for GeneralConfig {
    fn default() -> (config: GeneralConfig)
        ensures
            config == (GeneralConfig { unfollow_companies: true, maximum_iterations: Some(255) }),
    {
        GeneralConfig { unfollow_companies: true, maximum_iterations: Some(255) }
    }
}

} // verus!
