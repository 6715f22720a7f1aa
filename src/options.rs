//! The options handed to the guest builder for each package.
use vstd::prelude::*;
use crate::error::BakeError;

verus! {

/// Settings of a containerized, reproducible build.
pub struct DockerOptions {
    /// Root directory of the isolation context.
    pub root_dir: String,
}

/// What the guest builder is asked to do for one package.
pub struct GuestOptions {
    pub features: Vec<String>,
    /// Present exactly when a containerized build was requested.
    pub use_docker: Option<DockerOptions>,
}

/// The configuration of one run, fixed for its whole length.
pub struct BakeCommand {
    /// Feature flags to build the guests with.
    pub features: Vec<String>,
    /// Whether to compile inside a container for reproducible builds.
    pub docker: bool,
}

impl BakeCommand {
    /// The builder options for every package of the run. `cwd` is the current
    /// working directory, which roots a containerized build; it is read only
    /// when `docker` is set.
    pub fn guest_options(&self, cwd: Option<String>) -> (r: Result<GuestOptions, BakeError>)
        ensures
            self.docker && cwd is None <==> r is Err,
            r is Err ==> r->Err_0 is MissingWorkingDirectory,
            r is Ok ==> r->Ok_0.features@ == self.features@,
            r is Ok && !self.docker ==> r->Ok_0.use_docker is None,
            r is Ok && self.docker ==> (r->Ok_0.use_docker is Some
                && r->Ok_0.use_docker->0.root_dir == cwd->0),
    {
        let use_docker = if self.docker {
            match cwd {
                Some(root_dir) => Some(DockerOptions { root_dir }),
                None => {
                    return Err(BakeError::MissingWorkingDirectory);
                },
            }
        } else {
            None
        };
        let mut features: Vec<String> = Vec::new();
        let mut i: usize = 0;
        while i < self.features.len()
            invariant
                0 <= i <= self.features@.len(),
                features@ == self.features@.subrange(0, i as int),
            decreases self.features@.len() - i,
        {
            features.push(self.features[i].clone());
            i = i + 1;
        }
        assert(features@ =~= self.features@);
        Ok(GuestOptions { features, use_docker })
    }
}

} // verus!
