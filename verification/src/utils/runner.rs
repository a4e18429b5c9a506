//! The settings shared by all runs, and the outcome of a batch.
use vstd::prelude::*;

use crate::error::FfxError;
use crate::utils::ffmpeg::ProcessSpec;
use crate::utils::log::Logger;
use crate::utils::text::{join, join_spec};

verus! {

broadcast use vstd::string::group_string_axioms;

/// What every run needs: whether to only print, how many jobs, which binaries.
#[derive(Debug, Clone)]
pub struct AppContext {
    pub dry_run: bool,
    pub jobs: usize,
    pub ffmpeg_bin: String,
    pub ffprobe_bin: String,
    pub logger: Logger,
}

impl AppContext {
    /// The context; refused when `jobs` is zero.
    pub fn new(
        dry_run: bool,
        jobs: usize,
        ffmpeg_bin: String,
        ffprobe_bin: String,
        logger: Logger,
    ) -> (r: Result<Self, FfxError>)
        ensures
            jobs == 0 ==> r == Err::<Self, FfxError>(FfxError::NoJobs),
            jobs > 0 ==> (r matches Ok(c) && c.dry_run == dry_run && c.jobs == jobs && c.ffmpeg_bin@
                == ffmpeg_bin@ && c.ffprobe_bin@ == ffprobe_bin@ && c.logger@ == logger@),
    {
        if jobs == 0 {
            return Err(FfxError::NoJobs);
        }
        Ok(AppContext { dry_run, jobs, ffmpeg_bin, ffprobe_bin, logger })
    }

    /// A run of the FFmpeg binary with `args`.
    pub fn ffmpeg(&self, args: Vec<String>) -> (spec: ProcessSpec)
        ensures
            spec@ == (self.ffmpeg_bin@, args.deep_view()),
    {
        ProcessSpec::new(self.ffmpeg_bin.clone(), args)
    }
}

/// The outcome of a batch from the failures of its inputs: success when
/// none failed, else one error holding them one per line.
pub fn collect_failures(failures: &[String]) -> (r: Result<(), FfxError>)
    ensures
        failures.len() == 0 ==> r is Ok,
        failures.len() > 0 ==> (r matches Err(FfxError::Failures(m)) && m@ == join_spec(
            failures@.map_values(|f: String| f@),
            "\n"@,
        )),
{
    if failures.len() == 0 {
        Ok(())
    } else {
        Err(FfxError::Failures(join(failures, "\n")))
    }
}

} // verus!
