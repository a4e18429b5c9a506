pub mod cli;
pub mod commands;
pub mod error;
pub mod laws;
pub mod utils;

use vstd::prelude::*;

use crate::cli::{Cli, Commands};
use crate::error::FfxError;
use crate::utils::hwaccel::{
    HwAccelCapabilities, detect_hw_capabilities, listed_encoders, listed_hwaccels,
    pick_encoder_spec, software_caps,
};
use crate::utils::log::Logger;
use crate::utils::runner::AppContext;

verus! {

/// Prepares a run of the command line: a logger as verbose as asked, the
/// context, refused when `jobs` is zero, and the H.264 encoder: `libx264`
/// under `--no-hwaccel`, else the best one that FFmpeg's `-encoders` and
/// `-hwaccels` listings offer (`None` where a listing could not be had).
/// Hands back the context, the encoder and the command to carry out.
pub fn run(cli: Cli, encoders_listing: Option<&str>, hwaccels_listing: Option<&str>) -> (r: Result<
    (AppContext, HwAccelCapabilities, Commands),
    FfxError,
>)
    ensures
        cli.jobs == 0 ==> r is Err && r->Err_0 == FfxError::NoJobs,
        cli.jobs > 0 ==> (r matches Ok((context, caps, command)) && context.dry_run == cli.dry_run
            && context.jobs == cli.jobs && context.ffmpeg_bin@ == cli.ffmpeg_bin@
            && context.ffprobe_bin@ == cli.ffprobe_bin@ && context.logger@ == cli.verbose
            && caps@ == (if cli.no_hwaccel {
            software_caps()
        } else {
            pick_encoder_spec(
                listed_encoders(encoders_listing.deep_view()),
                listed_hwaccels(hwaccels_listing.deep_view()),
            )
        }) && command == cli.command),
{
    let logger = Logger::new(cli.verbose);
    let context = match AppContext::new(cli.dry_run, cli.jobs, cli.ffmpeg_bin, cli.ffprobe_bin, logger) {
        Ok(c) => c,
        Err(e) => {
            return Err(e);
        },
    };
    let caps = detect_hw_capabilities(!cli.no_hwaccel, encoders_listing, hwaccels_listing);
    Ok((context, caps, cli.command))
}

} // verus!
