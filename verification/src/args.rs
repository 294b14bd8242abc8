//! The server's command-line settings.

use vstd::prelude::*;
use vstd::string::StringExecFns;

verus! {

/// Where the music is, and where the server listens.
#[derive(Clone, Debug)]
pub struct Args {
    /// The directory of the music library.
    pub music_path: String,
    /// The address that the websocket server binds.
    pub bind: String,
}

impl Default for Args {
    /// The settings when none is given: `~/Music`, and every interface on
    /// port 8080.
    fn default() -> (r: Args)
        ensures
            r.music_path@ == "~/Music"@,
            r.bind@ == "0.0.0.0:8080"@,
    {
        Args { music_path: String::from_str("~/Music"), bind: String::from_str("0.0.0.0:8080") }
    }
}

} // verus!
