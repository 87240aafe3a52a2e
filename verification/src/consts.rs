//! Names and texts that are compiled into the tool.

use vstd::prelude::*;

verus! {

/// File name of the configuration file, in the working directory and in the
/// per-user configuration directory alike.
pub const LL_CONFIG: &'static str = "LibraryLoader.toml";

/// Where downloads go when neither a flag nor a file says otherwise.
pub const DEFAULT_OUTPUT_PATH: &'static str = "download";

/// The example configuration that template generation writes out.
pub const EXAMPLE_CONFIG: &'static str = "# Library Loader configuration\n\n[settings]\n# Directory that downloaded libraries are written to.\noutput_path = \"download\"\n# Directory to watch for new downloads; enables watch mode.\n#watch_path = \"/home/user/Downloads\"\n# Only extract the files of this format into output_path.\n#format = \"eagle\"\n\n[profile]\nusername = \"\"\npassword = \"\"\n";

} // verus!
