//! The settings that the command line gives.

use vstd::prelude::*;
use vstd::string::StringExecFns;

verus! {

/// The settings that the command line gives.
#[derive(Clone, Debug)]
pub struct Args {
    /// Profile of the local configuration to use.
    pub profile: String,
    /// Region to use.
    pub region: String,
    /// How talkative the log is.
    pub verbose: u8,
}

impl Args {
    /// The settings with the given values.
    pub fn new(profile: String, region: String, verbose: u8) -> (args: Args)
        ensures
            args.profile == profile,
            args.region == region,
            args.verbose == verbose,
    {
        Args { profile, region, verbose }
    }
}

impl Default for Args {
    /// The settings where the command line gives none.
    fn default() -> (args: Args)
        ensures
            args.profile@ == "iotmgmt_prod"@,
            args.region@ == "eu-west-1"@,
            args.verbose == 0,
    {
        Args {
            profile: String::from_str("iotmgmt_prod"),
            region: String::from_str("eu-west-1"),
            verbose: 0,
        }
    }
}

/// The text that tells the version: the version itself, the authors, and the
/// directories of the configuration and of the data.
pub open spec fn spec_version(
    version: Seq<char>,
    author: Seq<char>,
    config_dir: Seq<char>,
    data_dir: Seq<char>,
) -> Seq<char> {
    version + "\n\nAuthors: "@ + author + "\n\nConfig directory: "@ + config_dir
        + "\nData directory: "@ + data_dir
}

/// The text that tells the version.
pub fn version(version_message: &str, author: &str, config_dir: &str, data_dir: &str) -> (text:
    String)
    ensures
        text@ == spec_version(version_message@, author@, config_dir@, data_dir@),
{
    String::from_str(version_message).concat("\n\nAuthors: ").concat(author).concat(
        "\n\nConfig directory: ",
    ).concat(config_dir).concat("\nData directory: ").concat(data_dir)
}

} // verus!
