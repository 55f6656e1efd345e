//! The program's settings and the choice of the disc-info tool.

use vstd::prelude::*;

verus! {

/// Program to fetch optical medium info
#[derive(Debug, Eq, PartialEq, Copy, Clone, Structural)]
pub enum MinfoCli {
    Cdrskin,
    Cdrecord,
    Wodim,
}

impl Default for MinfoCli {
    fn default() -> (program: Self)
        ensures
            program == MinfoCli::Cdrskin,
    {
        MinfoCli::Cdrskin
    }
}

impl MinfoCli {
    /// The executable's name, as a sequence of characters.
    pub open spec fn spec_name(&self) -> Seq<char> {
        match self {
            MinfoCli::Cdrskin => "cdrskin"@,
            MinfoCli::Cdrecord => "cdrecord"@,
            MinfoCli::Wodim => "wodim"@,
        }
    }

    pub fn name(&self) -> (name: &'static str)
        ensures
            name@ == self.spec_name(),
    {
        match self {
            MinfoCli::Cdrskin => "cdrskin",
            MinfoCli::Cdrecord => "cdrecord",
            MinfoCli::Wodim => "wodim",
        }
    }
}

/// The settings a session runs with.
#[derive(Debug, Clone)]
pub struct Args {
    /// Path of the disc drive (like /dev/sr0 on Linux)
    pub drive: String,
    /// Number (starts from one) of the track that stores meta info of this
    /// "Pseudo-CD" authoring
    pub meta_info_track: usize,
    /// On true, assume all tracks are PCM data.
    pub no_meta: bool,
    /// Program to fetch optical medium info
    pub minfo_program: MinfoCli,
    /// Program log will output to this if present
    pub log_file: Option<String>,
}

impl Default for Args {
    fn default() -> (args: Self)
        ensures
            args.drive@ == Seq::<char>::empty(),
            args.meta_info_track == 0,
            !args.no_meta,
            args.minfo_program == MinfoCli::Cdrskin,
            args.log_file is None,
    {
        Args {
            drive: String::new(),
            meta_info_track: 0,
            no_meta: false,
            minfo_program: MinfoCli::Cdrskin,
            log_file: None,
        }
    }
}

} // verus!
