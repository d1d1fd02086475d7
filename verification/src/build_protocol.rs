//! The build manager's command/response protocol: build targets, command
//! ids and log items exchanged between the studio and a build process.

use vstd::prelude::*;

verus! {

/// Identifier of one issued build command.
#[derive(Clone, Copy, Debug, PartialEq, Eq, Structural)]
pub struct BuildCmdId(pub u64);

/// What kind of artifact a build produces and where it runs.
#[derive(Clone, Debug, Hash, PartialEq, Eq)]
pub enum BuildTarget {
    Release,
    Debug,
    ReleaseStudio,
    DebugStudio,
    Profiler,
    IosSim { org: String, app: String },
    IosDevice { org: String, app: String },
    Android,
    WebAssembly,
}

impl BuildTarget {
    pub const RELEASE_STUDIO: u64 = 0;

    pub const DEBUG_STUDIO: u64 = 1;

    pub const RELEASE: u64 = 2;

    pub const DEBUG: u64 = 3;

    pub const PROFILER: u64 = 4;

    pub const IOS_SIM: u64 = 5;

    pub const IOS_DEVICE: u64 = 6;

    pub const ANDROID: u64 = 7;

    pub const WEBASSEMBLY: u64 = 8;

    /// The stable numeric id of this target.
    pub open spec fn id_spec(self) -> u64 {
        match self {
            BuildTarget::ReleaseStudio => 0,
            BuildTarget::DebugStudio => 1,
            BuildTarget::Release => 2,
            BuildTarget::Debug => 3,
            BuildTarget::Profiler => 4,
            BuildTarget::IosSim { .. } => 5,
            BuildTarget::IosDevice { .. } => 6,
            BuildTarget::Android => 7,
            BuildTarget::WebAssembly => 8,
        }
    }

    /// Whether this target runs embedded in the studio.
    pub fn runs_in_studio(&self) -> (r: bool)
        ensures
            r == (*self is ReleaseStudio || *self is DebugStudio),
    {
        match self {
            Self::ReleaseStudio => true,
            Self::DebugStudio => true,
            _ => false,
        }
    }

    /// Number of distinct targets.
    pub fn len() -> (r: u64)
        ensures
            r == 9,
    {
        9
    }

    /// Display name of the target with numeric id `idx`.
    pub fn name(idx: u64) -> (r: &'static str)
        ensures
            idx == 0 ==> r@ == "Release Studio"@,
            idx == 1 ==> r@ == "Debug Studio"@,
            idx == 2 ==> r@ == "Release"@,
            idx == 3 ==> r@ == "Debug"@,
            idx == 4 ==> r@ == "Profiler"@,
            idx == 5 ==> r@ == "iOS Simulator"@,
            idx == 6 ==> r@ == "iOS Device"@,
            idx == 7 ==> r@ == "Android"@,
            idx == 8 ==> r@ == "WebAssembly"@,
            idx >= 9 ==> r@ == "Unknown"@,
    {
        match idx {
            0 => "Release Studio",
            1 => "Debug Studio",
            2 => "Release",
            3 => "Debug",
            4 => "Profiler",
            5 => "iOS Simulator",
            6 => "iOS Device",
            7 => "Android",
            8 => "WebAssembly",
            _ => "Unknown",
        }
    }

    /// The stable numeric id of this target.
    pub fn id(&self) -> (r: u64)
        ensures
            r == self.id_spec(),
    {
        match self {
            Self::ReleaseStudio => 0,
            Self::DebugStudio => 1,
            Self::Release => 2,
            Self::Debug => 3,
            Self::Profiler => 4,
            Self::IosSim { .. } => 5,
            Self::IosDevice { .. } => 6,
            Self::Android => 7,
            Self::WebAssembly => 8,
        }
    }
}

/// A binary together with the target it is built for.
#[derive(Clone, Debug, Hash, PartialEq, Eq)]
pub struct BuildProcess {
    pub binary: String,
    pub target: BuildTarget,
}

/// The live id obtained by hashing a string from the seed.
pub uninterp spec fn live_str_id(s: Seq<char>) -> u64;

/// The live id obtained by rehashing bytes onto an existing id.
pub uninterp spec fn live_id_append(id: u64, bytes: Seq<u8>) -> u64;

/// Relies on makepad_live_id::LiveId::from_str: a deterministic hash of
/// the string's bytes, a function of the string alone.
#[verifier::external_body]
fn live_id_from_str(s: &str) -> (r: u64)
    ensures
        r == live_str_id(s@),
{
    makepad_live_id::LiveId::from_str(s).0
}

/// Relies on makepad_live_id::LiveId::bytes_append: rehashes the byte
/// slice onto the id, a function of its two arguments alone.
#[verifier::external_body]
fn live_id_bytes_append(id: u64, bytes: &Vec<u8>) -> (r: u64)
    ensures
        r == live_id_append(id, bytes@),
{
    makepad_live_id::LiveId(id).bytes_append(bytes.as_slice()).0
}

/// The eight bytes of `x`, most significant first.
pub open spec fn u64_be_bytes(x: u64) -> Seq<u8> {
    seq![
        (x >> 56) as u8,
        (x >> 48) as u8,
        (x >> 40) as u8,
        (x >> 32) as u8,
        (x >> 24) as u8,
        (x >> 16) as u8,
        (x >> 8) as u8,
        x as u8,
    ]
}

fn u64_to_be_bytes(x: u64) -> (r: Vec<u8>)
    ensures
        r@ == u64_be_bytes(x),
{
    let mut r: Vec<u8> = Vec::new();
    r.push((x >> 56) as u8);
    r.push((x >> 48) as u8);
    r.push((x >> 40) as u8);
    r.push((x >> 32) as u8);
    r.push((x >> 24) as u8);
    r.push((x >> 16) as u8);
    r.push((x >> 8) as u8);
    r.push(x as u8);
    proof {
        assert(r@ =~= u64_be_bytes(x));
    }
    r
}

impl BuildProcess {
    /// The process's live id: the binary name hashed, then the target's id
    /// in big-endian bytes hashed on top.
    pub fn as_id(&self) -> (r: u64)
        ensures
            r == live_id_append(live_str_id(self.binary@), u64_be_bytes(self.target.id_spec())),
    {
        let base = live_id_from_str(self.binary.as_str());
        let bytes = u64_to_be_bytes(self.target.id());
        live_id_bytes_append(base, &bytes)
    }
}

/// A command wrapped with the id it was issued under.
#[derive(Clone, Debug)]
pub struct BuildCmdWrap {
    pub cmd_id: BuildCmdId,
    pub cmd: BuildCmd,
}

impl BuildCmdId {
    /// Wrap a log item with this command id for the return channel.
    pub fn wrap_msg(&self, item: LogItem) -> (r: LogItemWrap)
        ensures
            r.cmd_id == *self,
            r.item == item,
    {
        LogItemWrap { cmd_id: *self, item }
    }
}

/// A command sent to the build manager.
#[derive(Clone, Debug)]
pub enum BuildCmd {
    Stop,
    Run(BuildProcess, String),
    HostToStdin(String),
}

/// A log item wrapped with the command id it answers.
#[derive(Clone, Debug)]
pub struct LogItemWrap {
    pub cmd_id: BuildCmdId,
    pub item: LogItem,
}

/// Severity of a log item.
#[derive(Clone, PartialEq, Eq, Copy, Debug, Structural)]
pub enum LogItemLevel {
    Warning,
    Error,
    Log,
    Wait,
    Panic,
}

/// A place in a source file, as line and byte within the line.
#[derive(Clone, Copy, Debug, PartialEq, Eq, Structural)]
pub struct Position {
    pub line: usize,
    pub byte: usize,
}

/// An extent in a source file, as lines spanned and bytes into the last.
#[derive(Clone, Copy, Debug, PartialEq, Eq, Structural)]
pub struct Length {
    pub lines: usize,
    pub bytes: usize,
}

/// A log item tied to a place in a source file.
#[derive(Clone, Debug)]
pub struct LogItemLocation {
    pub level: LogItemLevel,
    pub file_name: String,
    pub start: Position,
    pub length: Length,
    pub msg: String,
}

/// A log item that is only a line of text.
#[derive(Clone, Debug)]
pub struct LogItemBare {
    pub level: LogItemLevel,
    pub line: String,
}

/// One item of build output.
#[derive(Clone, Debug)]
pub enum LogItem {
    Bare(LogItemBare),
    Location(LogItemLocation),
    StdinToHost(String),
}

} // verus!
