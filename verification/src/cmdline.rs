//! Command-line surface and stream-role selection: which subcommand runs,
//! and, per configured camera, which stream role feeds the video device and
//! whether that role's supervisor also performs the one-time camera
//! management.

use vstd::prelude::*;

verus! {

/// The subcommands the bridge binary offers. Only the video-output
/// subcommand is this library's concern; the others are carried for the
/// process-level dispatcher.
#[derive(Clone, Copy, Debug, PartialEq, Eq, Structural)]
pub enum Command {
    /// Serve the cameras over the RTSP server.
    Rtsp,
    /// Serve the cameras over kernel video-output devices.
    V4l,
    /// Drive a camera's status light.
    StatusLight,
    /// Reboot a camera.
    Reboot,
    /// Talk back through a camera's speaker.
    Talk,
}

/// The parsed top-level command line: an optional configuration-file path
/// and the chosen subcommand, if any.
#[derive(Clone, Debug, PartialEq, Eq)]
pub struct Opt {
    pub config: Option<String>,
    pub cmd: Option<Command>,
}

impl Opt {
    /// Assemble the parsed command line.
    pub fn new(config: Option<String>, cmd: Option<Command>) -> (o: Opt)
        ensures
            o.config == config,
            o.cmd == cmd,
    {
        Opt { config, cmd }
    }
}

/// Which of the camera's streams a supervisor relays.
#[derive(Clone, Copy, Debug, PartialEq, Eq, Structural)]
pub enum StreamRole {
    /// The clear, full-resolution stream.
    Main,
    /// The fluent, low-resolution stream.
    Sub,
    /// The balanced stream.
    Extern,
}

/// Whether the supervisor for `device_role` — the role the camera's
/// configuration feeds to the video device — also performs the one-time
/// camera management. The main-stream supervisor always manages; another
/// role's supervisor manages only when the camera's primary stream setting
/// names exactly that role.
pub fn management_duty(device_role: StreamRole, primary_role: Option<StreamRole>) -> (r: bool)
    ensures
        r == (device_role is Main || primary_role == Some(device_role)),
{
    match device_role {
        StreamRole::Main => true,
        StreamRole::Sub => match primary_role {
            Some(StreamRole::Sub) => true,
            _ => false,
        },
        StreamRole::Extern => match primary_role {
            Some(StreamRole::Extern) => true,
            _ => false,
        },
    }
}

} // verus!
