//! Routines for daemon introspection.
//!
//! The information records that the server sends, held as plain values: each string field is
//! `None` where the server sent none.

use vstd::prelude::*;
use crate::channelmap::ChannelMap;
use crate::def::{DevicePortType, PortAvailable};
use crate::sample::Spec;

verus! {

/// Stores information about a specific port of a sink.
#[derive(Debug)]
pub struct SinkPortInfo {
    /// Name of this port.
    pub name: Option<String>,
    /// Description of this port.
    pub description: Option<String>,
    /// The higher this value is, the more useful this port is as a default.
    pub priority: u32,
    /// A flag indicating availability status of this port.
    pub available: PortAvailable,
    /// An identifier for the group of ports that share their availability status with each other;
    /// `None` where the port is not part of any availability group.
    pub availability_group: Option<String>,
    /// Port device type.
    pub port_type: DevicePortType,
}

/// Stores information about a specific port of a source.
#[derive(Debug)]
pub struct SourcePortInfo {
    /// Name of this port.
    pub name: Option<String>,
    /// Description of this port.
    pub description: Option<String>,
    /// The higher this value is, the more useful this port is as a default.
    pub priority: u32,
    /// A flag indicating availability status of this port.
    pub available: PortAvailable,
    /// An identifier for the group of ports that share their availability status with each other;
    /// `None` where the port is not part of any availability group.
    pub availability_group: Option<String>,
    /// Port device type.
    pub port_type: DevicePortType,
}

/// Server information.
#[derive(Debug)]
pub struct ServerInfo {
    /// User name of the daemon process.
    pub user_name: Option<String>,
    /// Host name the daemon is running on.
    pub host_name: Option<String>,
    /// Version string of the daemon.
    pub server_version: Option<String>,
    /// Server package name (usually “pulseaudio”).
    pub server_name: Option<String>,
    /// Default sample specification.
    pub sample_spec: Spec,
    /// Name of default sink.
    pub default_sink_name: Option<String>,
    /// Name of default source.
    pub default_source_name: Option<String>,
    /// A random cookie for identifying this instance of PulseAudio.
    pub cookie: u32,
    /// Default channel map.
    pub channel_map: ChannelMap,
}

/// Stores information about a specific profile of a card (the record of older servers).
#[derive(Debug)]
pub struct CardProfileInfo {
    /// Name of this profile.
    pub name: Option<String>,
    /// Description of this profile.
    pub description: Option<String>,
    /// Number of sinks this profile would create.
    pub n_sinks: u32,
    /// Number of sources this profile would create.
    pub n_sources: u32,
    /// The higher this value is, the more useful this profile is as a default.
    pub priority: u32,
}

/// Stores information about a specific profile of a card.
#[derive(Debug)]
pub struct CardProfileInfo2 {
    /// Name of this profile.
    pub name: Option<String>,
    /// Description of this profile.
    pub description: Option<String>,
    /// Number of sinks this profile would create.
    pub n_sinks: u32,
    /// Number of sources this profile would create.
    pub n_sources: u32,
    /// The higher this value is, the more useful this profile is as a default.
    pub priority: u32,
    /// Is this profile available? If this is `false`, meaning “unavailable”, then it makes no sense
    /// to try to activate this profile.
    pub available: bool,
}

} // verus!
