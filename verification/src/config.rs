//! Session configuration: the emitter and receptor builders, the
//! validated immutable configurations they produce, and the fatal errors
//! a build surfaces before any stream starts. Opening devices, binding
//! sockets and starting streams belong to the caller; what is validated
//! here is the configuration itself.

use vstd::prelude::*;

use crate::ip::{IpV4, parse_ipv4, spec_ipv4_text};
use crate::util::{bytes_eq, copy_bytes};

verus! {

/// A fatal configuration error, surfaced before any stream starts.
#[derive(Clone, Copy, Debug, PartialEq, Eq, Structural)]
pub enum BuildError {
    /// No stream name was given.
    MissingStreamName,
    /// No peer address was given.
    MissingIpAddress,
    /// The device type selector names neither an input nor an output.
    InvalidDeviceType,
    /// The peer address is not a dotted-decimal IPv4 address.
    InvalidIpAddress,
}

/// Which side of the audio device a session binds to.
#[derive(Clone, Copy, Debug, PartialEq, Eq, Structural)]
pub enum DeviceType {
    Input,
    Output,
}

/// The bytes of the selector word `"input"`.
pub open spec fn spec_input_name() -> Seq<u8> {
    seq![0x69u8, 0x6eu8, 0x70u8, 0x75u8, 0x74u8]
}

/// The bytes of the selector word `"output"`.
pub open spec fn spec_output_name() -> Seq<u8> {
    seq![0x6fu8, 0x75u8, 0x74u8, 0x70u8, 0x75u8, 0x74u8]
}

/// The bytes of the selector word `"default"`.
pub open spec fn spec_default_name() -> Seq<u8> {
    seq![0x64u8, 0x65u8, 0x66u8, 0x61u8, 0x75u8, 0x6cu8, 0x74u8]
}

/// The selector word `"input"`.
pub fn input_name() -> (r: Vec<u8>)
    ensures
        r@ == spec_input_name(),
{
    let mut v: Vec<u8> = Vec::new();
    v.push(0x69);
    v.push(0x6e);
    v.push(0x70);
    v.push(0x75);
    v.push(0x74);
    proof {
        assert(v@ =~= spec_input_name());
    }
    v
}

/// The selector word `"output"`.
pub fn output_name() -> (r: Vec<u8>)
    ensures
        r@ == spec_output_name(),
{
    let mut v: Vec<u8> = Vec::new();
    v.push(0x6f);
    v.push(0x75);
    v.push(0x74);
    v.push(0x70);
    v.push(0x75);
    v.push(0x74);
    proof {
        assert(v@ =~= spec_output_name());
    }
    v
}

/// The selector word `"default"`.
pub fn default_name() -> (r: Vec<u8>)
    ensures
        r@ == spec_default_name(),
{
    let mut v: Vec<u8> = Vec::new();
    v.push(0x64);
    v.push(0x65);
    v.push(0x66);
    v.push(0x61);
    v.push(0x75);
    v.push(0x6c);
    v.push(0x74);
    proof {
        assert(v@ =~= spec_default_name());
    }
    v
}

/// The mathematical content of an emitter builder.
#[verifier::ext_equal]
pub ghost struct EmitterBuilderView {
    pub stream_name: Option<Seq<u8>>,
    pub channels: u8,
    pub ip_address: Option<Seq<u8>>,
    pub port: u16,
    pub device: Seq<u8>,
    pub device_type: Seq<u8>,
    pub backend: Seq<u8>,
}

/// A validated emitter configuration, immutable once built: a rebuild
/// re-derives fresh resources from these same fields.
pub struct EmitterConfig {
    pub stream_name: Vec<u8>,
    pub channels: u8,
    pub ip_address: IpV4,
    pub port: u16,
    pub device: Vec<u8>,
    pub device_type: DeviceType,
    pub backend: Vec<u8>,
}

/// Builder for an emitter session's configuration.
pub struct EmitterBuilder {
    stream_name: Option<Vec<u8>>,
    channels: u8,
    ip_address: Option<Vec<u8>>,
    port: u16,
    device: Vec<u8>,
    device_type: Vec<u8>,
    backend: Vec<u8>,
}

impl View for EmitterBuilder {
    type V = EmitterBuilderView;

    closed spec fn view(&self) -> EmitterBuilderView {
        EmitterBuilderView {
            stream_name: match self.stream_name {
                Some(ref n) => Some(n@),
                None => None,
            },
            channels: self.channels,
            ip_address: match self.ip_address {
                Some(ref i) => Some(i@),
                None => None,
            },
            port: self.port,
            device: self.device@,
            device_type: self.device_type@,
            backend: self.backend@,
        }
    }
}

impl EmitterBuilder {
    /// The starting configuration: 2 channels, port 6980, the default
    /// input device on the default backend; stream name and peer address
    /// must still be given.
    pub fn default() -> (r: EmitterBuilder)
        ensures
            r@ == (EmitterBuilderView {
                stream_name: None,
                channels: 2,
                ip_address: None,
                port: 6980,
                device: spec_default_name(),
                device_type: spec_input_name(),
                backend: spec_default_name(),
            }),
    {
        EmitterBuilder {
            stream_name: None,
            channels: 2,
            ip_address: None,
            port: 6980,
            device: default_name(),
            device_type: input_name(),
            backend: default_name(),
        }
    }

    pub fn stream_name(self, stream_name: &[u8]) -> (r: Self)
        ensures
            r@ == (EmitterBuilderView { stream_name: Some(stream_name@), ..self@ }),
    {
        EmitterBuilder { stream_name: Some(copy_bytes(stream_name)), ..self }
    }

    pub fn channels(self, channels: u8) -> (r: Self)
        ensures
            r@ == (EmitterBuilderView { channels, ..self@ }),
    {
        EmitterBuilder { channels, ..self }
    }

    pub fn ip_address(self, ip_address: &[u8]) -> (r: Self)
        ensures
            r@ == (EmitterBuilderView { ip_address: Some(ip_address@), ..self@ }),
    {
        EmitterBuilder { ip_address: Some(copy_bytes(ip_address)), ..self }
    }

    pub fn port(self, port: u16) -> (r: Self)
        ensures
            r@ == (EmitterBuilderView { port, ..self@ }),
    {
        EmitterBuilder { port, ..self }
    }

    pub fn device(self, device: &[u8]) -> (r: Self)
        ensures
            r@ == (EmitterBuilderView { device: device@, ..self@ }),
    {
        EmitterBuilder { device: copy_bytes(device), ..self }
    }

    pub fn device_type(self, device_type: &[u8]) -> (r: Self)
        ensures
            r@ == (EmitterBuilderView { device_type: device_type@, ..self@ }),
    {
        EmitterBuilder { device_type: copy_bytes(device_type), ..self }
    }

    pub fn backend(self, backend: &[u8]) -> (r: Self)
        ensures
            r@ == (EmitterBuilderView { backend: backend@, ..self@ }),
    {
        EmitterBuilder { backend: copy_bytes(backend), ..self }
    }

    /// Validate the configuration. The stream name and peer address are
    /// required, the device type selector must name a side, and the peer
    /// address must be dotted-decimal IPv4; each failure is fatal and
    /// reported before any stream starts.
    pub fn build(self) -> (r: Result<EmitterConfig, BuildError>)
        ensures
            ({
                let bv = self@;
                &&& bv.stream_name is None ==> r == Result::<EmitterConfig, BuildError>::Err(
                    BuildError::MissingStreamName,
                )
                &&& bv.stream_name is Some && bv.ip_address is None ==> r == Result::<
                    EmitterConfig,
                    BuildError,
                >::Err(BuildError::MissingIpAddress)
                &&& bv.stream_name is Some && bv.ip_address is Some && bv.device_type
                    != spec_input_name() && bv.device_type != spec_output_name() ==> r == Result::<
                    EmitterConfig,
                    BuildError,
                >::Err(BuildError::InvalidDeviceType)
                &&& bv.stream_name is Some && bv.ip_address is Some && (bv.device_type
                    == spec_input_name() || bv.device_type == spec_output_name()) && (forall|
                    ip: IpV4,
                |
                    bv.ip_address->0 != spec_ipv4_text(ip)) ==> r == Result::<
                    EmitterConfig,
                    BuildError,
                >::Err(BuildError::InvalidIpAddress)
                &&& r matches Ok(c) ==> {
                    &&& bv.stream_name == Some(c.stream_name@)
                    &&& c.channels == bv.channels
                    &&& bv.ip_address == Some(spec_ipv4_text(c.ip_address))
                    &&& c.port == bv.port
                    &&& c.device@ == bv.device
                    &&& (c.device_type == DeviceType::Input) == (bv.device_type
                        == spec_input_name())
                    &&& (c.device_type == DeviceType::Output) == (bv.device_type
                        == spec_output_name())
                    &&& c.backend@ == bv.backend
                }
                &&& (r is Ok) == (bv.stream_name is Some && bv.ip_address is Some && (
                bv.device_type == spec_input_name() || bv.device_type == spec_output_name()) && (
                exists|ip: IpV4| bv.ip_address->0 == spec_ipv4_text(ip)))
            }),
    {
        let stream_name = match self.stream_name {
            Some(n) => n,
            None => {
                return Err(BuildError::MissingStreamName);
            },
        };
        let ip_bytes = match self.ip_address {
            Some(i) => i,
            None => {
                return Err(BuildError::MissingIpAddress);
            },
        };
        let device_type = if bytes_eq(self.device_type.as_slice(), input_name().as_slice()) {
            DeviceType::Input
        } else if bytes_eq(self.device_type.as_slice(), output_name().as_slice()) {
            DeviceType::Output
        } else {
            return Err(BuildError::InvalidDeviceType);
        };
        let ip_address = match parse_ipv4(ip_bytes.as_slice()) {
            Some(ip) => ip,
            None => {
                return Err(BuildError::InvalidIpAddress);
            },
        };
        Ok(
            EmitterConfig {
                stream_name,
                channels: self.channels,
                ip_address,
                port: self.port,
                device: self.device,
                device_type,
                backend: self.backend,
            },
        )
    }
}

/// The mathematical content of a receptor builder.
#[verifier::ext_equal]
pub ghost struct ReceptorBuilderView {
    pub latency: u32,
    pub stream_name: Option<Seq<u8>>,
    pub channels: u8,
    pub ip_address: Option<Seq<u8>>,
    pub port: u16,
    pub device: Seq<u8>,
    pub device_type: Seq<u8>,
    pub backend: Seq<u8>,
}

/// A validated receptor configuration, immutable once built.
pub struct ReceptorConfig {
    pub latency: u32,
    pub stream_name: Vec<u8>,
    pub channels: u8,
    pub ip_address: IpV4,
    pub port: u16,
    pub device: Vec<u8>,
    pub device_type: DeviceType,
    pub backend: Vec<u8>,
}

/// Builder for a receptor session's configuration.
pub struct ReceptorBuilder {
    latency: u32,
    stream_name: Option<Vec<u8>>,
    channels: u8,
    ip_address: Option<Vec<u8>>,
    port: u16,
    device: Vec<u8>,
    device_type: Vec<u8>,
    backend: Vec<u8>,
}

impl View for ReceptorBuilder {
    type V = ReceptorBuilderView;

    closed spec fn view(&self) -> ReceptorBuilderView {
        ReceptorBuilderView {
            latency: self.latency,
            stream_name: match self.stream_name {
                Some(ref n) => Some(n@),
                None => None,
            },
            channels: self.channels,
            ip_address: match self.ip_address {
                Some(ref i) => Some(i@),
                None => None,
            },
            port: self.port,
            device: self.device@,
            device_type: self.device_type@,
            backend: self.backend@,
        }
    }
}

impl ReceptorBuilder {
    /// The starting configuration: 16 ms latency, 2 channels, port 6980,
    /// the default output device on the default backend; stream name and
    /// peer address must still be given.
    pub fn default() -> (r: ReceptorBuilder)
        ensures
            r@ == (ReceptorBuilderView {
                latency: 16,
                stream_name: None,
                channels: 2,
                ip_address: None,
                port: 6980,
                device: spec_default_name(),
                device_type: spec_output_name(),
                backend: spec_default_name(),
            }),
    {
        ReceptorBuilder {
            latency: 16,
            stream_name: None,
            channels: 2,
            ip_address: None,
            port: 6980,
            device: default_name(),
            device_type: output_name(),
            backend: default_name(),
        }
    }

    pub fn latency(self, latency: u32) -> (r: Self)
        ensures
            r@ == (ReceptorBuilderView { latency, ..self@ }),
    {
        ReceptorBuilder { latency, ..self }
    }

    pub fn stream_name(self, stream_name: &[u8]) -> (r: Self)
        ensures
            r@ == (ReceptorBuilderView { stream_name: Some(stream_name@), ..self@ }),
    {
        ReceptorBuilder { stream_name: Some(copy_bytes(stream_name)), ..self }
    }

    pub fn channels(self, channels: u8) -> (r: Self)
        ensures
            r@ == (ReceptorBuilderView { channels, ..self@ }),
    {
        ReceptorBuilder { channels, ..self }
    }

    pub fn ip_address(self, ip_address: &[u8]) -> (r: Self)
        ensures
            r@ == (ReceptorBuilderView { ip_address: Some(ip_address@), ..self@ }),
    {
        ReceptorBuilder { ip_address: Some(copy_bytes(ip_address)), ..self }
    }

    pub fn port(self, port: u16) -> (r: Self)
        ensures
            r@ == (ReceptorBuilderView { port, ..self@ }),
    {
        ReceptorBuilder { port, ..self }
    }

    pub fn device(self, device: &[u8]) -> (r: Self)
        ensures
            r@ == (ReceptorBuilderView { device: device@, ..self@ }),
    {
        ReceptorBuilder { device: copy_bytes(device), ..self }
    }

    pub fn device_type(self, device_type: &[u8]) -> (r: Self)
        ensures
            r@ == (ReceptorBuilderView { device_type: device_type@, ..self@ }),
    {
        ReceptorBuilder { device_type: copy_bytes(device_type), ..self }
    }

    pub fn backend(self, backend: &[u8]) -> (r: Self)
        ensures
            r@ == (ReceptorBuilderView { backend: backend@, ..self@ }),
    {
        ReceptorBuilder { backend: copy_bytes(backend), ..self }
    }

    /// Validate the configuration, as the emitter's build does; the
    /// latency is carried through for the jitter buffer.
    pub fn build(self) -> (r: Result<ReceptorConfig, BuildError>)
        ensures
            ({
                let bv = self@;
                &&& bv.stream_name is None ==> r == Result::<ReceptorConfig, BuildError>::Err(
                    BuildError::MissingStreamName,
                )
                &&& bv.stream_name is Some && bv.ip_address is None ==> r == Result::<
                    ReceptorConfig,
                    BuildError,
                >::Err(BuildError::MissingIpAddress)
                &&& bv.stream_name is Some && bv.ip_address is Some && bv.device_type
                    != spec_input_name() && bv.device_type != spec_output_name() ==> r == Result::<
                    ReceptorConfig,
                    BuildError,
                >::Err(BuildError::InvalidDeviceType)
                &&& bv.stream_name is Some && bv.ip_address is Some && (bv.device_type
                    == spec_input_name() || bv.device_type == spec_output_name()) && (forall|
                    ip: IpV4,
                |
                    bv.ip_address->0 != spec_ipv4_text(ip)) ==> r == Result::<
                    ReceptorConfig,
                    BuildError,
                >::Err(BuildError::InvalidIpAddress)
                &&& r matches Ok(c) ==> {
                    &&& c.latency == bv.latency
                    &&& bv.stream_name == Some(c.stream_name@)
                    &&& c.channels == bv.channels
                    &&& bv.ip_address == Some(spec_ipv4_text(c.ip_address))
                    &&& c.port == bv.port
                    &&& c.device@ == bv.device
                    &&& (c.device_type == DeviceType::Input) == (bv.device_type
                        == spec_input_name())
                    &&& (c.device_type == DeviceType::Output) == (bv.device_type
                        == spec_output_name())
                    &&& c.backend@ == bv.backend
                }
                &&& (r is Ok) == (bv.stream_name is Some && bv.ip_address is Some && (
                bv.device_type == spec_input_name() || bv.device_type == spec_output_name()) && (
                exists|ip: IpV4| bv.ip_address->0 == spec_ipv4_text(ip)))
            }),
    {
        let stream_name = match self.stream_name {
            Some(n) => n,
            None => {
                return Err(BuildError::MissingStreamName);
            },
        };
        let ip_bytes = match self.ip_address {
            Some(i) => i,
            None => {
                return Err(BuildError::MissingIpAddress);
            },
        };
        let device_type = if bytes_eq(self.device_type.as_slice(), input_name().as_slice()) {
            DeviceType::Input
        } else if bytes_eq(self.device_type.as_slice(), output_name().as_slice()) {
            DeviceType::Output
        } else {
            return Err(BuildError::InvalidDeviceType);
        };
        let ip_address = match parse_ipv4(ip_bytes.as_slice()) {
            Some(ip) => ip,
            None => {
                return Err(BuildError::InvalidIpAddress);
            },
        };
        Ok(
            ReceptorConfig {
                latency: self.latency,
                stream_name,
                channels: self.channels,
                ip_address,
                port: self.port,
                device: self.device,
                device_type,
                backend: self.backend,
            },
        )
    }
}

} // verus!
