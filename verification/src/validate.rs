//! The receptor's validation pipeline: every received datagram is
//! checked against the configured peer address, stream name, channel
//! count, sub-protocol and codec; an accepted packet's payload feeds the
//! jitter buffer, a rejected one is dropped and the receive loop goes on.

use vstd::prelude::*;

use crate::header::{SubProtocol, Codec, spec_decode, spec_strip_zeros};
use crate::ip::IpV4;
use crate::jitter::{JitterBuffer, spec_samples, spec_capacity, spec_wf};
use crate::packet::{Error, Packet, PacketView};
use crate::util::bytes_eq;

verus! {

use crate::wire::spec_samples_of_bytes;

/// Why a received datagram was dropped.
#[derive(Clone, Copy, Debug, PartialEq, Eq, Structural)]
pub enum ReceiveError {
    /// The datagram is shorter than one header.
    Truncated,
    /// The header could not be decoded: no magic.
    MissingMagicNumber,
    /// The header could not be decoded: reserved bit set.
    MalformedFormat,
    /// The datagram did not come from the configured peer.
    WrongSource,
    /// The header names another stream.
    WrongStreamName,
    /// The header carries another channel count.
    WrongChannelCount,
    /// The payload is not audio.
    WrongSubProtocol,
    /// The payload is not plain PCM.
    WrongCodec,
}

/// Exactly which packets the pipeline accepts, and the error each
/// rejected datagram is dropped with: the source address is checked
/// first, then the wire header, then the stream identity fields.
pub open spec fn spec_validate(
    incoming_addr: IpV4,
    src: IpV4,
    stream_name: Seq<u8>,
    channels: u8,
    buf: Seq<u8>,
) -> Result<PacketView, ReceiveError> {
    if src != incoming_addr {
        Result::Err(ReceiveError::WrongSource)
    } else if buf.len() < 28 {
        Result::Err(ReceiveError::Truncated)
    } else {
        match spec_decode(buf) {
            Result::Err(Error::MissingMagicNumber) => Result::Err(ReceiveError::MissingMagicNumber),
            Result::Err(Error::MalformedFormat) => Result::Err(ReceiveError::MalformedFormat),
            Result::Ok(h) => {
                if spec_strip_zeros(h.stream_name) != stream_name {
                    Result::Err(ReceiveError::WrongStreamName)
                } else if h.num_channels + 1 != channels {
                    Result::Err(ReceiveError::WrongChannelCount)
                } else if h.sub_protocol != SubProtocol::Audio {
                    Result::Err(ReceiveError::WrongSubProtocol)
                } else if h.codec != Codec::PCM {
                    Result::Err(ReceiveError::WrongCodec)
                } else {
                    Result::Ok(PacketView { header: h, data: buf.skip(28) })
                }
            },
        }
    }
}

/// Reject a datagram whose source is not the configured peer.
pub fn check_src(incoming_addr: &IpV4, src: &IpV4) -> (r: Result<(), ReceiveError>)
    ensures
        (r is Ok) == (*src == *incoming_addr),
        r matches Err(e) ==> e == ReceiveError::WrongSource,
{
    if src == incoming_addr {
        Ok(())
    } else {
        Err(ReceiveError::WrongSource)
    }
}

/// Reject a parsed packet that does not belong to the configured audio
/// stream: the name, the channel count, the sub-protocol and the codec
/// are checked in that order.
pub fn check_audio_pkt(stream_name: &[u8], channels: &u8, pkt: &Packet) -> (r: Result<
    (),
    ReceiveError,
>)
    ensures
        ({
            let h = pkt@.header;
            let name_ok = spec_strip_zeros(h.stream_name) == stream_name@;
            let chan_ok = h.num_channels + 1 == *channels;
            let sub_ok = h.sub_protocol == SubProtocol::Audio;
            let codec_ok = h.codec == Codec::PCM;
            &&& (r is Ok) == (name_ok && chan_ok && sub_ok && codec_ok)
            &&& !name_ok ==> r == Result::<(), ReceiveError>::Err(ReceiveError::WrongStreamName)
            &&& name_ok && !chan_ok ==> r == Result::<(), ReceiveError>::Err(
                ReceiveError::WrongChannelCount,
            )
            &&& name_ok && chan_ok && !sub_ok ==> r == Result::<(), ReceiveError>::Err(
                ReceiveError::WrongSubProtocol,
            )
            &&& name_ok && chan_ok && sub_ok && !codec_ok ==> r == Result::<(), ReceiveError>::Err(
                ReceiveError::WrongCodec,
            )
        }),
{
    let header = pkt.header();
    let name = header.stream_name();
    if !bytes_eq(name.as_slice(), stream_name) {
        return Err(ReceiveError::WrongStreamName);
    }
    if header.num_channels() != *channels as u16 {
        return Err(ReceiveError::WrongChannelCount);
    }
    if !matches!(header.sub_protocol(), SubProtocol::Audio) {
        return Err(ReceiveError::WrongSubProtocol);
    }
    if !matches!(header.codec(), Codec::PCM) {
        return Err(ReceiveError::WrongCodec);
    }
    Ok(())
}

/// Validate one received datagram: check its source, parse it, and check
/// its stream identity. Returns the parsed packet, or the error it is
/// dropped with.
pub fn receive_packet(
    incoming_addr: &IpV4,
    src: &IpV4,
    stream_name: &[u8],
    channels: &u8,
    buf: &[u8],
) -> (r: Result<Packet, ReceiveError>)
    ensures
        ({
            let v = spec_validate(*incoming_addr, *src, stream_name@, *channels, buf@);
            &&& (r is Ok) == (v is Ok)
            &&& r matches Ok(p) ==> v == Result::<PacketView, ReceiveError>::Ok(p@)
            &&& r matches Ok(p) ==> p@.header.wf()
            &&& r matches Err(e) ==> v == Result::<PacketView, ReceiveError>::Err(e)
        }),
{
    if let Err(e) = check_src(incoming_addr, src) {
        return Err(e);
    }
    if buf.len() < 28 {
        return Err(ReceiveError::Truncated);
    }
    let pkt = match Packet::parse(buf) {
        Ok(p) => p,
        Err(Error::MissingMagicNumber) => {
            return Err(ReceiveError::MissingMagicNumber);
        },
        Err(Error::MalformedFormat) => {
            return Err(ReceiveError::MalformedFormat);
        },
    };
    if let Err(e) = check_audio_pkt(stream_name, channels, &pkt) {
        return Err(e);
    }
    Ok(pkt)
}

/// The receive thread's handling of one datagram: validate it, and feed
/// an accepted packet's payload into the jitter buffer sample by sample,
/// dropping samples that meet a full queue. A rejected datagram leaves
/// the buffer untouched.
pub fn handle_datagram(
    jb: &mut JitterBuffer,
    incoming_addr: &IpV4,
    src: &IpV4,
    stream_name: &[u8],
    channels: &u8,
    buf: &[u8],
) -> (r: Result<(), ReceiveError>)
    requires
        spec_wf(*old(jb)),
    ensures
        spec_wf(*final(jb)),
        spec_capacity(*final(jb)) == spec_capacity(*old(jb)),
        ({
            let v = spec_validate(*incoming_addr, *src, stream_name@, *channels, buf@);
            &&& (r is Ok) == (v is Ok)
            &&& r matches Err(e) ==> v == Result::<PacketView, ReceiveError>::Err(e)
                && *final(jb) == *old(jb)
            &&& r matches Ok(p) ==> ({
                let dec = spec_samples_of_bytes(v->Ok_0.data);
                let free = spec_capacity(*old(jb)) - spec_samples(*old(jb)).len();
                let taken = if dec.len() <= free {
                    dec.len() as int
                } else {
                    free
                };
                spec_samples(*final(jb)) == spec_samples(*old(jb)) + dec.take(taken)
            })
        }),
{
    let pkt = match receive_packet(incoming_addr, src, stream_name, channels, buf) {
        Ok(p) => p,
        Err(e) => {
            return Err(e);
        },
    };
    jb.push_payload(pkt.data().as_slice());
    Ok(())
}

} // verus!
