use vstd::prelude::*;

use ipc_channel::ipc::IpcBytesSender;

use crate::error::PatchError;
use crate::format::MixFormat;

verus! {

#[verifier::external_type_specification]
#[verifier::external_body]
pub struct ExIpcBytesSender(IpcBytesSender);

/// `Clone::clone` of `IpcBytesSender`: a new handle to the same channel. Nothing
/// is claimed of the handle it gives.
pub assume_specification[ <IpcBytesSender as Clone>::clone ](s: &IpcBytesSender) -> IpcBytesSender;

/// Size, in bytes, of the patch's own capture buffer.
pub const BUFFER_SIZE: usize = 88200;

/// A stretch of the audio device's buffer: `len` bytes starting `offset` bytes
/// after the buffer's start address `address`.
#[derive(Debug, Clone, Copy, PartialEq, Eq, Structural)]
pub struct BufferRegion {
    pub address: usize,
    pub offset: usize,
    pub len: usize,
}

/// What the patch knows of the audio endpoint whose render buffer it watches:
/// the mix format, the address of the buffer last handed out, the padding and
/// buffer size (in frames) last reported, and the channel for captured bytes.
#[derive(Debug, Clone)]
pub struct SimulatedEndpoint {
    pub format: MixFormat,
    pbuffer: Option<usize>,
    current_padding: u32,
    buffer_size: u32,
    sender: IpcBytesSender,
}

impl SimulatedEndpoint {
    /// The mix format of the endpoint.
    pub closed spec fn mix_format(&self) -> MixFormat {
        self.format
    }

    /// The address of the render buffer last handed out, if any.
    pub closed spec fn buffer_pointer(&self) -> Option<usize> {
        self.pbuffer
    }

    /// The padding, in frames, last reported.
    pub closed spec fn current_padding(&self) -> u32 {
        self.current_padding
    }

    /// The buffer size, in frames, last reported.
    pub closed spec fn buffer_size(&self) -> u32 {
        self.buffer_size
    }

    /// The channel for captured bytes.
    pub closed spec fn sender(&self) -> IpcBytesSender {
        self.sender
    }

    /// A fresh endpoint: no buffer, no padding, size zero.
    pub fn new(sender: IpcBytesSender, format: MixFormat) -> (e: SimulatedEndpoint)
        ensures
            e.mix_format() == format,
            e.buffer_pointer() is None,
            e.current_padding() == 0,
            e.buffer_size() == 0,
            e.sender() == sender,
    {
        SimulatedEndpoint { format, pbuffer: None, buffer_size: 0, current_padding: 0, sender }
    }

    /// The size of a frame in bytes: the block alignment of the mix format.
    pub open spec fn frame_size(&self) -> int {
        self.mix_format().format.block_align as int
    }

    /// Whether the byte counts that reading `frames_written` frames computes (the
    /// padding, the buffer size and the written length in bytes, and the padding
    /// after the write) all fit in 32 bits.
    pub open spec fn read_fits(&self, frames_written: u32) -> bool {
        &&& self.current_padding() * self.frame_size() <= u32::MAX
        &&& self.buffer_size() * self.frame_size() <= u32::MAX
        &&& frames_written * self.frame_size() <= u32::MAX
        &&& self.current_padding() * self.frame_size() + frames_written * self.frame_size()
            <= u32::MAX
    }

    /// The stretch of the render buffer that a release of `frames_written` frames
    /// filled: it starts after the padding and holds the written frames, and it is
    /// read only when frames were written, the padding after the write stays below
    /// the buffer size, and a buffer is known.
    pub open spec fn spec_read_buffer(&self, frames_written: u32) -> Option<BufferRegion> {
        let padding = self.current_padding() * self.frame_size();
        let size = self.buffer_size() * self.frame_size();
        let written = frames_written * self.frame_size();
        if frames_written > 0 && padding + written < size && self.buffer_pointer() is Some {
            Some(
                BufferRegion {
                    address: self.buffer_pointer().unwrap(),
                    offset: padding as usize,
                    len: written as usize,
                },
            )
        } else {
            None
        }
    }

    /// Records the address of the render buffer just handed out.
    pub fn set_buffer_pointer(&mut self, address: usize)
        ensures
            final(self).buffer_pointer() == Some(address),
            final(self).current_padding() == old(self).current_padding(),
            final(self).buffer_size() == old(self).buffer_size(),
            final(self).mix_format() == old(self).mix_format(),
            final(self).sender() == old(self).sender(),
    {
        self.pbuffer = Some(address);
    }

    /// Records the buffer size, in frames, just reported.
    pub fn set_buffer_size(&mut self, size: u32)
        ensures
            final(self).buffer_size() == size,
            final(self).buffer_pointer() == old(self).buffer_pointer(),
            final(self).current_padding() == old(self).current_padding(),
            final(self).mix_format() == old(self).mix_format(),
            final(self).sender() == old(self).sender(),
    {
        self.buffer_size = size;
    }

    /// Records the padding, in frames, just reported.
    pub fn set_current_padding(&mut self, padding: u32)
        ensures
            final(self).current_padding() == padding,
            final(self).buffer_pointer() == old(self).buffer_pointer(),
            final(self).buffer_size() == old(self).buffer_size(),
            final(self).mix_format() == old(self).mix_format(),
            final(self).sender() == old(self).sender(),
    {
        self.current_padding = padding;
    }

    /// Whether reading `frames_written` frames stays within 32-bit byte counts.
    pub fn read_buffer_fits(&self, frames_written: u32) -> (b: bool)
        ensures
            b == self.read_fits(frames_written),
    {
        let frame_size: u32 = self.format.format.block_align as u32;
        match (
            self.current_padding.checked_mul(frame_size),
            self.buffer_size.checked_mul(frame_size),
            frames_written.checked_mul(frame_size),
        ) {
            (Some(padding), Some(_), Some(written)) => padding.checked_add(written).is_some(),
            _ => false,
        }
    }

    /// The stretch of the render buffer to read when `frames_written` frames are
    /// released, if any.
    pub fn read_buffer(&self, frames_written: u32) -> (r: Option<BufferRegion>)
        requires
            self.read_fits(frames_written),
        ensures
            r == self.spec_read_buffer(frames_written),
    {
        let frame_size: u32 = self.format.format.block_align as u32;
        let padding: u32 = self.current_padding * frame_size;
        let buffer_size: u32 = self.buffer_size * frame_size;
        let bytes_written: u32 = frames_written * frame_size;
        let new_padding: u32 = padding + bytes_written;
        match self.pbuffer {
            Some(address) => {
                if frames_written > 0 && new_padding < buffer_size {
                    Some(
                        BufferRegion {
                            address,
                            offset: padding as usize,
                            len: bytes_written as usize,
                        },
                    )
                } else {
                    None
                }
            },
            None => None,
        }
    }

    /// Handles the release of `frames_written` frames of the render buffer: the
    /// stretch they fill is the one to read; the endpoint itself is unchanged.
    pub fn release_buffer(&mut self, frames_written: u32) -> (r: Option<BufferRegion>)
        requires
            old(self).read_fits(frames_written),
        ensures
            r == old(self).spec_read_buffer(frames_written),
            *final(self) == *old(self),
    {
        self.read_buffer(frames_written)
    }
}

/// A stretch that a release reads lies inside the render buffer, and holds whole
/// frames.
pub proof fn lemma_read_region_in_buffer(endpoint: SimulatedEndpoint, frames_written: u32)
    requires
        endpoint.read_fits(frames_written),
        endpoint.spec_read_buffer(frames_written) is Some,
    ensures
        ({
            let region = endpoint.spec_read_buffer(frames_written).unwrap();
            &&& region.offset + region.len < endpoint.buffer_size() * endpoint.frame_size()
            &&& region.len == frames_written * endpoint.frame_size()
        }),
{
}

/// Creates the endpoint for the patch, with the channel for captured bytes and the
/// mix format, and keeps it in `slot`.
pub fn create_endpoint(
    slot: &mut Option<SimulatedEndpoint>,
    sender: IpcBytesSender,
    format: MixFormat,
) -> (r: Result<(), PatchError>)
    ensures
        r is Ok,
        *final(slot) is Some,
        final(slot)->0.mix_format() == format,
        final(slot)->0.sender() == sender,
        final(slot)->0.buffer_pointer() is None,
        final(slot)->0.current_padding() == 0,
        final(slot)->0.buffer_size() == 0,
{
    let endpoint = SimulatedEndpoint::new(sender, format);
    set_endpoint(slot, endpoint)
}

/// Keeps `endpoint` in `slot`, in place of any earlier one.
pub fn set_endpoint(slot: &mut Option<SimulatedEndpoint>, endpoint: SimulatedEndpoint) -> (r: Result<
    (),
    PatchError,
>)
    ensures
        r is Ok,
        *final(slot) == Some(endpoint),
{
    *slot = Some(endpoint);
    Ok(())
}

/// Drops the endpoint kept in `slot`, if any. To be called after the detours are
/// detached.
pub fn drop_endpoint(slot: &mut Option<SimulatedEndpoint>)
    ensures
        *final(slot) is None,
{
    if slot.is_some() {
        *slot = None;
    }
}


/// A release reads exactly when frames were written, a buffer is known and the
/// padding plus the written bytes stay below the buffer size in bytes, whatever
/// the padding, zero included; what it reads starts at the padding (in bytes) of
/// the known buffer and holds the written bytes.
pub proof fn lemma_read_buffer_rules(endpoint: SimulatedEndpoint, frames_written: u32)
    requires
        endpoint.read_fits(frames_written),
    ensures
        ({
            let align: int = endpoint.mix_format().format.block_align as int;
            let padding: int = endpoint.current_padding() * align;
            let written: int = frames_written * align;
            &&& (endpoint.spec_read_buffer(frames_written) is Some) <==> (frames_written > 0
                && endpoint.buffer_pointer() is Some && padding + written
                < endpoint.buffer_size() * align)
            &&& endpoint.spec_read_buffer(frames_written) matches Some(region) ==> {
                &&& region.address == endpoint.buffer_pointer()->0
                &&& region.offset == padding
                &&& region.len == written
            }
        }),
{
}

} // verus!
