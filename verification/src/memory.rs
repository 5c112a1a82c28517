//! What the recorded transfers do to the bytes of the two buffers of a
//! staging buffer, and what follows for the regions.

use vstd::prelude::*;
use crate::dispatch::{
    descriptor_writes, dispatch_recording, images, spec_constants_fit, specialization_entries,
    ConstantEntry, StagingBufferRegion, StagingBufferView, WorkgroupCount,
};
use crate::driver::Command;
use crate::layout::{
    concat, lemma_concat_len, lemma_concat_part, lemma_part_within, lemma_parts_disjoint,
    lengths, offset, overwrite,
};
use crate::vk::types::{
    VkBuffer, VkDescriptorSet, VkPipeline, VkPipelineLayout, VkPushConstantRange,
};

verus! {

/// The bytes of the host-visible and of the device-local buffer.
pub struct Memory {
    pub host: Seq<u8>,
    pub device: Seq<u8>,
}

/// What a shader makes of the bytes of the device-local buffer.
pub type Shader = spec_fn(Seq<u8>) -> Seq<u8>;

/// The bytes of the two buffers after `command`, where `host` and `device`
/// are the handles of the two buffers and `shader` is what the bound
/// pipeline computes. A copy between the two buffers replaces the range of
/// the destination by the range of the source; a dispatch replaces the
/// bytes of the device-local buffer by what the shader makes of them;
/// every other command leaves the bytes as they are.
pub open spec fn after_command(
    command: Command,
    memory: Memory,
    host: VkBuffer,
    device: VkBuffer,
    shader: Shader,
) -> Memory {
    match command {
        Command::Dispatch { .. } => Memory { device: shader(memory.device), ..memory },
        Command::CopyBuffer { src, dst, region } => {
            let from = region.srcOffset as int;
            let to = region.dstOffset as int;
            let size = region.size as int;
            if src == host && dst == device {
                Memory {
                    device: overwrite(memory.device, to, memory.host.subrange(from, from + size)),
                    ..memory
                }
            } else if src == device && dst == host {
                Memory {
                    host: overwrite(memory.host, to, memory.device.subrange(from, from + size)),
                    ..memory
                }
            } else {
                memory
            }
        },
        _ => memory,
    }
}

/// The bytes of the two buffers after `commands`, in order.
pub open spec fn after_commands(
    commands: Seq<Command>,
    memory: Memory,
    host: VkBuffer,
    device: VkBuffer,
    shader: Shader,
) -> Memory
    decreases commands.len(),
{
    if commands.len() == 0 {
        memory
    } else {
        after_command(
            commands.last(),
            after_commands(commands.drop_last(), memory, host, device, shader),
            host,
            device,
            shader,
        )
    }
}

/// The shader that leaves every byte as it is.
pub open spec fn pass_through() -> Shader {
    |bytes: Seq<u8>| bytes
}

impl StagingBufferRegion {
    /// The bytes of the region in a buffer with the bytes `buffer`.
    pub open spec fn bytes_in(&self, buffer: Seq<u8>) -> Seq<u8> {
        buffer.subrange(
            self.copy_region.srcOffset as int,
            self.copy_region.srcOffset + self.copy_region.size,
        )
    }

    /// The bytes of the two buffers after the caller has written `bytes`
    /// to the region through the mapped memory.
    pub open spec fn written(&self, memory: Memory, bytes: Seq<u8>) -> Memory {
        Memory { host: overwrite(memory.host, self.copy_region.srcOffset as int, bytes), ..memory }
    }

    /// The bytes of the two buffers after a run of the recorded upload.
    pub open spec fn uploaded(&self, memory: Memory) -> Memory {
        after_commands(
            self.upload_commands(),
            memory,
            self.host_buffer_memory.buffer,
            self.device_buffer_memory.buffer,
            pass_through(),
        )
    }

    /// The bytes of the two buffers after a run of the recorded download.
    pub open spec fn downloaded(&self, memory: Memory) -> Memory {
        after_commands(
            self.download_commands(),
            memory,
            self.host_buffer_memory.buffer,
            self.device_buffer_memory.buffer,
            pass_through(),
        )
    }
}

impl StagingBufferView {
    /// Whether `memory` can be the bytes of the two buffers: whether each
    /// has as many bytes as the staging buffer is large.
    pub open spec fn holds(self, memory: Memory) -> bool {
        memory.host.len() == self.buffer_size && memory.device.len() == self.buffer_size
    }
}

/// A region lies within the buffers.
pub proof fn lemma_region_within(buffer: StagingBufferView, i: int)
    requires
        buffer.wf(),
        0 <= i < buffer.regions.len(),
    ensures
        buffer.regions[i].copy_region.srcOffset + buffer.regions[i].copy_region.size
            <= buffer.buffer_size,
        buffer.regions[i].copy_region.dstOffset == buffer.regions[i].copy_region.srcOffset,
        buffer.regions[i].host_buffer_memory == buffer.host_buffer_memory,
        buffer.regions[i].device_buffer_memory == buffer.device_buffer_memory,
{
    lemma_part_within(buffer.sizes(), i);
}

/// The effect of the upload and of the download of a region, byte by byte.
pub proof fn lemma_transfers(buffer: StagingBufferView, i: int, memory: Memory)
    requires
        buffer.wf(),
        buffer.distinct(),
        buffer.holds(memory),
        0 <= i < buffer.regions.len(),
    ensures
        ({
            let region = buffer.regions[i];
            let at = region.copy_region.srcOffset as int;
            let size = region.copy_region.size as int;
            &&& region.uploaded(memory).host == memory.host
            &&& region.uploaded(memory).device == overwrite(
                memory.device,
                at,
                memory.host.subrange(at, at + size),
            )
            &&& region.downloaded(memory).device == memory.device
            &&& region.downloaded(memory).host == overwrite(
                memory.host,
                at,
                memory.device.subrange(at, at + size),
            )
        }),
{
    let region = buffer.regions[i];
    let host = region.host_buffer_memory.buffer;
    let device = region.device_buffer_memory.buffer;
    lemma_region_within(buffer, i);
    reveal_with_fuel(after_commands, 3);
    let up = region.upload_commands();
    assert(up.len() == 1);
    assert(up.drop_last().len() == 0);
    assert(region.uploaded(memory) == after_command(up[0], memory, host, device, pass_through()));
    let down = region.download_commands();
    assert(down.len() == 2);
    assert(down.drop_last().len() == 1);
    assert(down.drop_last().drop_last().len() == 0);
    assert(down.drop_last().last() == down[0]);
    assert(region.downloaded(memory) == after_command(
        down[1],
        after_command(down[0], memory, host, device, pass_through()),
        host,
        device,
        pass_through(),
    ));
}

/// What goes up comes down.
///
/// The caller writes `bytes`, as many as region `i` is long, to the region,
/// and the upload runs. Whatever happens then, as long as it leaves the
/// region's bytes in the device-local buffer as they are (no dispatch, or
/// one whose shader passes them through), a download brings back to the
/// region's bytes in the host-visible buffer exactly `bytes`.
pub proof fn lemma_round_trip(
    buffer: StagingBufferView,
    i: int,
    memory: Memory,
    bytes: Seq<u8>,
    between: Memory,
)
    requires
        buffer.wf(),
        buffer.distinct(),
        buffer.holds(memory),
        buffer.holds(between),
        0 <= i < buffer.regions.len(),
        bytes.len() == buffer.regions[i].copy_region.size,
        buffer.regions[i].bytes_in(between.device) == buffer.regions[i].bytes_in(
            buffer.regions[i].uploaded(buffer.regions[i].written(memory, bytes)).device,
        ),
    ensures
        buffer.regions[i].bytes_in(
            buffer.regions[i].uploaded(buffer.regions[i].written(memory, bytes)).device,
        ) == bytes,
        buffer.regions[i].bytes_in(buffer.regions[i].downloaded(between).host) == bytes,
{
    let region = buffer.regions[i];
    let at = region.copy_region.srcOffset as int;
    let size = region.copy_region.size as int;
    lemma_region_within(buffer, i);
    let written = region.written(memory, bytes);
    assert(written.host.subrange(at, at + size) =~= bytes);
    lemma_transfers(buffer, i, written);
    let uploaded = region.uploaded(written);
    assert(region.bytes_in(uploaded.device) =~= bytes);
    lemma_transfers(buffer, i, between);
    assert(region.bytes_in(region.downloaded(between).host) =~= region.bytes_in(between.device));
}

/// A write to one region, its upload and its download leave the bytes of
/// every other region as they are, in the host-visible and in the
/// device-local buffer.
pub proof fn lemma_isolation(
    buffer: StagingBufferView,
    i: int,
    j: int,
    memory: Memory,
    bytes: Seq<u8>,
)
    requires
        buffer.wf(),
        buffer.distinct(),
        buffer.holds(memory),
        0 <= i < buffer.regions.len(),
        0 <= j < buffer.regions.len(),
        i != j,
        bytes.len() == buffer.regions[i].copy_region.size,
    ensures
        ({
            let region = buffer.regions[i];
            let other = buffer.regions[j];
            let written = region.written(memory, bytes);
            let uploaded = region.uploaded(written);
            let downloaded = region.downloaded(uploaded);
            &&& other.bytes_in(written.host) == other.bytes_in(memory.host)
            &&& other.bytes_in(written.device) == other.bytes_in(memory.device)
            &&& other.bytes_in(uploaded.host) == other.bytes_in(memory.host)
            &&& other.bytes_in(uploaded.device) == other.bytes_in(memory.device)
            &&& other.bytes_in(downloaded.host) == other.bytes_in(memory.host)
            &&& other.bytes_in(downloaded.device) == other.bytes_in(memory.device)
        }),
{
    let region = buffer.regions[i];
    let other = buffer.regions[j];
    lemma_region_within(buffer, i);
    lemma_region_within(buffer, j);
    if i < j {
        lemma_parts_disjoint(buffer.sizes(), i, j);
    } else {
        lemma_parts_disjoint(buffer.sizes(), j, i);
    }
    let written = region.written(memory, bytes);
    lemma_transfers(buffer, i, written);
    let uploaded = region.uploaded(written);
    lemma_transfers(buffer, i, uploaded);
    let downloaded = region.downloaded(uploaded);
    assert(other.bytes_in(written.host) =~= other.bytes_in(memory.host));
    assert(other.bytes_in(uploaded.device) =~= other.bytes_in(memory.device));
    assert(other.bytes_in(downloaded.host) =~= other.bytes_in(memory.host));
}

/// The descriptor of binding `i` covers region `i`: it begins at the sum
/// of the sizes of the regions before it, and is as long as the region.
pub proof fn lemma_descriptor_ranges(
    buffer: StagingBufferView,
    descriptor_set: VkDescriptorSet,
    i: int,
)
    requires
        buffer.wf(),
        0 <= i < buffer.regions.len(),
        buffer.regions.len() <= u32::MAX,
    ensures
        ({
            let writes = descriptor_writes(
                descriptor_set,
                buffer.device_buffer_memory.buffer,
                buffer.regions,
            );
            &&& writes.len() == buffer.regions.len()
            &&& writes[i].dstBinding == i
            &&& writes[i].bufferInfo.buffer == buffer.device_buffer_memory.buffer
            &&& writes[i].bufferInfo.offset == offset(buffer.sizes(), i)
            &&& writes[i].bufferInfo.range == buffer.sizes()[i]
        }),
{
    let region = buffer.regions[i];
    assert(region.copy_region.srcOffset == offset(buffer.sizes(), i));
    assert(region.copy_region.size == buffer.sizes()[i]);
}

/// Packed constants reach the shader byte for byte: the bytes that the
/// map entry of constant `i` points at, in the packed data, are the byte
/// image of the constant. This holds for specialization constants, and for
/// push constants, which are packed in the same way.
pub proof fn lemma_constant_bytes(constants: Seq<ConstantEntry>, i: int)
    requires
        spec_constants_fit(constants),
        0 <= i < constants.len(),
    ensures
        ({
            let entry = specialization_entries(images(constants))[i];
            let data = concat(images(constants));
            &&& entry.constantID == i
            &&& entry.size == constants[i]@.len()
            &&& entry.offset + entry.size <= data.len()
            &&& data.subrange(entry.offset as int, entry.offset + entry.size) == constants[i]@
        }),
{
    let parts = images(constants);
    lemma_concat_part(parts, i);
    lemma_concat_len(parts);
    lemma_part_within(lengths(parts), i);
}

/// A run of a recorded dispatch runs the shader once on the bytes of the
/// device-local buffer, and leaves the bytes of the host-visible buffer as
/// they are.
pub proof fn lemma_dispatch_runs_once(
    commands: Seq<Command>,
    pipeline: VkPipeline,
    layout: VkPipelineLayout,
    range: Option<VkPushConstantRange>,
    descriptor_set: VkDescriptorSet,
    buffer: VkBuffer,
    count: WorkgroupCount,
    constants: Seq<Seq<u8>>,
    memory: Memory,
    host: VkBuffer,
    shader: Shader,
)
    requires
        dispatch_recording(
            commands,
            pipeline,
            layout,
            range,
            descriptor_set,
            buffer,
            count,
            constants,
        ),
    ensures
        after_commands(commands, memory, host, buffer, shader) == (Memory {
            host: memory.host,
            device: shader(memory.device),
        }),
{
    reveal_with_fuel(after_commands, 8);
    let shift: int = if constants.len() == 0 {
        0
    } else {
        1
    };
    let n = commands.len() as int;
    assert(n == 5 + shift);
    let c4 = commands.drop_last();
    let c3 = c4.drop_last();
    let c2 = c3.drop_last();
    let c1 = c2.drop_last();
    let c0 = c1.drop_last();
    assert(commands.last() == commands[4 + shift]);
    assert(c4.last() == commands[3 + shift]);
    assert(c3.last() == commands[2 + shift]);
    assert(c2.last() == commands[1 + shift]);
    assert(c1.last() == commands[shift]);
    if shift == 1 {
        assert(c0.last() == commands[0]);
        assert(c0.drop_last().len() == 0);
        assert(after_commands(c0, memory, host, buffer, shader) == memory);
    } else {
        assert(c0.len() == 0);
    }
    assert(after_commands(c1, memory, host, buffer, shader) == memory);
    assert(after_commands(c2, memory, host, buffer, shader) == memory);
    assert(after_commands(c3, memory, host, buffer, shader) == memory);
    assert(after_commands(c4, memory, host, buffer, shader) == (Memory {
        host: memory.host,
        device: shader(memory.device),
    }));
}

/// What goes up comes down through a dispatch that passes it through.
///
/// The caller writes `bytes`, as many as region `i` is long, to the region;
/// the upload runs; a dispatch of a shader that leaves every byte as it is
/// runs; the download runs. Then the region's bytes in the host-visible
/// buffer are exactly `bytes`.
pub proof fn lemma_round_trip_through_dispatch(
    buffer: StagingBufferView,
    i: int,
    memory: Memory,
    bytes: Seq<u8>,
    commands: Seq<Command>,
    pipeline: VkPipeline,
    layout: VkPipelineLayout,
    range: Option<VkPushConstantRange>,
    descriptor_set: VkDescriptorSet,
    count: WorkgroupCount,
    constants: Seq<Seq<u8>>,
)
    requires
        buffer.wf(),
        buffer.distinct(),
        buffer.holds(memory),
        0 <= i < buffer.regions.len(),
        bytes.len() == buffer.regions[i].copy_region.size,
        dispatch_recording(
            commands,
            pipeline,
            layout,
            range,
            descriptor_set,
            buffer.device_buffer_memory.buffer,
            count,
            constants,
        ),
    ensures
        ({
            let region = buffer.regions[i];
            let uploaded = region.uploaded(region.written(memory, bytes));
            let dispatched = after_commands(
                commands,
                uploaded,
                buffer.host_buffer_memory.buffer,
                buffer.device_buffer_memory.buffer,
                pass_through(),
            );
            region.bytes_in(region.downloaded(dispatched).host) == bytes
        }),
{
    let region = buffer.regions[i];
    lemma_region_within(buffer, i);
    let written = region.written(memory, bytes);
    lemma_transfers(buffer, i, written);
    let uploaded = region.uploaded(written);
    lemma_dispatch_runs_once(
        commands,
        pipeline,
        layout,
        range,
        descriptor_set,
        buffer.device_buffer_memory.buffer,
        count,
        constants,
        uploaded,
        buffer.host_buffer_memory.buffer,
        pass_through(),
    );
    let dispatched = after_commands(
        commands,
        uploaded,
        buffer.host_buffer_memory.buffer,
        buffer.device_buffer_memory.buffer,
        pass_through(),
    );
    assert(dispatched.device == uploaded.device);
    lemma_round_trip(buffer, i, memory, bytes, dispatched);
}

/// A second run of a dispatch with nothing written in between yields the
/// bytes of the first, where the shader's output depends on its input
/// alone: where running the shader on its own output gives that output
/// again.
pub proof fn lemma_repeated_dispatch(
    commands: Seq<Command>,
    pipeline: VkPipeline,
    layout: VkPipelineLayout,
    range: Option<VkPushConstantRange>,
    descriptor_set: VkDescriptorSet,
    buffer: VkBuffer,
    count: WorkgroupCount,
    constants: Seq<Seq<u8>>,
    memory: Memory,
    host: VkBuffer,
    shader: Shader,
)
    requires
        dispatch_recording(
            commands,
            pipeline,
            layout,
            range,
            descriptor_set,
            buffer,
            count,
            constants,
        ),
        shader(shader(memory.device)) == shader(memory.device),
    ensures
        after_commands(
            commands,
            after_commands(commands, memory, host, buffer, shader),
            host,
            buffer,
            shader,
        ) == after_commands(commands, memory, host, buffer, shader),
{
    lemma_dispatch_runs_once(
        commands,
        pipeline,
        layout,
        range,
        descriptor_set,
        buffer,
        count,
        constants,
        memory,
        host,
        shader,
    );
    lemma_dispatch_runs_once(
        commands,
        pipeline,
        layout,
        range,
        descriptor_set,
        buffer,
        count,
        constants,
        after_commands(commands, memory, host, buffer, shader),
        host,
        shader,
    );
}

} // verus!
