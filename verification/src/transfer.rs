//! Moving data between host and device: buffer sizes and roles, the
//! commands of one compute job, and the bytes of 32-bit words.
//!
//! A 32-bit float travels as the word that holds its bits.

use vstd::prelude::*;
use crate::command::{Command, CommandBuffer, CommandEncoder};
use crate::error::GpuError;
use crate::pipeline::{storage_slot, BindingKind, BindingLayoutEntry, ComputePipelineDescriptor};
use crate::shader::{unit_workgroup, ShaderStage};

verus! {

/// Bytes in one element.
pub const WORD_BYTES: usize = 4;

/// Most workgroups a dispatch may ask for along one dimension under the
/// default device limits.
pub const MAX_WORKGROUPS: u32 = 65535;

/// What a buffer may be used for.
#[derive(Clone, Copy, Debug, PartialEq, Eq, Structural)]
pub struct BufferUsage {
    pub storage: bool,
    pub copy_src: bool,
    pub copy_dst: bool,
    pub map_read: bool,
}

/// Usage of the buffer a kernel works on.
pub open spec fn storage_usage() -> BufferUsage {
    BufferUsage { storage: true, copy_src: true, copy_dst: true, map_read: false }
}

/// Usage of the buffer the host reads results from.
pub open spec fn readback_usage() -> BufferUsage {
    BufferUsage { storage: false, copy_src: false, copy_dst: true, map_read: true }
}

/// A device buffer: its size in bytes and its role. A buffer is either a
/// storage buffer or a readback buffer, never both.
#[derive(Clone, Copy, Debug)]
pub struct GpuBuffer {
    size: u64,
    usage: BufferUsage,
}

/// The four bytes of a word, lowest first.
pub open spec fn word_bytes(word: u32) -> Seq<u8> {
    seq![
        (word % 256) as u8,
        (word / 256 % 256) as u8,
        (word / 65536 % 256) as u8,
        (word / 16777216) as u8,
    ]
}

/// The word whose bytes, lowest first, are the four given.
pub open spec fn word_of(b0: u8, b1: u8, b2: u8, b3: u8) -> u32 {
    (b0 + b1 * 256 + b2 * 65536 + b3 * 16777216) as u32
}

/// The bytes of a sequence of words, word after word.
pub open spec fn encode_words(words: Seq<u32>) -> Seq<u8> {
    Seq::new((words.len() * 4) as nat, |i: int| word_bytes(words[i / 4])[i % 4])
}

/// The words that a sequence of bytes holds, four bytes each; bytes that do
/// not fill a word are left out.
pub open spec fn decode_words(bytes: Seq<u8>) -> Seq<u32> {
    Seq::new(
        (bytes.len() / 4) as nat,
        |i: int| word_of(bytes[4 * i], bytes[4 * i + 1], bytes[4 * i + 2], bytes[4 * i + 3]),
    )
}

/// What reading a buffer back gives, from the buffer's size and usage and
/// from what the mapping reported: the mapped bytes, or nothing where the
/// mapping failed.
pub open spec fn read_back_result(size: u64, usage: BufferUsage, mapped: Option<Seq<u8>>) -> Result<
    Seq<u32>,
    GpuError,
> {
    match mapped {
        Some(bytes) => if !usage.map_read {
            Err(GpuError::MapFailed)
        } else if bytes.len() != size || bytes.len() % 4 != 0 {
            Err(GpuError::SizeMismatch)
        } else {
            Ok(decode_words(bytes))
        },
        None => Err(GpuError::MapFailed),
    }
}

/// The number of workgroups for an input of `len` elements: one for each
/// element, where there is at least one and no more than a dispatch takes.
pub open spec fn workgroups_for(len: nat) -> Option<u32> {
    if 0 < len <= MAX_WORKGROUPS {
        Some(len as u32)
    } else {
        None
    }
}

/// The compute pass for a number of workgroups: bind group 0, one
/// workgroup for each element along X.
pub open spec fn compute_pass(workgroup_count: u32) -> Command {
    Command::ComputePass {
        bind_group_index: 0,
        workgroups_x: workgroup_count,
        workgroups_y: 1,
        workgroups_z: 1,
    }
}

/// Whether a dispatch fits the kernel and its data: the pipeline binds the
/// one storage slot and declares one invocation for each workgroup, the
/// bind group sits at that slot, its buffer holds at least one element of
/// four bytes for each workgroup, and the device takes that many
/// workgroups.
pub open spec fn dispatchable(
    pipeline: ComputePipelineDescriptor,
    bind_group: BindGroup,
    workgroup_count: u32,
) -> bool {
    &&& pipeline.layout@ == seq![storage_slot()]
    &&& pipeline.workgroup_size == unit_workgroup()
    &&& bind_group.binding == storage_slot().binding
    &&& bind_group.buffer_size >= 4 * workgroup_count
    &&& workgroup_count <= MAX_WORKGROUPS
}

/// Whether a copy between buffers of these sizes is accepted: only where
/// the sizes are equal.
pub open spec fn copy_outcome(src_size: u64, dst_size: u64) -> Result<(), GpuError> {
    if src_size == dst_size {
        Ok(())
    } else {
        Err(GpuError::SizeMismatch)
    }
}

/// What an encoder holds after a copy between buffers of these sizes was
/// asked for: one more command where the copy is accepted, and what it
/// held before where it is not.
pub open spec fn after_copy(recorded: Seq<Command>, src_size: u64, dst_size: u64) -> Seq<Command> {
    if src_size == dst_size {
        recorded.push(Command::CopyBuffer { size: src_size })
    } else {
        recorded
    }
}

impl GpuBuffer {
    #[verifier::type_invariant]
    spec fn has_one_role(self) -> bool {
        &&& self.usage == storage_usage() || self.usage == readback_usage()
        &&& self.usage == storage_usage() ==> self.size % 4 == 0
    }

    /// Size in bytes.
    pub closed spec fn size_spec(self) -> u64 {
        self.size
    }

    /// What the buffer may be used for.
    pub closed spec fn usage_spec(self) -> BufferUsage {
        self.usage
    }

    /// Size in bytes.
    pub fn size(&self) -> (size: u64)
        ensures
            size == self.size_spec(),
    {
        self.size
    }

    /// What the buffer may be used for: that of a storage buffer or that of
    /// a readback buffer. A storage buffer holds whole elements.
    pub fn usage(&self) -> (usage: BufferUsage)
        ensures
            usage == self.usage_spec(),
            usage == storage_usage() || usage == readback_usage(),
            usage == storage_usage() ==> self.size_spec() % 4 == 0,
    {
        proof {
            use_type_invariant(self);
        }
        self.usage
    }
}

/// A buffer bound to slot 0 of bind group 0.
#[derive(Clone, Copy, Debug, PartialEq, Eq, Structural)]
pub struct BindGroup {
    pub binding: u32,
    pub buffer_size: u64,
}

/// Splits a word into its four bytes, lowest first.
pub fn bytes_of_word(word: u32) -> (bytes: [u8; 4])
    ensures
        bytes@ == word_bytes(word),
{
    [
        (word % 256) as u8,
        (word / 256 % 256) as u8,
        (word / 65536 % 256) as u8,
        (word / 16777216) as u8,
    ]
}

/// Joins four bytes, lowest first, into a word.
pub fn word_from_bytes(b0: u8, b1: u8, b2: u8, b3: u8) -> (word: u32)
    ensures
        word == word_of(b0, b1, b2, b3),
{
    (b0 as u32) + (b1 as u32) * 256 + (b2 as u32) * 65536 + (b3 as u32) * 16777216
}

/// Lays the words out as bytes, word after word, lowest byte first.
pub fn words_to_bytes(words: &Vec<u32>) -> (bytes: Vec<u8>)
    ensures
        bytes@ == encode_words(words@),
        bytes@.len() == 4 * words@.len(),
{
    let mut bytes: Vec<u8> = Vec::new();
    let mut i: usize = 0;
    while i < words.len()
        invariant
            i <= words.len(),
            bytes@.len() == 4 * i,
            forall|j: int| 0 <= j < 4 * i ==> bytes@[j] == word_bytes(words@[j / 4])[j % 4],
        decreases words.len() - i,
    {
        let four = bytes_of_word(words[i]);
        bytes.push(four[0]);
        bytes.push(four[1]);
        bytes.push(four[2]);
        bytes.push(four[3]);
        i += 1;
    }
    assert(bytes@ =~= encode_words(words@));
    bytes
}

/// Reads the bytes as words of four bytes each, lowest byte first; `None`
/// where the bytes do not make a whole number of words.
pub fn bytes_to_words(bytes: &Vec<u8>) -> (words: Option<Vec<u32>>)
    ensures
        words is Some <==> bytes@.len() % 4 == 0,
        words matches Some(w) ==> w@ == decode_words(bytes@),
{
    if bytes.len() % 4 != 0 {
        return None;
    }
    let count = bytes.len() / 4;
    let mut words: Vec<u32> = Vec::new();
    let mut i: usize = 0;
    while i < count
        invariant
            i <= count,
            4 * count == bytes@.len(),
            bytes@.len() <= usize::MAX,
            words@.len() == i,
            forall|j: int|
                0 <= j < i ==> words@[j] == word_of(
                    bytes@[4 * j],
                    bytes@[4 * j + 1],
                    bytes@[4 * j + 2],
                    bytes@[4 * j + 3],
                ),
        decreases count - i,
    {
        let at = 4 * i;
        words.push(word_from_bytes(bytes[at], bytes[at + 1], bytes[at + 2], bytes[at + 3]));
        i += 1;
    }
    assert(words@ =~= decode_words(bytes@));
    Some(words)
}

/// Describes the storage buffer for an input and the bytes that the queue
/// writes into it: the buffer is exactly as large as the input, four bytes
/// for each element, and may be bound as storage and copied from and to.
/// The write is ordered before any later submission to the same queue.
pub fn upload(input: &Vec<u32>) -> (plan: (GpuBuffer, Vec<u8>))
    ensures
        plan.0.size_spec() == 4 * input@.len(),
        plan.0.usage_spec() == storage_usage(),
        plan.1@ == encode_words(input@),
{
    let bytes = words_to_bytes(input);
    let buffer = GpuBuffer {
        size: bytes.len() as u64,
        usage: BufferUsage { storage: true, copy_src: true, copy_dst: true, map_read: false },
    };
    (buffer, bytes)
}

/// Describes a buffer of exactly `size_bytes` that the device copies into
/// and the host maps for reading. The host never writes it.
pub fn allocate_readback(size_bytes: u64) -> (buffer: GpuBuffer)
    ensures
        buffer.size_spec() == size_bytes,
        buffer.usage_spec() == readback_usage(),
{
    GpuBuffer {
        size: size_bytes,
        usage: BufferUsage { storage: false, copy_src: false, copy_dst: true, map_read: true },
    }
}

/// Binds a buffer to the storage slot of the kernel's layout; `None` where
/// the buffer is no storage buffer or smaller than the slot asks for.
pub fn bind_storage(slot: &BindingLayoutEntry, buffer: &GpuBuffer) -> (group: Option<BindGroup>)
    ensures
        group is Some <==> buffer.usage_spec().storage && slot.accepts_spec(buffer.size_spec()),
        group matches Some(g) ==> g == (BindGroup {
            binding: slot.binding,
            buffer_size: buffer.size_spec(),
        }),
{
    if buffer.usage.storage && slot.accepts(buffer.size) {
        Some(BindGroup { binding: slot.binding, buffer_size: buffer.size })
    } else {
        None
    }
}

/// The number of workgroups for an input: its length, one workgroup for
/// each element; `None` for an empty input and for one that a single
/// dispatch cannot cover.
pub fn workgroup_count(input: &Vec<u32>) -> (count: Option<u32>)
    ensures
        count == workgroups_for(input@.len()),
{
    let len = input.len();
    if 0 < len && len <= MAX_WORKGROUPS as usize {
        Some(len as u32)
    } else {
        None
    }
}

/// Tests whether a dispatch fits the kernel and its data; see
/// [`dispatchable`].
pub fn can_dispatch(
    pipeline: &ComputePipelineDescriptor,
    bind_group: &BindGroup,
    workgroup_count: u32,
) -> (fits: bool)
    ensures
        fits == dispatchable(*pipeline, *bind_group, workgroup_count),
{
    if pipeline.layout.len() != 1 {
        return false;
    }
    let slot = pipeline.layout[0];
    let is_storage_slot = slot.binding == 0 && slot.visibility == ShaderStage::Compute && match slot.kind {
        BindingKind::StorageBuffer { read_only } => !read_only,
        BindingKind::UniformBuffer => false,
    } && !slot.has_dynamic_offset && slot.min_binding_size.is_none();
    proof {
        if is_storage_slot {
            assert(slot == storage_slot());
            assert(pipeline.layout@ =~= seq![storage_slot()]);
        } else {
            assert(pipeline.layout@[0] != storage_slot());
        }
    }
    let size = pipeline.workgroup_size;
    is_storage_slot && size.x == 1 && size.y == 1 && size.z == 1 && bind_group.binding == 0
        && workgroup_count <= MAX_WORKGROUPS && bind_group.buffer_size >= 4 * (
    workgroup_count as u64)
}

/// Records the compute pass of a job: the pipeline, the bind group at
/// index 0, and `workgroup_count` workgroups along X, one along Y and Z.
///
/// The dispatch has to fit the kernel and its data: one invocation for each
/// workgroup, and an element of the bound buffer for each of them.
pub fn dispatch_compute(
    pipeline: &ComputePipelineDescriptor,
    bind_group: &BindGroup,
    workgroup_count: u32,
) -> (buffer: CommandBuffer)
    requires
        dispatchable(*pipeline, *bind_group, workgroup_count),
    ensures
        buffer@ == seq![compute_pass(workgroup_count)],
{
    let mut encoder = CommandEncoder::new();
    encoder.record(
        Command::ComputePass {
            bind_group_index: 0,
            workgroups_x: workgroup_count,
            workgroups_y: 1,
            workgroups_z: 1,
        },
    );
    let buffer = encoder.finish();
    assert(buffer@ =~= seq![compute_pass(workgroup_count)]);
    buffer
}

/// Records the copy of the whole storage buffer `src` into the readback
/// buffer `dst`.
///
/// The two sizes have to be equal: otherwise nothing is recorded and the
/// result is `SizeMismatch`. Nothing is cut off and nothing is filled in.
pub fn copy_to_readback(encoder: &mut CommandEncoder, src: &GpuBuffer, dst: &GpuBuffer) -> (copied:
    Result<(), GpuError>)
    requires
        src.usage_spec() == storage_usage(),
        dst.usage_spec() == readback_usage(),
    ensures
        copied == copy_outcome(src.size_spec(), dst.size_spec()),
        final(encoder)@ == after_copy(old(encoder)@, src.size_spec(), dst.size_spec()),
{
    if src.size == dst.size {
        encoder.record(Command::CopyBuffer { size: src.size });
        Ok(())
    } else {
        Err(GpuError::SizeMismatch)
    }
}

/// Turns what the mapping of a readback buffer gave into the words of the
/// result. `mapped` holds the bytes of the mapped range once the device has
/// finished all pending work and the mapping has completed, and nothing
/// where the mapping reported an error.
///
/// Fails with `MapFailed` where the mapping failed or the buffer cannot be
/// mapped for reading, and with `SizeMismatch` where the range is not the
/// whole buffer or not a whole number of words.
pub fn read_back(buffer: &GpuBuffer, mapped: Option<&Vec<u8>>) -> (words: Result<Vec<u32>, GpuError>)
    ensures
        match read_back_result(
            buffer.size_spec(),
            buffer.usage_spec(),
            match mapped {
                Some(b) => Some(b@),
                None => None,
            },
        ) {
            Ok(expected) => words matches Ok(w) && w@ == expected,
            Err(e) => words == Err::<Vec<u32>, GpuError>(e),
        },
{
    match mapped {
        Some(bytes) => {
            if !buffer.usage.map_read {
                Err(GpuError::MapFailed)
            } else if bytes.len() as u64 != buffer.size {
                Err(GpuError::SizeMismatch)
            } else {
                match bytes_to_words(bytes) {
                    Some(words) => Ok(words),
                    None => Err(GpuError::SizeMismatch),
                }
            }
        },
        None => Err(GpuError::MapFailed),
    }
}

/// Where the mapping of a readback buffer stands.
#[derive(Clone, Copy, Debug, PartialEq, Eq, Structural)]
pub enum MapState {
    /// The buffer is not mapped.
    Unmapped,
    /// The mapping has been asked for and the device is being waited for.
    Pending,
    /// The mapping has completed; the range may be read.
    Mapped,
}

/// What the caller reports while a buffer is read back.
#[derive(Clone, Copy, Debug, PartialEq, Eq, Structural)]
pub enum MapEvent {
    /// A result is wanted.
    Begin,
    /// The device is idle and the mapping has reported success.
    Completed,
    /// The device is idle and the mapping has reported an error.
    Errored,
    /// The mapped range has been copied into host memory.
    RangeCopied,
}

/// What the caller does next while a buffer is read back.
#[derive(Clone, Copy, Debug, PartialEq, Eq, Structural)]
pub enum MapAction {
    /// Ask for the mapping, then block until the device has finished all
    /// pending work and the mapping has reported.
    MapAndWait,
    /// Copy the mapped range into host memory.
    CopyRange,
    /// Unmap the buffer; the copy goes to [`read_back`].
    Unmap,
    /// Give up this read with the error.
    Abort(GpuError),
    /// The report does not belong here; nothing changes.
    Ignore,
}

/// The state of a mapping after a report, and what the caller does next.
pub open spec fn map_step(state: MapState, event: MapEvent) -> (MapState, MapAction) {
    match (state, event) {
        (MapState::Unmapped, MapEvent::Begin) => (MapState::Pending, MapAction::MapAndWait),
        (MapState::Pending, MapEvent::Completed) => (MapState::Mapped, MapAction::CopyRange),
        (MapState::Pending, MapEvent::Errored) => (
            MapState::Unmapped,
            MapAction::Abort(GpuError::MapFailed),
        ),
        (MapState::Mapped, MapEvent::RangeCopied) => (MapState::Unmapped, MapAction::Unmap),
        _ => (state, MapAction::Ignore),
    }
}

/// Takes a report on the mapping and says what to do next; see
/// [`map_step`].
pub fn advance_mapping(state: MapState, event: MapEvent) -> (next: (MapState, MapAction))
    ensures
        next == map_step(state, event),
{
    match (state, event) {
        (MapState::Unmapped, MapEvent::Begin) => (MapState::Pending, MapAction::MapAndWait),
        (MapState::Pending, MapEvent::Completed) => (MapState::Mapped, MapAction::CopyRange),
        (MapState::Pending, MapEvent::Errored) => (
            MapState::Unmapped,
            MapAction::Abort(GpuError::MapFailed),
        ),
        (MapState::Mapped, MapEvent::RangeCopied) => (MapState::Unmapped, MapAction::Unmap),
        (state, _) => (state, MapAction::Ignore),
    }
}

/// The mapped memory is read only after the wait: the caller is asked to
/// copy the range only in answer to the report that the mapping has
/// completed, a buffer becomes mapped in no other way, and a mapping that
/// reports an error gives `MapFailed` and leaves the buffer unmapped.
pub proof fn read_follows_wait(state: MapState, event: MapEvent)
    ensures
        map_step(state, event).1 is CopyRange <==> state is Pending && event is Completed,
        map_step(state, event).0 is Mapped && !(state is Mapped) ==> state is Pending
            && event is Completed,
        map_step(state, event).0 is Pending && !(state is Pending) ==> state is Unmapped
            && event is Begin,
        state is Pending && event is Errored ==> map_step(state, event) == (
            MapState::Unmapped,
            MapAction::Abort(GpuError::MapFailed),
        ),
        map_step(state, event).1 is Abort ==> state is Pending && event is Errored,
{
}

/// Four bytes made from a word give the word back.
pub proof fn word_round_trip(word: u32)
    ensures
        word_bytes(word).len() == 4,
        word_of(word_bytes(word)[0], word_bytes(word)[1], word_bytes(word)[2], word_bytes(word)[3])
            == word,
{
}

/// Words that are laid out as bytes and read again are the same words, as
/// many as before.
pub proof fn encode_decode_round_trip(words: Seq<u32>)
    ensures
        encode_words(words).len() == 4 * words.len(),
        decode_words(encode_words(words)) == words,
{
    let bytes = encode_words(words);
    assert forall|i: int| 0 <= i < words.len() implies decode_words(bytes)[i] == words[i] by {
        word_round_trip(words[i]);
        assert(bytes[4 * i] == word_bytes(words[i])[0]);
        assert(bytes[4 * i + 1] == word_bytes(words[i])[1]);
        assert(bytes[4 * i + 2] == word_bytes(words[i])[2]);
        assert(bytes[4 * i + 3] == word_bytes(words[i])[3]);
    }
    assert(decode_words(bytes) =~= words);
}

/// A copy is accepted if and only if both buffers have the same size. Between
/// buffers of different sizes it always fails with `SizeMismatch`, and the
/// encoder then holds what it held before: nothing is cut off, nothing is
/// filled in. An accepted copy adds exactly one command, over the whole
/// size.
pub proof fn copy_needs_equal_sizes(recorded: Seq<Command>, src_size: u64, dst_size: u64)
    ensures
        copy_outcome(src_size, dst_size) is Ok <==> src_size == dst_size,
        src_size != dst_size ==> copy_outcome(src_size, dst_size) == Err::<(), GpuError>(
            GpuError::SizeMismatch,
        ) && after_copy(recorded, src_size, dst_size) == recorded,
        src_size == dst_size ==> after_copy(recorded, src_size, dst_size).len() == recorded.len()
            + 1 && after_copy(recorded, src_size, dst_size).last() == (Command::CopyBuffer {
            size: src_size,
        }) && after_copy(recorded, src_size, dst_size).drop_last() == recorded,
{
    if src_size == dst_size {
        assert(after_copy(recorded, src_size, dst_size).drop_last() =~= recorded);
    }
}

/// The round trip of a compute job over an input of `n` elements, `n` at
/// least one and no more than one dispatch covers, with a kernel that maps
/// each element by `transform`.
///
/// The job is dispatched with `n` workgroups; the storage buffer of the
/// upload and a readback buffer of the same `4 * n` bytes are accepted by
/// the copy; and if the device leaves in the readback buffer the bytes of
/// the transformed input, then reading it back gives `n` words, the `i`-th
/// of which is `transform` of the `i`-th input word. A kernel that changes
/// nothing gives the input back, bit for bit.
pub proof fn compute_round_trip(input: Seq<u32>, transform: spec_fn(u32) -> u32)
    requires
        0 < input.len() <= MAX_WORKGROUPS,
    ensures
        workgroups_for(input.len()) == Some(input.len() as u32),
        copy_outcome((4 * input.len()) as u64, (4 * input.len()) as u64) is Ok,
        read_back_result(
            (4 * input.len()) as u64,
            readback_usage(),
            Some(encode_words(input.map_values(transform))),
        ) == Ok::<Seq<u32>, GpuError>(input.map_values(transform)),
        input.map_values(transform).len() == input.len(),
        forall|i: int|
            0 <= i < input.len() ==> (#[trigger] input.map_values(transform)[i]) == transform(
                input[i],
            ),
        read_back_result((4 * input.len()) as u64, readback_usage(), Some(encode_words(input)))
            == Ok::<Seq<u32>, GpuError>(input),
{
    encode_decode_round_trip(input.map_values(transform));
    encode_decode_round_trip(input);
}

} // verus!
