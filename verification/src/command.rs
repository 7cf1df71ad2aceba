//! Recorded GPU work: what an encoder holds before it is finished and
//! submitted.

use vstd::prelude::*;

verus! {

/// A colour with eight bits for each channel.
#[derive(Clone, Copy, Debug, PartialEq, Eq, Structural)]
pub struct ClearColor {
    pub red: u8,
    pub green: u8,
    pub blue: u8,
    pub alpha: u8,
}

/// One recorded piece of work.
#[derive(Clone, Copy, Debug, PartialEq, Eq, Structural)]
pub enum Command {
    /// A render pass that clears its colour target, binds the render
    /// pipeline and issues one draw call.
    RenderPass {
        clear: ClearColor,
        first_vertex: u32,
        vertex_count: u32,
        first_instance: u32,
        instance_count: u32,
    },
    /// A compute pass that binds the compute pipeline, binds one bind group
    /// and dispatches once.
    ComputePass { bind_group_index: u32, workgroups_x: u32, workgroups_y: u32, workgroups_z: u32 },
    /// A copy of a whole buffer into another, both from offset zero.
    CopyBuffer { size: u64 },
}

/// An encoder that records commands in order.
#[derive(Clone, Debug)]
pub struct CommandEncoder {
    commands: Vec<Command>,
}

/// A finished recording, ready for the queue.
#[derive(Clone, Debug)]
pub struct CommandBuffer {
    commands: Vec<Command>,
}

impl View for CommandEncoder {
    type V = Seq<Command>;

    closed spec fn view(&self) -> Seq<Command> {
        self.commands@
    }
}

impl View for CommandBuffer {
    type V = Seq<Command>;

    closed spec fn view(&self) -> Seq<Command> {
        self.commands@
    }
}

impl CommandEncoder {
    /// An encoder with nothing recorded.
    pub fn new() -> (encoder: CommandEncoder)
        ensures
            encoder@ == Seq::<Command>::empty(),
    {
        CommandEncoder { commands: Vec::new() }
    }

    /// Records one more command after those already held.
    pub fn record(&mut self, command: Command)
        ensures
            final(self)@ == old(self)@.push(command),
    {
        self.commands.push(command);
    }

    /// Ends the recording; the buffer holds the commands in the order in
    /// which they were recorded.
    pub fn finish(self) -> (buffer: CommandBuffer)
        ensures
            buffer@ == self@,
    {
        CommandBuffer { commands: self.commands }
    }
}

impl CommandBuffer {
    /// Number of recorded commands.
    pub fn len(&self) -> (n: usize)
        ensures
            n == self@.len(),
    {
        self.commands.len()
    }

    /// The command at a position, if there is one.
    pub fn get(&self, index: usize) -> (command: Option<Command>)
        ensures
            command == if index < self@.len() {
                Some(self@[index as int])
            } else {
                None
            },
    {
        if index < self.commands.len() {
            Some(self.commands[index])
        } else {
            None
        }
    }
}

} // verus!
