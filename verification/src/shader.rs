//! Shader modules, as far as the core looks into them: the entry points
//! that a compiled module exposes.
//!
//! Compiling and validating a shader is the device's work. The core takes
//! what came of it: the list of entry points, or nothing where the shader
//! was rejected.

use vstd::prelude::*;

verus! {

/// The stage of the pipeline that an entry point runs in.
#[derive(Clone, Copy, Debug, PartialEq, Eq, Structural)]
pub enum ShaderStage {
    Vertex,
    Fragment,
    Compute,
}

/// The local size that a compute entry point declares.
#[derive(Clone, Copy, Debug, PartialEq, Eq, Structural)]
pub struct WorkgroupSize {
    pub x: u32,
    pub y: u32,
    pub z: u32,
}

/// One entry point of a shader module.
#[derive(Clone, Debug)]
pub struct EntryPoint {
    pub name: String,
    pub stage: ShaderStage,
    /// The declared local size; of no meaning outside the compute stage.
    pub workgroup_size: WorkgroupSize,
}

/// An entry point as a mathematical value.
pub struct EntryPointView {
    pub name: Seq<char>,
    pub stage: ShaderStage,
    pub workgroup_size: WorkgroupSize,
}

impl View for EntryPoint {
    type V = EntryPointView;

    open spec fn view(&self) -> EntryPointView {
        EntryPointView { name: self.name@, stage: self.stage, workgroup_size: self.workgroup_size }
    }
}

/// The local size of one invocation for each workgroup.
pub open spec fn unit_workgroup() -> WorkgroupSize {
    WorkgroupSize { x: 1, y: 1, z: 1 }
}

/// The entry points of a list, in its order.
pub open spec fn entry_views(entries: Seq<EntryPoint>) -> Seq<EntryPointView> {
    entries.map_values(|e: EntryPoint| e@)
}

/// The entry points of a compiled module, or nothing where the shader was
/// rejected.
pub open spec fn compiled_views(compiled: Option<Vec<EntryPoint>>) -> Option<Seq<EntryPointView>> {
    match compiled {
        Some(entries) => Some(entry_views(entries@)),
        None => None,
    }
}

/// Whether the list holds an entry point of this name and stage.
pub open spec fn exposes(entries: Seq<EntryPointView>, name: Seq<char>, stage: ShaderStage) -> bool {
    exists|i: int|
        0 <= i < entries.len() && (#[trigger] entries[i]).name == name && entries[i].stage == stage
}

/// Whether the entry at `index` is the only one of the list that runs in
/// `stage`.
pub open spec fn sole_of_stage(entries: Seq<EntryPointView>, stage: ShaderStage, index: int) -> bool {
    &&& 0 <= index < entries.len()
    &&& entries[index].stage == stage
    &&& forall|j: int| 0 <= j < entries.len() && (#[trigger] entries[j]).stage == stage ==> j == index
}

/// The position of the only entry point that runs in `stage`, or nothing
/// where the list holds none or several.
pub open spec fn sole_entry(entries: Seq<EntryPointView>, stage: ShaderStage) -> Option<int> {
    if exists|i: int| sole_of_stage(entries, stage, i) {
        Some(choose|i: int| sole_of_stage(entries, stage, i))
    } else {
        None
    }
}

/// Looks for an entry point by name and stage.
pub fn has_entry(entries: &Vec<EntryPoint>, name: &str, stage: ShaderStage) -> (found: bool)
    ensures
        found == exposes(entry_views(entries@), name@, stage),
{
    let wanted = name.to_owned();
    let mut i: usize = 0;
    while i < entries.len()
        invariant
            i <= entries.len(),
            wanted@ == name@,
            forall|j: int|
                0 <= j < i ==> !((#[trigger] entry_views(entries@)[j]).name == name@
                    && entry_views(entries@)[j].stage == stage),
        decreases entries.len() - i,
    {
        if entries[i].stage == stage && entries[i].name == wanted {
            assert(entry_views(entries@)[i as int].name == name@);
            assert(entry_views(entries@)[i as int].stage == stage);
            return true;
        }
        i += 1;
    }
    false
}

/// Finds the only entry point that runs in `stage` and returns its
/// position; `None` where there is none or more than one.
pub fn find_sole_entry(entries: &Vec<EntryPoint>, stage: ShaderStage) -> (position: Option<usize>)
    ensures
        match position {
            Some(k) => sole_entry(entry_views(entries@), stage) == Some(k as int) && k
                < entries@.len(),
            None => sole_entry(entry_views(entries@), stage) is None,
        },
{
    let ghost views = entry_views(entries@);
    let mut first: Option<usize> = None;
    let mut i: usize = 0;
    while i < entries.len()
        invariant
            i <= entries.len(),
            views == entry_views(entries@),
            match first {
                Some(k) => k < i && views[k as int].stage == stage && forall|j: int|
                    0 <= j < i && (#[trigger] views[j]).stage == stage ==> j == k,
                None => forall|j: int| 0 <= j < i ==> (#[trigger] views[j]).stage != stage,
            },
        decreases entries.len() - i,
    {
        if entries[i].stage == stage {
            assert(views[i as int].stage == stage);
            match first {
                Some(k) => {
                    assert forall|c: int| !sole_of_stage(views, stage, c) by {
                        if sole_of_stage(views, stage, c) {
                            assert(views[k as int].stage == stage);
                            assert(views[i as int].stage == stage);
                        }
                    }
                    return None;
                },
                None => {
                    first = Some(i);
                },
            }
        }
        i += 1;
    }
    match first {
        Some(k) => {
            assert(sole_of_stage(views, stage, k as int));
            let ghost chosen = choose|c: int| sole_of_stage(views, stage, c);
            assert(chosen == k);
            Some(k)
        },
        None => {
            assert forall|c: int| !sole_of_stage(views, stage, c) by {
                if sole_of_stage(views, stage, c) {
                    assert(views[c].stage == stage);
                }
            }
            None
        },
    }
}

} // verus!
