//! Memory layout of the guest machine.
//!
//! From a program handle and three size parameters the configurator produces
//! a platform descriptor: disjoint stack, heap and public-I/O regions that
//! all lie inside the program's address space. The layout is a deterministic
//! function of its inputs, so two runs over the same program and sizes yield
//! identical descriptors.

use vstd::prelude::*;

verus! {

/// An executable program handle: entry address and the highest address the
/// program may touch. The instruction image itself stays with the loader.
#[derive(Clone, Copy, Debug, PartialEq, Eq, Structural)]
pub struct Program {
    /// Address execution starts at.
    pub entry: u32,
    /// Highest valid address of the program's address space (inclusive).
    pub addr_max: u32,
}

/// Raised when a program handle cannot be built from its parameters.
#[derive(Clone, Copy, Debug, PartialEq, Eq, Structural)]
pub enum LoadError {
    /// The entry address lies outside the declared address space.
    EntryOutOfRange,
}

impl Program {
    /// Build a program handle, rejecting an entry address that lies outside
    /// the declared address space.
    pub fn new(entry: u32, addr_max: u32) -> (r: Result<Program, LoadError>)
        ensures
            r is Ok <==> entry <= addr_max,
            r matches Ok(p) ==> p == (Program { entry, addr_max }),
            r is Err ==> r == Result::<Program, LoadError>::Err(LoadError::EntryOutOfRange),
    {
        if entry <= addr_max {
            Ok(Program { entry, addr_max })
        } else {
            Err(LoadError::EntryOutOfRange)
        }
    }
}

/// A named layout policy. Each preset fixes where the regions are placed,
/// so that the layout is reproducible run to run.
#[derive(Clone, Copy, Debug, PartialEq, Eq, Structural)]
pub enum Preset {
    /// The default layout: regions packed back to back above a fixed base.
    Ceno,
}

/// The lowest address the default preset hands out to the three regions.
pub const PRESET_REGION_BASE: u32 = 0x0002_0000;

/// Stack bytes of the reference configuration.
pub const DEFAULT_STACK_SIZE: u32 = 128 * 1024 * 1024;

/// Heap bytes of the reference configuration.
pub const DEFAULT_HEAP_SIZE: u32 = 128 * 1024 * 1024;

/// Public-I/O region bytes of the reference configuration: room for a
/// 32-word statement with its framing, well above what the guest commits.
pub const DEFAULT_PUB_IO_SIZE: u32 = 512;

/// The address regions start at under `preset`.
pub open spec fn preset_base(preset: Preset) -> nat {
    PRESET_REGION_BASE as nat
}

/// A contiguous address range `[start, start + size)`.
#[derive(Clone, Copy, Debug, PartialEq, Eq, Structural)]
pub struct Region {
    /// First address of the region.
    pub start: u64,
    /// Number of bytes in the region.
    pub size: u64,
}

impl Region {
    /// First address past the region.
    pub open spec fn end(&self) -> nat {
        (self.start + self.size) as nat
    }

    /// Two regions share no address.
    pub open spec fn disjoint(&self, other: &Region) -> bool {
        self.end() <= other.start || other.end() <= self.start
    }

    /// The whole region lies inside an address space whose highest valid
    /// address is `addr_max`.
    pub open spec fn within(&self, addr_max: u32) -> bool {
        self.end() <= addr_max + 1
    }
}

/// Raised when no layout with disjoint in-bounds regions exists for the
/// requested sizes.
#[derive(Clone, Copy, Debug, PartialEq, Eq, Structural)]
pub enum ConfigError {
    /// One of the requested region sizes is zero.
    EmptyRegion,
    /// The regions would not fit inside the program's address space.
    AddressSpaceExceeded,
}

/// The memory layout a guest executes under: disjoint stack, heap and
/// public-I/O regions, plus the entry address of the program they serve.
#[derive(Clone, Copy, Debug, PartialEq, Eq, Structural)]
pub struct Platform {
    /// The layout policy this descriptor was built with.
    pub preset: Preset,
    /// Region holding the guest's call stack.
    pub stack: Region,
    /// Region holding the guest's heap.
    pub heap: Region,
    /// Region holding the committed public I/O bytes.
    pub pub_io: Region,
    /// Address execution starts at, copied from the program handle.
    pub entry: u32,
}

impl Platform {
    /// The three regions are pairwise disjoint and lie inside the program's
    /// address space, and the entry address is the program's.
    pub open spec fn wf(&self, program: Program) -> bool {
        &&& self.stack.disjoint(&self.heap)
        &&& self.stack.disjoint(&self.pub_io)
        &&& self.heap.disjoint(&self.pub_io)
        &&& self.stack.within(program.addr_max)
        &&& self.heap.within(program.addr_max)
        &&& self.pub_io.within(program.addr_max)
        &&& self.entry == program.entry
    }
}

/// Whether a layout with the requested sizes exists: every region is
/// non-empty and the three of them, packed back to back above the preset
/// base, stay inside the program's address space.
pub open spec fn layout_fits(
    preset: Preset,
    program: Program,
    stack_size: u32,
    heap_size: u32,
    pub_io_size: u32,
) -> bool {
    &&& stack_size > 0
    &&& heap_size > 0
    &&& pub_io_size > 0
    &&& preset_base(preset) + stack_size + heap_size + pub_io_size <= program.addr_max + 1
}

/// The platform the configurator yields on valid sizes: stack, heap and
/// public-I/O regions packed in that order above the preset base.
pub open spec fn platform_layout(
    preset: Preset,
    program: Program,
    stack_size: u32,
    heap_size: u32,
    pub_io_size: u32,
) -> Platform {
    let base = preset_base(preset);
    Platform {
        preset,
        stack: Region { start: base as u64, size: stack_size as u64 },
        heap: Region { start: (base + stack_size) as u64, size: heap_size as u64 },
        pub_io: Region {
            start: (base + stack_size + heap_size) as u64,
            size: pub_io_size as u64,
        },
        entry: program.entry,
    }
}

/// Lay out the guest's memory: disjoint stack, heap and public-I/O regions
/// of the requested sizes inside the program's address space. Rejects, with
/// the reason, any request for which no such layout exists; it never clips
/// a region silently.
pub fn configure(
    preset: Preset,
    program: &Program,
    stack_size: u32,
    heap_size: u32,
    pub_io_size: u32,
) -> (r: Result<Platform, ConfigError>)
    ensures
        r is Ok <==> layout_fits(preset, *program, stack_size, heap_size, pub_io_size),
        r matches Ok(p) ==> p == platform_layout(preset, *program, stack_size, heap_size,
            pub_io_size,
        ) && p.wf(*program),
        r == Result::<Platform, ConfigError>::Err(ConfigError::EmptyRegion) <==> (stack_size == 0
            || heap_size == 0 || pub_io_size == 0),
        r == Result::<Platform, ConfigError>::Err(ConfigError::AddressSpaceExceeded) <==> (
        stack_size > 0 && heap_size > 0 && pub_io_size > 0 && preset_base(preset) + stack_size
            + heap_size + pub_io_size > program.addr_max + 1),
{
    if stack_size == 0 || heap_size == 0 || pub_io_size == 0 {
        return Err(ConfigError::EmptyRegion);
    }
    let base: u64 = PRESET_REGION_BASE as u64;
    let stack_start: u64 = base;
    let heap_start: u64 = base + stack_size as u64;
    let pub_io_start: u64 = heap_start + heap_size as u64;
    let layout_end: u64 = pub_io_start + pub_io_size as u64;
    if layout_end > program.addr_max as u64 + 1 {
        return Err(ConfigError::AddressSpaceExceeded);
    }
    Ok(
        Platform {
            preset,
            stack: Region { start: stack_start, size: stack_size as u64 },
            heap: Region { start: heap_start, size: heap_size as u64 },
            pub_io: Region { start: pub_io_start, size: pub_io_size as u64 },
            entry: program.entry,
        },
    )
}

/// Determinism of the layout: any two platform descriptors that the
/// configurator's contract admits for the same preset, program and sizes
/// are equal in every field.
pub proof fn lemma_configure_deterministic(
    p1: Platform,
    p2: Platform,
    preset: Preset,
    program: Program,
    stack_size: u32,
    heap_size: u32,
    pub_io_size: u32,
)
    requires
        p1 == platform_layout(preset, program, stack_size, heap_size, pub_io_size),
        p2 == platform_layout(preset, program, stack_size, heap_size, pub_io_size),
    ensures
        p1 == p2,
{
}

} // verus!
