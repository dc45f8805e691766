use vstd::prelude::*;

verus! {

/// How the linker is driven.
#[derive(Clone, Copy, Debug, PartialEq, Eq, Structural, Hash)]
pub enum LinkerFlavor {
    /// GNU-style, invoked directly rather than through a C compiler, as LLD.
    GnuLldNoCc,
}

/// What a panic does.
#[derive(Clone, Copy, Debug, PartialEq, Eq, Structural, Hash)]
pub enum PanicStrategy {
    Unwind,
    Abort,
}

/// How the stack is probed for overflow.
#[derive(Clone, Copy, Debug, PartialEq, Eq, Structural, Hash)]
pub enum StackProbeType {
    NoProbes,
    Inline,
}

/// Read-only relocation hardening.
#[derive(Clone, Copy, Debug, PartialEq, Eq, Structural, Hash)]
pub enum RelroLevel {
    Full,
    Partial,
    Off,
}

/// The build target of the console: what the compiler and linker need to
/// know about it.
#[derive(Clone, Debug, PartialEq, Eq)]
pub struct TargetSpec {
    pub llvm_target: &'static str,
    pub description: &'static str,
    pub tier: u64,
    pub host_tools: bool,
    pub std: bool,
    pub pointer_width: u16,
    pub data_layout: &'static str,
    pub arch: &'static str,
    pub os: &'static str,
    pub features: &'static str,
    pub linker_flavor: LinkerFlavor,
    pub linker: &'static str,
    pub max_atomic_width: u64,
    pub stack_probes: StackProbeType,
    pub panic_strategy: PanicStrategy,
    pub position_independent_executables: bool,
    pub dynamic_linking: bool,
    pub relro_level: RelroLevel,
}

/// The 64-bit ARM console target, linked by LLD into position-independent,
/// dynamically linked plugins that abort on panic.
pub fn target() -> (r: TargetSpec)
    ensures
        r.llvm_target@ == "aarch64-unknown-none"@,
        r.arch@ == "aarch64"@,
        r.os@ == "horizon-skyline"@,
        r.pointer_width == 64,
        r.max_atomic_width == 128,
        r.linker_flavor == LinkerFlavor::GnuLldNoCc,
        r.linker@ == "rust-lld"@,
        r.stack_probes == StackProbeType::Inline,
        r.panic_strategy == PanicStrategy::Abort,
        r.position_independent_executables,
        r.dynamic_linking,
        r.relro_level == RelroLevel::Off,
        r.tier == 1,
        !r.host_tools,
        r.std,
{
    TargetSpec {
        llvm_target: "aarch64-unknown-none",
        description: "ARM64 Nintendo Switch, Horizon",
        tier: 1,
        host_tools: false,
        std: true,
        pointer_width: 64,
        data_layout: "e-m:e-p270:32:32-p271:32:32-p272:64:64-i8:8:32-i16:16:32-i64:64-i128:128-n32:64-S128-Fn32",
        arch: "aarch64",
        os: "horizon-skyline",
        features: "+v8a,+neon,+crypto,+crc",
        linker_flavor: LinkerFlavor::GnuLldNoCc,
        linker: "rust-lld",
        max_atomic_width: 128,
        stack_probes: StackProbeType::Inline,
        panic_strategy: PanicStrategy::Abort,
        position_independent_executables: true,
        dynamic_linking: true,
        relro_level: RelroLevel::Off,
    }
}

} // verus!
