use vstd::prelude::*;

use crate::text::{decimal_digits, indexed_text};

verus! {

/// A named source of witness values that the prover supplies from outside
/// the circuit (initial and final machine state, memory accesses, decoded
/// instruction fields and so on).
#[derive(Debug, Clone, Copy, Eq, Hash, PartialEq, PartialOrd, Ord, Structural)]
pub enum Placeholder {
    XregsInit,
    XregsFin,
    XregInit(usize),
    XregFin(usize),
    Instruction,
    MemSlot,
    PcInit,
    PcFin,
    StatusInit,
    StatusFin,
    IeInit,
    IeFin,
    IpInit,
    IpFin,
    TvecInit,
    TvecFin,
    ScratchInit,
    ScratchFin,
    EpcInit,
    EpcFin,
    CauseInit,
    CauseFin,
    TvalInit,
    TvalFin,
    ModeInit,
    ModeFin,
    MemorySaptInit,
    MemorySaptFin,
    ContinueExecutionInit,
    ContinueExecutionFin,
    ExternalOracle,
    Trapped,
    InvalidEncoding,
    FirstRegMem,
    SecondRegMem,
    WriteRegMemReadWitness,
    WriteRegMemWriteValue,
    MemoryLoadOp,
    WriteRdReadSetWitness,
    ShuffleRamLazyInitAddressThis,
    ShuffleRamLazyInitAddressNext,
    ShuffleRamAddress(usize),
    ShuffleRamReadTimestamp(usize),
    ShuffleRamReadValue(usize),
    ShuffleRamIsRegisterAccess(usize),
    ShuffleRamWriteValue(usize),
    ExecuteDelegation,
    DelegationType,
    DelegationABIOffset,
    DelegationWriteTimestamp,
    DelegationMemoryReadValue(usize),
    DelegationMemoryReadTimestamp(usize),
    DelegationMemoryWriteValue(usize),
    DelegationRegisterReadValue(usize),
    DelegationRegisterReadTimestamp(usize),
    DelegationRegisterWriteValue(usize),
    DelegationIndirectReadValue { register_index: usize, word_index: usize },
    DelegationIndirectReadTimestamp { register_index: usize, word_index: usize },
    DelegationIndirectWriteValue { register_index: usize, word_index: usize },
    DelegationNondeterminismAccess(usize),
    DelegationNondeterminismAccessNoSplits(usize),
    ExecuteOpcodeFamilyCycle,
    OpcodeFamilyCycleInitialTimestamp,
    OpcodeFamilyCycleFinalTimestamp,
    RS1Index,
    RS2Index,
    MemLoadAddress,
    RDIndex,
    RDIsZero,
    DecodedImm,
    DecodedFunct3,
    DecodedFunct7,
    DecodedExecutorFamilyMask,
    LoadStoreRamValue,
    MemStoreAddress,
    DelegationIndirectAccessVariableOffset { variable_index: usize },
    ExecutorFamilyMaskBit { bit: usize },
}

impl Placeholder {
    /// Placeholders of machine state at the start of a cycle, and inputs
    /// read at its start.
    pub open spec fn spec_is_initial(self) -> bool {
        ||| self is XregInit
        ||| self is Instruction
        ||| self is MemSlot
        ||| self is PcInit
        ||| self is StatusInit
        ||| self is IeInit
        ||| self is IpInit
        ||| self is TvecInit
        ||| self is ScratchInit
        ||| self is EpcInit
        ||| self is CauseInit
        ||| self is TvalInit
        ||| self is ModeInit
        ||| self is MemorySaptInit
        ||| self is ContinueExecutionInit
        ||| self is ExternalOracle
        ||| self is FirstRegMem
        ||| self is SecondRegMem
    }

    /// Placeholders of machine state at the end of a cycle.
    pub open spec fn spec_is_final(self) -> bool {
        ||| self is XregFin
        ||| self is PcFin
        ||| self is ContinueExecutionFin
        ||| self is StatusFin
        ||| self is IeFin
        ||| self is IpFin
        ||| self is TvecFin
        ||| self is ScratchFin
        ||| self is EpcFin
        ||| self is CauseFin
        ||| self is TvalFin
        ||| self is ModeFin
        ||| self is MemorySaptFin
    }

    /// The register placeholder for one register: `XregsInit` becomes
    /// `XregInit(idx)`, `XregsFin` becomes `XregFin(idx)`.
    pub fn specify_idx(&self, idx: usize) -> (r: Self)
        requires
            *self is XregsInit || *self is XregsFin,
        ensures
            *self is XregsInit ==> r == Placeholder::XregInit(idx),
            *self is XregsFin ==> r == Placeholder::XregFin(idx),
    {
        match self {
            Placeholder::XregsInit => Placeholder::XregInit(idx),
            _ => Placeholder::XregFin(idx),
        }
    }

    /// Whether the placeholder is state at the start of a cycle.
    pub fn is_initial(&self) -> (r: bool)
        ensures
            r == self.spec_is_initial(),
    {
        match self {
            Placeholder::XregInit(_)
            | Placeholder::Instruction
            | Placeholder::MemSlot
            | Placeholder::PcInit
            | Placeholder::StatusInit
            | Placeholder::IeInit
            | Placeholder::IpInit
            | Placeholder::TvecInit
            | Placeholder::ScratchInit
            | Placeholder::EpcInit
            | Placeholder::CauseInit
            | Placeholder::TvalInit
            | Placeholder::ModeInit
            | Placeholder::MemorySaptInit
            | Placeholder::ContinueExecutionInit
            | Placeholder::ExternalOracle
            | Placeholder::FirstRegMem
            | Placeholder::SecondRegMem => true,
            _ => false,
        }
    }

    /// Whether the placeholder is state at the end of a cycle.
    pub fn is_final(&self) -> (r: bool)
        ensures
            r == self.spec_is_final(),
    {
        match self {
            Placeholder::XregFin(_)
            | Placeholder::PcFin
            | Placeholder::ContinueExecutionFin
            | Placeholder::StatusFin
            | Placeholder::IeFin
            | Placeholder::IpFin
            | Placeholder::TvecFin
            | Placeholder::ScratchFin
            | Placeholder::EpcFin
            | Placeholder::CauseFin
            | Placeholder::TvalFin
            | Placeholder::ModeFin
            | Placeholder::MemorySaptFin => true,
            _ => false,
        }
    }

    /// Whether the placeholder has a description.
    pub open spec fn spec_has_description(self) -> bool {
        match self {
            Placeholder::ShuffleRamLazyInitAddressThis
            | Placeholder::ShuffleRamLazyInitAddressNext
            | Placeholder::ShuffleRamAddress(_)
            | Placeholder::ShuffleRamReadValue(_)
            | Placeholder::ShuffleRamIsRegisterAccess(_)
            | Placeholder::ShuffleRamWriteValue(_)
            | Placeholder::ExecuteDelegation
            | Placeholder::DelegationType
            | Placeholder::DelegationABIOffset
            | Placeholder::DelegationWriteTimestamp
            | Placeholder::DelegationRegisterReadValue(_)
            | Placeholder::DelegationRegisterReadTimestamp(_)
            | Placeholder::DelegationRegisterWriteValue(_)
            | Placeholder::DelegationIndirectReadValue { .. }
            | Placeholder::DelegationIndirectReadTimestamp { .. }
            | Placeholder::DelegationIndirectWriteValue { .. }
            | Placeholder::ExecuteOpcodeFamilyCycle
            | Placeholder::OpcodeFamilyCycleInitialTimestamp
            | Placeholder::OpcodeFamilyCycleFinalTimestamp
            | Placeholder::RS1Index
            | Placeholder::RS2Index
            | Placeholder::MemLoadAddress
            | Placeholder::RDIndex
            | Placeholder::RDIsZero
            | Placeholder::DecodedImm
            | Placeholder::DecodedFunct3
            | Placeholder::DecodedFunct7
            | Placeholder::DecodedExecutorFamilyMask
            | Placeholder::LoadStoreRamValue
            | Placeholder::MemStoreAddress
            | Placeholder::DelegationIndirectAccessVariableOffset { .. }
            | Placeholder::ExecutorFamilyMaskBit { .. }
            | Placeholder::WriteRegMemReadWitness
            | Placeholder::WriteRegMemWriteValue => false,
            _ => true,
        }
    }

    /// The human-readable description of the placeholder.
    pub open spec fn description(self) -> Seq<char> {
        match self {
            Placeholder::XregsInit | Placeholder::XregsFin => "xregs"@,
            Placeholder::Instruction => "insn"@,
            Placeholder::MemSlot => "mem_slot"@,
            Placeholder::PcInit | Placeholder::PcFin => "pc"@,
            Placeholder::ContinueExecutionInit | Placeholder::ContinueExecutionFin => "continue execution"@,
            Placeholder::StatusInit | Placeholder::StatusFin => "status"@,
            Placeholder::IeInit | Placeholder::IeFin => "ie"@,
            Placeholder::IpInit | Placeholder::IpFin => "ip"@,
            Placeholder::TvecInit | Placeholder::TvecFin => "tvec"@,
            Placeholder::ScratchInit | Placeholder::ScratchFin => "scratch"@,
            Placeholder::EpcInit | Placeholder::EpcFin => "epc"@,
            Placeholder::CauseInit | Placeholder::CauseFin => "cause"@,
            Placeholder::TvalInit | Placeholder::TvalFin => "tval"@,
            Placeholder::ModeInit | Placeholder::ModeFin => "mode"@,
            Placeholder::MemorySaptInit | Placeholder::MemorySaptFin => "sapt"@,
            Placeholder::ExternalOracle => "external"@,
            Placeholder::Trapped => "trapped"@,
            Placeholder::InvalidEncoding => "invalid encoding"@,
            Placeholder::FirstRegMem => "first register as memory"@,
            Placeholder::SecondRegMem => "second register as memory"@,
            Placeholder::MemoryLoadOp => "read set value for memory load"@,
            Placeholder::WriteRdReadSetWitness => "read set value for rd update"@,
            Placeholder::XregInit(idx) | Placeholder::XregFin(idx) => "xreg["@ + decimal_digits(idx as nat) + "]"@,
            Placeholder::ShuffleRamReadTimestamp(idx) => "read timestamp for access index "@ + decimal_digits(idx as nat) + ""@,
            Placeholder::DelegationMemoryReadValue(idx) => "read value for delegation, offset "@ + decimal_digits(idx as nat) + ""@,
            Placeholder::DelegationMemoryReadTimestamp(idx) => "RAM read timestamp for delegation, offset "@ + decimal_digits(idx as nat) + ""@,
            Placeholder::DelegationMemoryWriteValue(idx) => "write value for delegation, offset "@ + decimal_digits(idx as nat) + ""@,
            Placeholder::DelegationNondeterminismAccess(idx) => "non-determinism access for delegation number "@ + decimal_digits(idx as nat) + ""@,
            Placeholder::DelegationNondeterminismAccessNoSplits(idx) => "non-determinism access for delegation number "@ + decimal_digits(idx as nat) + " without splitting to words"@,
            _ => Seq::empty(),
        }
    }

    /// Whether the placeholder has a description.
    pub fn has_description(&self) -> (r: bool)
        ensures
            r == self.spec_has_description(),
    {
        match *self {
            Placeholder::ShuffleRamLazyInitAddressThis
            | Placeholder::ShuffleRamLazyInitAddressNext
            | Placeholder::ShuffleRamAddress(_)
            | Placeholder::ShuffleRamReadValue(_)
            | Placeholder::ShuffleRamIsRegisterAccess(_)
            | Placeholder::ShuffleRamWriteValue(_)
            | Placeholder::ExecuteDelegation
            | Placeholder::DelegationType
            | Placeholder::DelegationABIOffset
            | Placeholder::DelegationWriteTimestamp
            | Placeholder::DelegationRegisterReadValue(_)
            | Placeholder::DelegationRegisterReadTimestamp(_)
            | Placeholder::DelegationRegisterWriteValue(_)
            | Placeholder::DelegationIndirectReadValue { .. }
            | Placeholder::DelegationIndirectReadTimestamp { .. }
            | Placeholder::DelegationIndirectWriteValue { .. }
            | Placeholder::ExecuteOpcodeFamilyCycle
            | Placeholder::OpcodeFamilyCycleInitialTimestamp
            | Placeholder::OpcodeFamilyCycleFinalTimestamp
            | Placeholder::RS1Index
            | Placeholder::RS2Index
            | Placeholder::MemLoadAddress
            | Placeholder::RDIndex
            | Placeholder::RDIsZero
            | Placeholder::DecodedImm
            | Placeholder::DecodedFunct3
            | Placeholder::DecodedFunct7
            | Placeholder::DecodedExecutorFamilyMask
            | Placeholder::LoadStoreRamValue
            | Placeholder::MemStoreAddress
            | Placeholder::DelegationIndirectAccessVariableOffset { .. }
            | Placeholder::ExecutorFamilyMaskBit { .. }
            | Placeholder::WriteRegMemReadWitness
            | Placeholder::WriteRegMemWriteValue => false,
            _ => true,
        }
    }

    /// The human-readable description, for the placeholders that have one.
    pub fn to_string(&self) -> (r: String)
        requires
            self.spec_has_description(),
        ensures
            r@ == self.description(),
    {
        match self {
            Placeholder::XregsInit | Placeholder::XregsFin => "xregs".to_owned(),
            Placeholder::Instruction => "insn".to_owned(),
            Placeholder::MemSlot => "mem_slot".to_owned(),
            Placeholder::PcInit | Placeholder::PcFin => "pc".to_owned(),
            Placeholder::ContinueExecutionInit | Placeholder::ContinueExecutionFin => "continue execution".to_owned(),
            Placeholder::StatusInit | Placeholder::StatusFin => "status".to_owned(),
            Placeholder::IeInit | Placeholder::IeFin => "ie".to_owned(),
            Placeholder::IpInit | Placeholder::IpFin => "ip".to_owned(),
            Placeholder::TvecInit | Placeholder::TvecFin => "tvec".to_owned(),
            Placeholder::ScratchInit | Placeholder::ScratchFin => "scratch".to_owned(),
            Placeholder::EpcInit | Placeholder::EpcFin => "epc".to_owned(),
            Placeholder::CauseInit | Placeholder::CauseFin => "cause".to_owned(),
            Placeholder::TvalInit | Placeholder::TvalFin => "tval".to_owned(),
            Placeholder::ModeInit | Placeholder::ModeFin => "mode".to_owned(),
            Placeholder::MemorySaptInit | Placeholder::MemorySaptFin => "sapt".to_owned(),
            Placeholder::ExternalOracle => "external".to_owned(),
            Placeholder::Trapped => "trapped".to_owned(),
            Placeholder::InvalidEncoding => "invalid encoding".to_owned(),
            Placeholder::FirstRegMem => "first register as memory".to_owned(),
            Placeholder::SecondRegMem => "second register as memory".to_owned(),
            Placeholder::MemoryLoadOp => "read set value for memory load".to_owned(),
            Placeholder::WriteRdReadSetWitness => "read set value for rd update".to_owned(),
            Placeholder::XregInit(idx) | Placeholder::XregFin(idx) => indexed_text("xreg[", *idx, "]"),
            Placeholder::ShuffleRamReadTimestamp(idx) => indexed_text("read timestamp for access index ", *idx, ""),
            Placeholder::DelegationMemoryReadValue(idx) => indexed_text("read value for delegation, offset ", *idx, ""),
            Placeholder::DelegationMemoryReadTimestamp(idx) => indexed_text("RAM read timestamp for delegation, offset ", *idx, ""),
            Placeholder::DelegationMemoryWriteValue(idx) => indexed_text("write value for delegation, offset ", *idx, ""),
            Placeholder::DelegationNondeterminismAccess(idx) => indexed_text("non-determinism access for delegation number ", *idx, ""),
            Placeholder::DelegationNondeterminismAccessNoSplits(idx) => indexed_text("non-determinism access for delegation number ", *idx, " without splitting to words"),
            _ => {
                assert(false);
                String::new()
            },
        }
    }

    /// Whether the placeholder only serves debugging.
    pub fn is_debug(&self) -> (r: bool)
        ensures
            r == (*self is Trapped || *self is InvalidEncoding),
    {
        match self {
            Placeholder::Trapped | Placeholder::InvalidEncoding => true,
            _ => false,
        }
    }
}

/// No placeholder is state both at the start and at the end of a cycle.
pub proof fn lemma_placeholder_initial_final_disjoint(p: Placeholder)
    ensures
        !(p.spec_is_initial() && p.spec_is_final()),
{
}

} // verus!
