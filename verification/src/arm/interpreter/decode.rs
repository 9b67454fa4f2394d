//! The decoder: which handler an instruction goes to, and the static bits
//! that the handler is specialised on.
use vstd::prelude::*;
use crate::bits::{bit, spec_bit, spec_widen, widen};

verus! {

/// An ARM instruction as the decoder sees it: its class and the static
/// bits of the encoding.
#[derive(Clone, Copy, PartialEq, Eq, Structural, Debug)]
pub enum ArmInstruction {
    Multiply { s: bool },
    MultiplyLong { s: bool },
    Swap { b: bool },
    Bx,
    Bl,
    HwSignedDataTransfer { i: bool, p: bool, u: bool, w: bool, l: bool, s: bool, h: bool },
    BlockDataTransfer { p: bool, u: bool, s: bool, w: bool, l: bool },
    PsrTransfer { i: bool, psr: bool },
    DataProcessing { i: bool, s: bool },
    SingleDataTransfer { i: bool, p: bool, u: bool, b: bool, w: bool, l: bool },
    Swi,
    Undefined,
}

/// A Thumb instruction as the decoder sees it.
#[derive(Clone, Copy, PartialEq, Eq, Structural, Debug)]
pub enum ThumbInstruction {
    AddSub { i: bool },
    MovShiftedReg,
    MovCompareAluImm,
    AluOps,
    HiRegOpBx,
    PcRelLoad,
    LoadStoreReg { l: bool, b: bool },
    LoadStoreHwSignext { h: bool, s: bool },
    LoadStoreImm { l: bool, b: bool },
    LoadStoreHw { l: bool },
    SpRelLoadStore { l: bool },
    LoadAddr { sp: bool },
    AddSp,
    PushPop { l: bool, r: bool },
    LdmStm { l: bool },
    Swi,
    CondBranch,
    Branch,
    LongBranch { h: bool },
    Undefined,
}

/// The key of an ARM instruction in the table of handlers: bits 20 to 27
/// above bits 4 to 7.
pub open spec fn spec_arm_index(opcode: u32) -> u32 {
    ((opcode >> 16u32) & 0xFF0u32) | ((opcode >> 4u32) & 0xFu32)
}

/// The key of an ARM instruction in the table of handlers.
#[verifier::when_used_as_spec(spec_arm_index)]
pub fn arm_index(opcode: u32) -> (r: u32)
    ensures
        r == spec_arm_index(opcode),
        r < 4096,
{
    let r = ((opcode >> 16u32) & 0xFF0u32) | ((opcode >> 4u32) & 0xFu32);
    assert(r < 4096) by (bit_vector)
        requires
            r == ((opcode >> 16u32) & 0xFF0u32) | ((opcode >> 4u32) & 0xFu32),
    ;
    r
}

/// The instruction that a key of the ARM table stands for. The first
/// pattern that the key matches decides.
pub open spec fn decode_arm_spec(index: u32) -> ArmInstruction {
    if index & 0b1111_1100_1111 == 0b0000_0000_1001 {
        ArmInstruction::Multiply { s: spec_bit(index, 4) }
    } else if index & 0b1111_1000_1111 == 0b0000_1000_1001 {
        ArmInstruction::MultiplyLong { s: spec_bit(index, 4) }
    } else if index & 0b1111_1011_1111 == 0b0001_0000_1001 {
        ArmInstruction::Swap { b: spec_bit(index, 6) }
    } else if index & 0b1111_1111_1111 == 0b0001_0010_0001 {
        ArmInstruction::Bx
    } else if index & 0b1110_0000_0000 == 0b1010_0000_0000 {
        ArmInstruction::Bl
    } else if index & 0b1110_0000_1001 == 0b0000_0000_1001 {
        ArmInstruction::HwSignedDataTransfer {
            i: spec_bit(index, 6),
            p: spec_bit(index, 8),
            u: spec_bit(index, 7),
            w: spec_bit(index, 5),
            l: spec_bit(index, 4),
            s: spec_bit(index, 2),
            h: spec_bit(index, 1),
        }
    } else if index & 0b1110_0000_0000 == 0b1000_0000_0000 {
        ArmInstruction::BlockDataTransfer {
            p: spec_bit(index, 8),
            u: spec_bit(index, 7),
            s: spec_bit(index, 6),
            w: spec_bit(index, 5),
            l: spec_bit(index, 4),
        }
    } else if index & 0b1101_1001_0000 == 0b0001_0000_0000 {
        ArmInstruction::PsrTransfer { i: spec_bit(index, 9), psr: spec_bit(index, 6) }
    } else if index & 0b1100_0000_0000 == 0b0000_0000_0000 {
        ArmInstruction::DataProcessing { i: spec_bit(index, 9), s: spec_bit(index, 4) }
    } else if index & 0b1100_0000_0000 == 0b0100_0000_0000 {
        ArmInstruction::SingleDataTransfer {
            i: spec_bit(index, 9),
            p: spec_bit(index, 8),
            u: spec_bit(index, 7),
            b: spec_bit(index, 6),
            w: spec_bit(index, 5),
            l: spec_bit(index, 4),
        }
    } else if index & 0b1111_0000_0000 == 0b1111_0000_0000 {
        ArmInstruction::Swi
    } else {
        ArmInstruction::Undefined
    }
}

/// Decode a key of the ARM table.
pub fn decode_arm(index: u16) -> (r: ArmInstruction)
    ensures
        r == decode_arm_spec(spec_widen(index)),
{
    let index = widen(index);
    if index & 0b1111_1100_1111 == 0b0000_0000_1001 {
        ArmInstruction::Multiply { s: bit(index, 4) }
    } else if index & 0b1111_1000_1111 == 0b0000_1000_1001 {
        ArmInstruction::MultiplyLong { s: bit(index, 4) }
    } else if index & 0b1111_1011_1111 == 0b0001_0000_1001 {
        ArmInstruction::Swap { b: bit(index, 6) }
    } else if index & 0b1111_1111_1111 == 0b0001_0010_0001 {
        ArmInstruction::Bx
    } else if index & 0b1110_0000_0000 == 0b1010_0000_0000 {
        ArmInstruction::Bl
    } else if index & 0b1110_0000_1001 == 0b0000_0000_1001 {
        ArmInstruction::HwSignedDataTransfer {
            i: bit(index, 6),
            p: bit(index, 8),
            u: bit(index, 7),
            w: bit(index, 5),
            l: bit(index, 4),
            s: bit(index, 2),
            h: bit(index, 1),
        }
    } else if index & 0b1110_0000_0000 == 0b1000_0000_0000 {
        ArmInstruction::BlockDataTransfer {
            p: bit(index, 8),
            u: bit(index, 7),
            s: bit(index, 6),
            w: bit(index, 5),
            l: bit(index, 4),
        }
    } else if index & 0b1101_1001_0000 == 0b0001_0000_0000 {
        ArmInstruction::PsrTransfer { i: bit(index, 9), psr: bit(index, 6) }
    } else if index & 0b1100_0000_0000 == 0b0000_0000_0000 {
        ArmInstruction::DataProcessing { i: bit(index, 9), s: bit(index, 4) }
    } else if index & 0b1100_0000_0000 == 0b0100_0000_0000 {
        ArmInstruction::SingleDataTransfer {
            i: bit(index, 9),
            p: bit(index, 8),
            u: bit(index, 7),
            b: bit(index, 6),
            w: bit(index, 5),
            l: bit(index, 4),
        }
    } else if index & 0b1111_0000_0000 == 0b1111_0000_0000 {
        ArmInstruction::Swi
    } else {
        ArmInstruction::Undefined
    }
}

/// The instruction that an ARM opcode is, by the patterns of its bits 20
/// to 27 and 4 to 7, the first pattern that matches deciding:
///
/// 1. `0000 00xx .... 1001` multiply,
/// 2. `0000 1xxx .... 1001` multiply long,
/// 3. `0001 0x00 .... 1001` swap,
/// 4. `0001 0010 .... 0001` branch and exchange,
/// 5. `101x xxxx` branch,
/// 6. `000x xxxx .... 1xx1` halfword and signed transfer, bit 22 telling
///    the immediate offset from the register offset,
/// 7. `100x xxxx` block transfer,
/// 8. `00x1 0xx0` status register transfer,
/// 9. `00xx xxxx` data processing,
/// 10. `01xx xxxx` single transfer,
/// 11. `1111 xxxx` software interrupt,
/// 12. anything else is undefined.
///
/// The static bits are those of the opcode: I is bit 25 (bit 22 for the
/// halfword transfers), P bit 24, U bit 23, B or the status register
/// selector bit 22, W bit 21, L or S bit 20, and for the halfword
/// transfers S bit 6 and H bit 5.
pub open spec fn arm_decoded(opcode: u32) -> ArmInstruction {
    if opcode & 0x0FC0_00F0 == 0x0000_0090 {
        ArmInstruction::Multiply { s: spec_bit(opcode, 20) }
    } else if opcode & 0x0F80_00F0 == 0x0080_0090 {
        ArmInstruction::MultiplyLong { s: spec_bit(opcode, 20) }
    } else if opcode & 0x0FB0_00F0 == 0x0100_0090 {
        ArmInstruction::Swap { b: spec_bit(opcode, 22) }
    } else if opcode & 0x0FF0_00F0 == 0x0120_0010 {
        ArmInstruction::Bx
    } else if opcode & 0x0E00_0000 == 0x0A00_0000 {
        ArmInstruction::Bl
    } else if opcode & 0x0E00_0090 == 0x0000_0090 {
        ArmInstruction::HwSignedDataTransfer {
            i: spec_bit(opcode, 22),
            p: spec_bit(opcode, 24),
            u: spec_bit(opcode, 23),
            w: spec_bit(opcode, 21),
            l: spec_bit(opcode, 20),
            s: spec_bit(opcode, 6),
            h: spec_bit(opcode, 5),
        }
    } else if opcode & 0x0E00_0000 == 0x0800_0000 {
        ArmInstruction::BlockDataTransfer {
            p: spec_bit(opcode, 24),
            u: spec_bit(opcode, 23),
            s: spec_bit(opcode, 22),
            w: spec_bit(opcode, 21),
            l: spec_bit(opcode, 20),
        }
    } else if opcode & 0x0D90_0000 == 0x0100_0000 {
        ArmInstruction::PsrTransfer { i: spec_bit(opcode, 25), psr: spec_bit(opcode, 22) }
    } else if opcode & 0x0C00_0000 == 0x0000_0000 {
        ArmInstruction::DataProcessing { i: spec_bit(opcode, 25), s: spec_bit(opcode, 20) }
    } else if opcode & 0x0C00_0000 == 0x0400_0000 {
        ArmInstruction::SingleDataTransfer {
            i: spec_bit(opcode, 25),
            p: spec_bit(opcode, 24),
            u: spec_bit(opcode, 23),
            b: spec_bit(opcode, 22),
            w: spec_bit(opcode, 21),
            l: spec_bit(opcode, 20),
        }
    } else if opcode & 0x0F00_0000 == 0x0F00_0000 {
        ArmInstruction::Swi
    } else {
        ArmInstruction::Undefined
    }
}

/// The patterns of the table key say of the opcode what the patterns of
/// the opcode say.
proof fn lemma_index_patterns(opcode: u32, index: u32)
    by (bit_vector)
    requires
        index == ((opcode >> 16u32) & 0xFF0u32) | ((opcode >> 4u32) & 0xFu32),
    ensures
        (index & 0b1111_1100_1111 == 0b0000_0000_1001) == (opcode & 0x0FC0_00F0 == 0x0000_0090),
        (index & 0b1111_1000_1111 == 0b0000_1000_1001) == (opcode & 0x0F80_00F0 == 0x0080_0090),
        (index & 0b1111_1011_1111 == 0b0001_0000_1001) == (opcode & 0x0FB0_00F0 == 0x0100_0090),
        (index & 0b1111_1111_1111 == 0b0001_0010_0001) == (opcode & 0x0FF0_00F0 == 0x0120_0010),
        (index & 0b1110_0000_0000 == 0b1010_0000_0000) == (opcode & 0x0E00_0000 == 0x0A00_0000),
        (index & 0b1110_0000_1001 == 0b0000_0000_1001) == (opcode & 0x0E00_0090 == 0x0000_0090),
        (index & 0b1110_0000_0000 == 0b1000_0000_0000) == (opcode & 0x0E00_0000 == 0x0800_0000),
        (index & 0b1101_1001_0000 == 0b0001_0000_0000) == (opcode & 0x0D90_0000 == 0x0100_0000),
        (index & 0b1100_0000_0000 == 0b0000_0000_0000) == (opcode & 0x0C00_0000 == 0x0000_0000),
        (index & 0b1100_0000_0000 == 0b0100_0000_0000) == (opcode & 0x0C00_0000 == 0x0400_0000),
        (index & 0b1111_0000_0000 == 0b1111_0000_0000) == (opcode & 0x0F00_0000 == 0x0F00_0000),
{
}

/// The bits of the table key are the static bits of the opcode.
proof fn lemma_index_bits(opcode: u32, index: u32)
    by (bit_vector)
    requires
        index == ((opcode >> 16u32) & 0xFF0u32) | ((opcode >> 4u32) & 0xFu32),
    ensures
        (index & (1u32 << 1u32) != 0) == (opcode & (1u32 << 5u32) != 0),
        (index & (1u32 << 2u32) != 0) == (opcode & (1u32 << 6u32) != 0),
        (index & (1u32 << 4u32) != 0) == (opcode & (1u32 << 20u32) != 0),
        (index & (1u32 << 5u32) != 0) == (opcode & (1u32 << 21u32) != 0),
        (index & (1u32 << 6u32) != 0) == (opcode & (1u32 << 22u32) != 0),
        (index & (1u32 << 7u32) != 0) == (opcode & (1u32 << 23u32) != 0),
        (index & (1u32 << 8u32) != 0) == (opcode & (1u32 << 24u32) != 0),
        (index & (1u32 << 9u32) != 0) == (opcode & (1u32 << 25u32) != 0),
{
}

/// Every opcode has exactly one handler, and it is the handler of the
/// first pattern that the opcode matches: what the table holds under the
/// key of an opcode is the instruction that the opcode is, static bits
/// included.
pub proof fn lemma_decoder_matches_patterns(opcode: u32)
    ensures
        decode_arm_spec(spec_arm_index(opcode)) == arm_decoded(opcode),
{
    lemma_index_patterns(opcode, spec_arm_index(opcode));
    lemma_index_bits(opcode, spec_arm_index(opcode));
}

/// The instruction that a key of the Thumb table, the upper byte of an
/// opcode, stands for. The first pattern that the key matches decides.
pub open spec fn decode_thumb_spec(index: u32) -> ThumbInstruction {
    if index & 0b1111_1000 == 0b0001_1000 {
        ThumbInstruction::AddSub { i: spec_bit(index, 2) }
    } else if index & 0b1110_0000 == 0b0000_0000 {
        ThumbInstruction::MovShiftedReg
    } else if index & 0b1110_0000 == 0b0010_0000 {
        ThumbInstruction::MovCompareAluImm
    } else if index & 0b1111_1100 == 0b0100_0000 {
        ThumbInstruction::AluOps
    } else if index & 0b1111_1100 == 0b0100_0100 {
        ThumbInstruction::HiRegOpBx
    } else if index & 0b1111_1000 == 0b0100_1000 {
        ThumbInstruction::PcRelLoad
    } else if index & 0b1111_0010 == 0b0101_0000 {
        ThumbInstruction::LoadStoreReg { l: spec_bit(index, 3), b: spec_bit(index, 2) }
    } else if index & 0b1111_0010 == 0b0101_0010 {
        ThumbInstruction::LoadStoreHwSignext { h: spec_bit(index, 3), s: spec_bit(index, 2) }
    } else if index & 0b1110_0000 == 0b0110_0000 {
        ThumbInstruction::LoadStoreImm { l: spec_bit(index, 3), b: spec_bit(index, 4) }
    } else if index & 0b1111_0000 == 0b1000_0000 {
        ThumbInstruction::LoadStoreHw { l: spec_bit(index, 3) }
    } else if index & 0b1111_0000 == 0b1001_0000 {
        ThumbInstruction::SpRelLoadStore { l: spec_bit(index, 3) }
    } else if index & 0b1111_0000 == 0b1010_0000 {
        ThumbInstruction::LoadAddr { sp: spec_bit(index, 3) }
    } else if index & 0b1111_1111 == 0b1011_0000 {
        ThumbInstruction::AddSp
    } else if index & 0b1111_0110 == 0b1011_0100 {
        ThumbInstruction::PushPop { l: spec_bit(index, 3), r: spec_bit(index, 0) }
    } else if index & 0b1111_0000 == 0b1100_0000 {
        ThumbInstruction::LdmStm { l: spec_bit(index, 3) }
    } else if index & 0b1111_1111 == 0b1101_1111 {
        ThumbInstruction::Swi
    } else if index & 0b1111_0000 == 0b1101_0000 {
        ThumbInstruction::CondBranch
    } else if index & 0b1111_0000 == 0b1110_0000 {
        ThumbInstruction::Branch
    } else if index & 0b1111_0000 == 0b1111_0000 {
        ThumbInstruction::LongBranch { h: spec_bit(index, 3) }
    } else {
        ThumbInstruction::Undefined
    }
}

/// Decode a key of the Thumb table.
pub fn decode_thumb(index: u8) -> (r: ThumbInstruction)
    ensures
        r == decode_thumb_spec(index as u32),
{
    let index = index as u32;
    if index & 0b1111_1000 == 0b0001_1000 {
        ThumbInstruction::AddSub { i: bit(index, 2) }
    } else if index & 0b1110_0000 == 0b0000_0000 {
        ThumbInstruction::MovShiftedReg
    } else if index & 0b1110_0000 == 0b0010_0000 {
        ThumbInstruction::MovCompareAluImm
    } else if index & 0b1111_1100 == 0b0100_0000 {
        ThumbInstruction::AluOps
    } else if index & 0b1111_1100 == 0b0100_0100 {
        ThumbInstruction::HiRegOpBx
    } else if index & 0b1111_1000 == 0b0100_1000 {
        ThumbInstruction::PcRelLoad
    } else if index & 0b1111_0010 == 0b0101_0000 {
        ThumbInstruction::LoadStoreReg { l: bit(index, 3), b: bit(index, 2) }
    } else if index & 0b1111_0010 == 0b0101_0010 {
        ThumbInstruction::LoadStoreHwSignext { h: bit(index, 3), s: bit(index, 2) }
    } else if index & 0b1110_0000 == 0b0110_0000 {
        ThumbInstruction::LoadStoreImm { l: bit(index, 3), b: bit(index, 4) }
    } else if index & 0b1111_0000 == 0b1000_0000 {
        ThumbInstruction::LoadStoreHw { l: bit(index, 3) }
    } else if index & 0b1111_0000 == 0b1001_0000 {
        ThumbInstruction::SpRelLoadStore { l: bit(index, 3) }
    } else if index & 0b1111_0000 == 0b1010_0000 {
        ThumbInstruction::LoadAddr { sp: bit(index, 3) }
    } else if index & 0b1111_1111 == 0b1011_0000 {
        ThumbInstruction::AddSp
    } else if index & 0b1111_0110 == 0b1011_0100 {
        ThumbInstruction::PushPop { l: bit(index, 3), r: bit(index, 0) }
    } else if index & 0b1111_0000 == 0b1100_0000 {
        ThumbInstruction::LdmStm { l: bit(index, 3) }
    } else if index & 0b1111_1111 == 0b1101_1111 {
        ThumbInstruction::Swi
    } else if index & 0b1111_0000 == 0b1101_0000 {
        ThumbInstruction::CondBranch
    } else if index & 0b1111_0000 == 0b1110_0000 {
        ThumbInstruction::Branch
    } else if index & 0b1111_0000 == 0b1111_0000 {
        ThumbInstruction::LongBranch { h: bit(index, 3) }
    } else {
        ThumbInstruction::Undefined
    }
}

/// The two tables of handlers, built once.
pub struct Decoder {
    /// 4096 entries, one per key of an ARM instruction.
    pub arm: Vec<ArmInstruction>,
    /// 256 entries, one per upper byte of a Thumb instruction.
    pub thumb: Vec<ThumbInstruction>,
}

impl Decoder {
    /// Every entry of both tables is what its key decodes to.
    pub open spec fn wf(&self) -> bool {
        &&& self.arm@.len() == 4096
        &&& self.thumb@.len() == 256
        &&& forall|i: int| 0 <= i < 4096 ==> #[trigger] self.arm@[i] == decode_arm_spec(i as u32)
        &&& forall|i: int| 0 <= i < 256 ==> #[trigger] self.thumb@[i] == decode_thumb_spec(i as u32)
    }

    /// Build both tables.
    pub fn new() -> (d: Decoder)
        ensures
            d.wf(),
    {
        let mut arm: Vec<ArmInstruction> = Vec::new();
        let mut i: u16 = 0;
        while i < 4096
            invariant
                i <= 4096,
                arm@.len() == i,
                forall|k: int| 0 <= k < i ==> #[trigger] arm@[k] == decode_arm_spec(k as u32),
            decreases 4096 - i,
        {
            arm.push(decode_arm(i));
            i += 1;
        }
        let mut thumb: Vec<ThumbInstruction> = Vec::new();
        let mut j: u16 = 0;
        while j < 256
            invariant
                j <= 256,
                thumb@.len() == j,
                forall|k: int| 0 <= k < j ==> #[trigger] thumb@[k] == decode_thumb_spec(k as u32),
            decreases 256 - j,
        {
            thumb.push(decode_thumb(j as u8));
            j += 1;
        }
        Decoder { arm, thumb }
    }

    /// Look an ARM opcode up in the table.
    pub fn lookup_arm(&self, opcode: u32) -> (r: ArmInstruction)
        requires
            self.wf(),
        ensures
            r == arm_decoded(opcode),
    {
        proof {
            lemma_decoder_matches_patterns(opcode);
        }
        self.arm[arm_index(opcode) as usize]
    }

    /// The instruction that a Thumb opcode is: what its upper byte
    /// decodes to.
    pub open spec fn thumb_decoded(opcode: u16) -> ThumbInstruction {
        decode_thumb_spec((opcode / 256) as u32)
    }

    /// Look a Thumb opcode up in the table.
    pub fn lookup_thumb(&self, opcode: u16) -> (r: ThumbInstruction)
        requires
            self.wf(),
        ensures
            r == Self::thumb_decoded(opcode),
    {
        self.thumb[(opcode / 256) as usize]
    }
}

impl Decoder {
    /// Whether every entry of both tables is what its key decodes to.
    pub fn check(&self) -> (ok: bool)
        ensures
            ok == self.wf(),
    {
        if self.arm.len() != 4096 || self.thumb.len() != 256 {
            return false;
        }
        let mut i: u16 = 0;
        while i < 4096
            invariant
                i <= 4096,
                self.arm@.len() == 4096,
                forall|k: int| 0 <= k < i ==> #[trigger] self.arm@[k] == decode_arm_spec(k as u32),
            decreases 4096 - i,
        {
            if self.arm[i as usize] != decode_arm(i) {
                return false;
            }
            i += 1;
        }
        let mut j: u16 = 0;
        while j < 256
            invariant
                j <= 256,
                self.thumb@.len() == 256,
                forall|k: int| 0 <= k < j ==> #[trigger] self.thumb@[k] == decode_thumb_spec(k as u32),
            decreases 256 - j,
        {
            if self.thumb[j as usize] != decode_thumb(j as u8) {
                return false;
            }
            j += 1;
        }
        true
    }
}

} // verus!
