//! The register store of the tank simulator, and the word-level side of one
//! simulation tick: setpoints are read from the holding registers as 32-bit
//! patterns, and the new level is stored into the input registers as one.
//!
//! A 32-bit pattern stands for an IEEE-754 single-precision number. It
//! occupies two consecutive registers, the high word at the lower address.

use vstd::prelude::*;
use crate::register_file::{
    high_word,
    low_word,
    word_pair_bits,
    write_words,
    written,
    REGISTER_COUNT,
};

verus! {

/// Holding-register address of the first inflow setpoint.
pub const INFLOW_A_ADDR: u16 = 2;

/// Holding-register address of the second inflow setpoint.
pub const INFLOW_B_ADDR: u16 = 4;

/// Holding-register address of the outlet valve setpoint.
pub const OUTLET_VALVE_ADDR: u16 = 6;

/// Input-register address of the tank level.
pub const LEVEL_ADDR: u16 = 2;

/// The three setpoints of one tick, each as the bit pattern of a
/// single-precision number.
#[derive(Clone, Copy, Debug, PartialEq, Eq, Structural)]
pub struct SetpointBits {
    pub inflow_a: u32,
    pub inflow_b: u32,
    pub outlet_valve: u32,
}

/// The Modbus memory map of the simulator: ten input registers and ten
/// holding registers.
#[derive(Debug)]
pub struct ModleHandler {
    /// Sensor values; clients can only read them.
    pub input_registers: [u16; REGISTER_COUNT],
    /// Setpoints; clients read and write them.
    pub holding_registers: [u16; REGISTER_COUNT],
}

impl ModleHandler {
    /// The input registers, lowest address first.
    pub open spec fn input_view(&self) -> Seq<u16> {
        self.input_registers@
    }

    /// The holding registers, lowest address first.
    pub open spec fn holding_view(&self) -> Seq<u16> {
        self.holding_registers@
    }

    /// The 32-bit pattern held by the registers `addr` and `addr + 1` of
    /// `v`, high word first.
    pub fn get_float_from_2_u16(v: &[u16], addr: u16) -> (bits: u32)
        requires
            addr + 1 < v@.len(),
        ensures
            bits == word_pair_bits(v@[addr as int], v@[addr + 1]),
    {
        let high: u32 = v[addr as usize] as u32;
        let low: u32 = v[addr as usize + 1] as u32;
        (high << 16) | low
    }

    /// The high and the low word of a 32-bit pattern, in that order.
    pub fn float_to_2_u16_be(bits: u32) -> (words: (u16, u16))
        ensures
            words.0 == high_word(bits),
            words.1 == low_word(bits),
    {
        assert(bits >> 16 <= 0xffff) by (bit_vector);
        assert(bits & 0xffff <= 0xffff) by (bit_vector);
        ((bits >> 16) as u16, (bits & 0xffff) as u16)
    }

    /// A store with every register at zero.
    pub fn new() -> (store: Self)
        ensures
            store.input_view() == Seq::new(REGISTER_COUNT as nat, |i: int| 0u16),
            store.holding_view() == Seq::new(REGISTER_COUNT as nat, |i: int| 0u16),
    {
        let store = Self {
            input_registers: [0u16; REGISTER_COUNT],
            holding_registers: [0u16; REGISTER_COUNT],
        };
        assert(store.input_view() =~= Seq::new(REGISTER_COUNT as nat, |i: int| 0u16));
        assert(store.holding_view() =~= Seq::new(REGISTER_COUNT as nat, |i: int| 0u16));
        store
    }

    /// First step of a tick: the three setpoints as the holding registers
    /// hold them now.
    pub fn read_setpoints(&self) -> (setpoints: SetpointBits)
        ensures
            setpoints.inflow_a == word_pair_bits(
                self.holding_view()[INFLOW_A_ADDR as int],
                self.holding_view()[INFLOW_A_ADDR + 1],
            ),
            setpoints.inflow_b == word_pair_bits(
                self.holding_view()[INFLOW_B_ADDR as int],
                self.holding_view()[INFLOW_B_ADDR + 1],
            ),
            setpoints.outlet_valve == word_pair_bits(
                self.holding_view()[OUTLET_VALVE_ADDR as int],
                self.holding_view()[OUTLET_VALVE_ADDR + 1],
            ),
    {
        let regs: &[u16] = self.holding_registers.as_slice();
        SetpointBits {
            inflow_a: Self::get_float_from_2_u16(regs, INFLOW_A_ADDR),
            inflow_b: Self::get_float_from_2_u16(regs, INFLOW_B_ADDR),
            outlet_valve: Self::get_float_from_2_u16(regs, OUTLET_VALVE_ADDR),
        }
    }

    /// Last step of a tick: stores the level's bit pattern into the two
    /// input registers at `LEVEL_ADDR`, high word first, as one block.
    /// Nothing else changes.
    pub fn write_level(&mut self, level_bits: u32)
        ensures
            final(self).input_view() == written(
                old(self).input_view(),
                LEVEL_ADDR as int,
                seq![high_word(level_bits), low_word(level_bits)],
            ),
            final(self).holding_view() == old(self).holding_view(),
    {
        let (high, low) = Self::float_to_2_u16_be(level_bits);
        let block: [u16; 2] = [high, low];
        assert(block@ =~= seq![high_word(level_bits), low_word(level_bits)]);
        write_words(&mut self.input_registers, LEVEL_ADDR as usize, block.as_slice());
    }
}

/// The level that a tick stores is the level that the two input registers at
/// `LEVEL_ADDR` decode to afterwards.
pub proof fn lemma_level_reads_back(regs: Seq<u16>, level_bits: u32)
    requires
        regs.len() == REGISTER_COUNT,
    ensures
        ({
            let after = written(
                regs,
                LEVEL_ADDR as int,
                seq![high_word(level_bits), low_word(level_bits)],
            );
            word_pair_bits(after[LEVEL_ADDR as int], after[LEVEL_ADDR + 1]) == level_bits
        }),
{
    crate::register_file::lemma_split_then_join(level_bits);
}

} // verus!
