//! The PCF8574 port expander byte that carries the charger-path signals.
//!
//! Bit map, from bit 0 up: `chr_en` (active low), `chr_otg` (active high),
//! unused, `chr_psel` (active low), `vbus_flg` (input, active low),
//! `vbus_enable` (active high), `vbus_present` (input, active low),
//! `dc_jack_present` (input, active low).
use vstd::prelude::*;

verus! {

pub const CHR_EN_BIT: u8 = 0;
pub const CHR_OTG_BIT: u8 = 1;
pub const CHR_PSEL_BIT: u8 = 3;
pub const VBUS_FLG_BIT: u8 = 4;
pub const VBUS_ENABLE_BIT: u8 = 5;
pub const VBUS_PRESENT_BIT: u8 = 6;
pub const DC_JACK_PRESENT_BIT: u8 = 7;

/// The pins read as inputs: bits 4, 6 and 7.
pub const INPUT_PINS_MASK: u8 = 0xD0;

/// Base address of a PCF8574 on the bus.
pub const PCF8574_BASE_ADDRESS: u8 = 0x20;

/// Address of the charger on the bus.
pub const CHARGER_ADDRESS: u8 = 0x6B;

/// Whether bit `i` of `b` is set.
pub open spec fn bit_of(b: u8, i: u8) -> bool {
    (b >> i) & 1u8 == 1u8
}

/// `b` with bit `i` set to `v`.
pub open spec fn with_bit(b: u8, i: u8, v: bool) -> u8 {
    if v {
        b | (1u8 << i)
    } else {
        b & !(1u8 << i)
    }
}

pub proof fn lemma_with_bit(b: u8, i: u8, v: bool)
    requires
        i < 8,
    ensures
        bit_of(with_bit(b, i, v), i) == v,
        forall|j: u8| j < 8 && j != i ==> bit_of(#[trigger] with_bit(b, i, v), j) == bit_of(b, j),
{
    if v {
        assert(bit_of(b | (1u8 << i), i)) by (bit_vector)
            requires
                i < 8,
        ;
        assert forall|j: u8| j < 8 && j != i implies bit_of(b | (1u8 << i), j) == bit_of(b, j) by {
            assert(bit_of(b | (1u8 << i), j) == bit_of(b, j)) by (bit_vector)
                requires
                    i < 8,
                    j < 8,
                    j != i,
            ;
        }
    } else {
        assert(!bit_of(b & !(1u8 << i), i)) by (bit_vector)
            requires
                i < 8,
        ;
        assert forall|j: u8| j < 8 && j != i implies bit_of(b & !(1u8 << i), j) == bit_of(b, j) by {
            assert(bit_of(b & !(1u8 << i), j) == bit_of(b, j)) by (bit_vector)
                requires
                    i < 8,
                    j < 8,
                    j != i,
            ;
        }
    }
}

/// Address of a PCF8574 whose address pins A2, A1, A0 are strapped as given.
pub open spec fn strapped_address(a2: bool, a1: bool, a0: bool) -> int {
    PCF8574_BASE_ADDRESS + (if a2 { 4int } else { 0 }) + (if a1 { 2int } else { 0 }) + (if a0 { 1int } else { 0 })
}

/// Address of a PCF8574 whose address pins A2, A1, A0 are strapped as given.
pub fn pcf8574_address(a2: bool, a1: bool, a0: bool) -> (r: u8)
    ensures
        r as int == strapped_address(a2, a1, a0),
{
    let mut r: u8 = PCF8574_BASE_ADDRESS;
    if a2 {
        r = r + 4;
    }
    if a1 {
        r = r + 2;
    }
    if a0 {
        r = r + 1;
    }
    r
}

/// Address of this board's expander (A2 high, A1 low, A0 high).
pub fn expander_address() -> (r: u8)
    ensures
        r as int == strapped_address(true, false, true),
        r == 0x25,
{
    pcf8574_address(true, false, true)
}

/// The expander's pin byte, with named views of each signal.
#[derive(Clone, Copy, Debug, PartialEq, Eq, Structural)]
pub struct ExpanderStatus {
    pub reg: u8,
}

impl ExpanderStatus {
    pub open spec fn spec_chr_en(self) -> bool {
        !bit_of(self.reg, CHR_EN_BIT)
    }

    pub open spec fn spec_chr_otg(self) -> bool {
        bit_of(self.reg, CHR_OTG_BIT)
    }

    pub open spec fn spec_chr_psel(self) -> bool {
        !bit_of(self.reg, CHR_PSEL_BIT)
    }

    pub open spec fn spec_vbus_enable(self) -> bool {
        bit_of(self.reg, VBUS_ENABLE_BIT)
    }

    pub open spec fn spec_vbus_flg(self) -> bool {
        !bit_of(self.reg, VBUS_FLG_BIT)
    }

    pub open spec fn spec_vbus_present(self) -> bool {
        !bit_of(self.reg, VBUS_PRESENT_BIT)
    }

    pub open spec fn spec_dc_jack_present(self) -> bool {
        !bit_of(self.reg, DC_JACK_PRESENT_BIT)
    }

    /// The status held in a byte read from or written to the expander.
    pub fn from_byte(b: u8) -> (r: ExpanderStatus)
        ensures
            r.reg == b,
    {
        ExpanderStatus { reg: b }
    }

    /// The byte to write to the expander.
    pub fn into_byte(self) -> (r: u8)
        ensures
            r == self.reg,
    {
        self.reg
    }

    /// Sets `chr_en` (active low).
    pub fn set_chr_en(&mut self, enabled: bool)
        ensures
            final(self).reg == with_bit(old(self).reg, CHR_EN_BIT, !enabled),
    {
        self.reg = if !enabled { self.reg | (1u8 << CHR_EN_BIT) } else { self.reg & !(1u8 << CHR_EN_BIT) };
    }

    pub fn chr_en(&self) -> (r: bool)
        ensures
            r == self.spec_chr_en(),
    {
        (self.reg >> CHR_EN_BIT) & 1u8 != 1u8
    }

    /// Sets `chr_otg` (active high).
    pub fn set_chr_otg(&mut self, enabled: bool)
        ensures
            final(self).reg == with_bit(old(self).reg, CHR_OTG_BIT, enabled),
    {
        self.reg = if enabled { self.reg | (1u8 << CHR_OTG_BIT) } else { self.reg & !(1u8 << CHR_OTG_BIT) };
    }

    pub fn chr_otg(&self) -> (r: bool)
        ensures
            r == self.spec_chr_otg(),
    {
        (self.reg >> CHR_OTG_BIT) & 1u8 == 1u8
    }

    /// Sets `chr_psel` (active low).
    pub fn set_chr_psel(&mut self, enabled: bool)
        ensures
            final(self).reg == with_bit(old(self).reg, CHR_PSEL_BIT, !enabled),
    {
        self.reg = if !enabled { self.reg | (1u8 << CHR_PSEL_BIT) } else { self.reg & !(1u8 << CHR_PSEL_BIT) };
    }

    pub fn chr_psel(&self) -> (r: bool)
        ensures
            r == self.spec_chr_psel(),
    {
        (self.reg >> CHR_PSEL_BIT) & 1u8 != 1u8
    }

    /// Sets `vbus_enable` (active high).
    pub fn set_vbus_enable(&mut self, enabled: bool)
        ensures
            final(self).reg == with_bit(old(self).reg, VBUS_ENABLE_BIT, enabled),
    {
        self.reg = if enabled { self.reg | (1u8 << VBUS_ENABLE_BIT) } else { self.reg & !(1u8 << VBUS_ENABLE_BIT) };
    }

    pub fn vbus_enable(&self) -> (r: bool)
        ensures
            r == self.spec_vbus_enable(),
    {
        (self.reg >> VBUS_ENABLE_BIT) & 1u8 == 1u8
    }

    pub fn vbus_flg(&self) -> (r: bool)
        ensures
            r == self.spec_vbus_flg(),
    {
        (self.reg >> VBUS_FLG_BIT) & 1u8 != 1u8
    }

    pub fn vbus_present(&self) -> (r: bool)
        ensures
            r == self.spec_vbus_present(),
    {
        (self.reg >> VBUS_PRESENT_BIT) & 1u8 != 1u8
    }

    pub fn dc_jack_present(&self) -> (r: bool)
        ensures
            r == self.spec_dc_jack_present(),
    {
        (self.reg >> DC_JACK_PRESENT_BIT) & 1u8 != 1u8
    }

    pub open spec fn initial_spec() -> ExpanderStatus {
        ExpanderStatus { reg: 0xFF }
    }

    /// The byte written at setup: every pin high (inputs released, outputs
    /// inactive but for `vbus_enable`), then `chr_otg` made active.
    pub fn initial() -> (r: ExpanderStatus)
        ensures
            r.reg == with_bit(0xFF, CHR_OTG_BIT, true),
            r.reg == 0xFF,
            r.spec_chr_otg(),
            !r.spec_chr_en(),
            !r.spec_chr_psel(),
    {
        let mut status = ExpanderStatus::from_byte(0xFF);
        status.set_chr_otg(true);
        assert(with_bit(0xFF, CHR_OTG_BIT, true) == 0xFF) by (bit_vector);
        assert(!bit_of(0xFF, CHR_EN_BIT) == false) by (bit_vector);
        assert(bit_of(0xFF, CHR_OTG_BIT)) by (bit_vector);
        assert(bit_of(0xFF, CHR_PSEL_BIT)) by (bit_vector);
        status
    }
}

} // verus!
