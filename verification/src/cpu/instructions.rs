//! The instruction handlers. Each one says by its result whether it set the
//! program counter itself; none of those here does, so the execution loop
//! always goes on behind the operand.

use vstd::prelude::*;
use crate::cpu::addressing::AddressMode;
use crate::cpu::flags::CARRY_MASK;
use crate::cpu::processor::Processor;

verus! {

impl Processor {
    /// `LDA`: loads the accumulator with what `mode` designates.
    pub fn lda(&mut self, mode: AddressMode) -> (jumped: bool)
        ensures
            final(self)@ == old(self)@.lda(mode),
            !jumped,
    {
        let value: u8 = self.eval_address_mode_u8(mode);
        self.a = value;
        self.set_zero_and_neg(value);
        false
    }

    /// `LDX`: loads `X` with what `mode` designates.
    pub fn ldx(&mut self, mode: AddressMode) -> (jumped: bool)
        ensures
            final(self)@ == old(self)@.ldx(mode),
            !jumped,
    {
        let value: u8 = self.eval_address_mode_u8(mode);
        self.x = value;
        self.set_zero_and_neg(value);
        false
    }

    /// `LDY`: loads `Y` with what `mode` designates.
    pub fn ldy(&mut self, mode: AddressMode) -> (jumped: bool)
        ensures
            final(self)@ == old(self)@.ldy(mode),
            !jumped,
    {
        let value: u8 = self.eval_address_mode_u8(mode);
        self.y = value;
        self.set_zero_and_neg(value);
        false
    }

    /// `INX`: adds one to `X`; `0xff` becomes `0x00`.
    pub fn inx(&mut self) -> (jumped: bool)
        ensures
            final(self)@ == old(self)@.inx(),
            !jumped,
    {
        self.x = self.x.wrapping_add(1);
        let value: u8 = self.x;
        self.set_zero_and_neg(value);
        false
    }

    /// `INY`: adds one to `Y`; `0xff` becomes `0x00`.
    pub fn iny(&mut self) -> (jumped: bool)
        ensures
            final(self)@ == old(self)@.iny(),
            !jumped,
    {
        self.y = self.y.wrapping_add(1);
        let value: u8 = self.y;
        self.set_zero_and_neg(value);
        false
    }

    /// `TAX`: copies the accumulator into `X`.
    pub fn tax(&mut self) -> (jumped: bool)
        ensures
            final(self)@ == old(self)@.tax(),
            !jumped,
    {
        self.x = self.a;
        let value: u8 = self.x;
        self.set_zero_and_neg(value);
        false
    }

    /// `ADC`: adds what `address` designates to the accumulator modulo
    /// `0x100`, and sets the carry bit if the sum went over `0xff`.
    pub fn adc(&mut self, address: AddressMode) -> (jumped: bool)
        ensures
            final(self)@ == old(self)@.adc(address),
            !jumped,
    {
        let to_add: u8 = self.eval_address_mode_u8(address);
        let sum: u16 = self.a as u16 + to_add as u16;
        if sum > 0xff {
            self.status = self.status | CARRY_MASK;
        }
        self.a = self.a.wrapping_add(to_add);
        let value: u8 = self.a;
        self.set_zero_and_neg(value);
        false
    }

    /// `LDA #param`.
    pub fn lda_immediate(&mut self, param: u8) -> (jumped: bool)
        ensures
            final(self)@ == old(self)@.lda(AddressMode::Immediate(param)),
            !jumped,
    {
        self.lda(AddressMode::Immediate(param))
    }

    /// `LDA address`, in page zero.
    pub fn lda_zero_page(&mut self, address: u8) -> (jumped: bool)
        ensures
            final(self)@ == old(self)@.lda(AddressMode::ZeroPage(address)),
            !jumped,
    {
        self.lda(AddressMode::ZeroPage(address))
    }

    /// `LDA address,X`, in page zero.
    pub fn lda_zero_page_x(&mut self, address: u8) -> (jumped: bool)
        ensures
            final(self)@ == old(self)@.lda(AddressMode::ZeroPageX(address)),
            !jumped,
    {
        self.lda(AddressMode::ZeroPageX(address))
    }

    /// `LDA address,Y`, in page zero.
    pub fn lda_zero_page_y(&mut self, address: u8) -> (jumped: bool)
        ensures
            final(self)@ == old(self)@.lda(AddressMode::ZeroPageY(address)),
            !jumped,
    {
        self.lda(AddressMode::ZeroPageY(address))
    }

    /// `LDX #param`.
    pub fn ldx_immediate(&mut self, param: u8) -> (jumped: bool)
        ensures
            final(self)@ == old(self)@.ldx(AddressMode::Immediate(param)),
            !jumped,
    {
        self.ldx(AddressMode::Immediate(param))
    }

    /// `LDX address`, in page zero.
    pub fn ldx_zero_page(&mut self, address: u8) -> (jumped: bool)
        ensures
            final(self)@ == old(self)@.ldx(AddressMode::ZeroPage(address)),
            !jumped,
    {
        self.ldx(AddressMode::ZeroPage(address))
    }

    /// `LDX address,X`, in page zero.
    pub fn ldx_zero_page_x(&mut self, address: u8) -> (jumped: bool)
        ensures
            final(self)@ == old(self)@.ldx(AddressMode::ZeroPageX(address)),
            !jumped,
    {
        self.ldx(AddressMode::ZeroPageX(address))
    }

    /// `LDX address,Y`, in page zero.
    pub fn ldx_zero_page_y(&mut self, address: u8) -> (jumped: bool)
        ensures
            final(self)@ == old(self)@.ldx(AddressMode::ZeroPageY(address)),
            !jumped,
    {
        self.ldx(AddressMode::ZeroPageY(address))
    }

    /// `LDY #param`.
    pub fn ldy_immediate(&mut self, param: u8) -> (jumped: bool)
        ensures
            final(self)@ == old(self)@.ldy(AddressMode::Immediate(param)),
            !jumped,
    {
        self.ldy(AddressMode::Immediate(param))
    }

    /// `LDY address`, in page zero.
    pub fn ldy_zero_page(&mut self, address: u8) -> (jumped: bool)
        ensures
            final(self)@ == old(self)@.ldy(AddressMode::ZeroPage(address)),
            !jumped,
    {
        self.ldy(AddressMode::ZeroPage(address))
    }

    /// `LDY address,X`, in page zero.
    pub fn ldy_zero_page_x(&mut self, address: u8) -> (jumped: bool)
        ensures
            final(self)@ == old(self)@.ldy(AddressMode::ZeroPageX(address)),
            !jumped,
    {
        self.ldy(AddressMode::ZeroPageX(address))
    }

    /// `LDY address,Y`, in page zero.
    pub fn ldy_zero_page_y(&mut self, address: u8) -> (jumped: bool)
        ensures
            final(self)@ == old(self)@.ldy(AddressMode::ZeroPageY(address)),
            !jumped,
    {
        self.ldy(AddressMode::ZeroPageY(address))
    }
}

} // verus!
