use vstd::prelude::*;

verus! {

/// The five interrupt sources, highest dispatch priority first.
#[derive(Clone, Copy, Debug, PartialEq, Eq, Structural)]
pub enum Interrupt {
    VBlank,
    LcdStat,
    Timer,
    Serial,
    Joypad,
}

/// The bit that a source owns in the enable and request registers.
pub open spec fn interrupt_mask(i: Interrupt) -> u8 {
    match i {
        Interrupt::VBlank => 0x01,
        Interrupt::LcdStat => 0x02,
        Interrupt::Timer => 0x04,
        Interrupt::Serial => 0x08,
        Interrupt::Joypad => 0x10,
    }
}

/// The fixed address of a source's service routine.
pub open spec fn interrupt_vector(i: Interrupt) -> u16 {
    match i {
        Interrupt::VBlank => 0x40,
        Interrupt::LcdStat => 0x48,
        Interrupt::Timer => 0x50,
        Interrupt::Serial => 0x58,
        Interrupt::Joypad => 0x60,
    }
}

/// The highest-priority source that is both enabled and requested.
pub open spec fn highest_pending(enable: u8, request: u8) -> Option<Interrupt> {
    let p = enable & request;
    if p & 0x01u8 != 0 {
        Some(Interrupt::VBlank)
    } else if p & 0x02u8 != 0 {
        Some(Interrupt::LcdStat)
    } else if p & 0x04u8 != 0 {
        Some(Interrupt::Timer)
    } else if p & 0x08u8 != 0 {
        Some(Interrupt::Serial)
    } else if p & 0x10u8 != 0 {
        Some(Interrupt::Joypad)
    } else {
        None
    }
}

impl Interrupt {
    pub fn mask(&self) -> (r: u8)
        ensures
            r == interrupt_mask(*self),
    {
        match self {
            Interrupt::VBlank => 0x01,
            Interrupt::LcdStat => 0x02,
            Interrupt::Timer => 0x04,
            Interrupt::Serial => 0x08,
            Interrupt::Joypad => 0x10,
        }
    }

    pub fn vector(&self) -> (r: u16)
        ensures
            r == interrupt_vector(*self),
    {
        match self {
            Interrupt::VBlank => 0x40,
            Interrupt::LcdStat => 0x48,
            Interrupt::Timer => 0x50,
            Interrupt::Serial => 0x58,
            Interrupt::Joypad => 0x60,
        }
    }
}

/// The interrupt-enable and interrupt-request registers.
#[derive(Clone, Copy, Debug, PartialEq, Eq, Structural)]
pub struct Interrupts {
    pub enable: u8,
    pub request: u8,
}

impl Interrupts {
    pub fn new() -> (r: Interrupts)
        ensures
            r.enable == 0 && r.request == 0,
    {
        Interrupts { enable: 0, request: 0 }
    }

    /// Latches a request from a producing subsystem.
    pub fn raise(&mut self, i: Interrupt)
        ensures
            final(self).request == old(self).request | interrupt_mask(i),
            final(self).enable == old(self).enable,
    {
        self.request = self.request | i.mask();
    }

    /// Clears a request once it is serviced.
    pub fn clear(&mut self, i: Interrupt)
        ensures
            final(self).request == old(self).request & !interrupt_mask(i),
            final(self).enable == old(self).enable,
    {
        self.request = self.request & !i.mask();
    }

    pub fn pending(&self) -> (r: Option<Interrupt>)
        ensures
            r == highest_pending(self.enable, self.request),
    {
        let p = self.enable & self.request;
        if p & 0x01 != 0 {
            Some(Interrupt::VBlank)
        } else if p & 0x02 != 0 {
            Some(Interrupt::LcdStat)
        } else if p & 0x04 != 0 {
            Some(Interrupt::Timer)
        } else if p & 0x08 != 0 {
            Some(Interrupt::Serial)
        } else if p & 0x10 != 0 {
            Some(Interrupt::Joypad)
        } else {
            None
        }
    }
}

/// A source is pending exactly when some enabled source is requested, and the
/// one picked is enabled, requested, and outranks every other such source.
pub proof fn lemma_pending_is_highest(enable: u8, request: u8)
    ensures
        highest_pending(enable, request).is_some() <==> (enable & request & 0x1Fu8) != 0,
        highest_pending(enable, request) matches Some(i) ==> enable & interrupt_mask(i) != 0
            && request & interrupt_mask(i) != 0,
        highest_pending(enable, request) matches Some(i) ==> (enable & request) & ((interrupt_mask(i)
            - 1) as u8) == 0,
{
    let p = enable & request;
    assert(p & 0x1Fu8 != 0 <==> (p & 0x01u8 != 0 || p & 0x02u8 != 0 || p & 0x04u8 != 0 || p
        & 0x08u8 != 0 || p & 0x10u8 != 0)) by (bit_vector);
    assert(p & 0x01u8 != 0 ==> enable & 0x01u8 != 0 && request & 0x01u8 != 0) by (bit_vector)
        requires
            p == enable & request,
    ;
    assert(p & 0x02u8 != 0 ==> enable & 0x02u8 != 0 && request & 0x02u8 != 0) by (bit_vector)
        requires
            p == enable & request,
    ;
    assert(p & 0x04u8 != 0 ==> enable & 0x04u8 != 0 && request & 0x04u8 != 0) by (bit_vector)
        requires
            p == enable & request,
    ;
    assert(p & 0x08u8 != 0 ==> enable & 0x08u8 != 0 && request & 0x08u8 != 0) by (bit_vector)
        requires
            p == enable & request,
    ;
    assert(p & 0x10u8 != 0 ==> enable & 0x10u8 != 0 && request & 0x10u8 != 0) by (bit_vector)
        requires
            p == enable & request,
    ;
    assert(p & 0u8 == 0) by (bit_vector);
    assert(p & 0x01u8 == 0 ==> p & 0x01u8 == 0) by (bit_vector);
    assert(p & 0x01u8 == 0 && p & 0x02u8 == 0 ==> p & 0x03u8 == 0) by (bit_vector);
    assert(p & 0x01u8 == 0 && p & 0x02u8 == 0 && p & 0x04u8 == 0 ==> p & 0x07u8 == 0)
        by (bit_vector);
    assert(p & 0x01u8 == 0 && p & 0x02u8 == 0 && p & 0x04u8 == 0 && p & 0x08u8 == 0 ==> p & 0x0Fu8
        == 0) by (bit_vector);
}

} // verus!
