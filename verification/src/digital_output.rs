use vstd::prelude::*;

verus! {

/// Shadow register for the board's serial-in/parallel-out shift register.
///
/// `state` is the in-memory shadow of the 8 physical outputs; changing it has
/// no hardware effect until `transmit` commits it. `transmitted` records, in
/// order, every byte committed to the physical register: the port layer
/// realizes each new entry as one MSB-first shift-and-latch cycle (see
/// `serial_bits`). The physical register therefore always reflects the last
/// element of `transmitted`, never an intermediate `state`.
pub struct DigitalOutput {
    /// In-memory shadow of the 8 register outputs.
    pub state: u8,
    /// Every byte committed to the physical register, oldest first.
    pub transmitted: Vec<u8>,
    /// Whether the global output-enable line has been asserted.
    pub enabled: bool,
}

impl DigitalOutput {
    /// Creates the latch in its power-on discipline: one all-zero byte is
    /// transmitted before the output-enable line is asserted, so the physical
    /// register is in a known cleared state before any output can glitch.
    pub fn new() -> (r: Self)
        ensures
            r.state == 0,
            r.transmitted@ == seq![0u8],
            r.enabled,
    {
        let mut me = Self { state: 0, transmitted: Vec::new(), enabled: false };
        me.transmit();
        me.enabled = true;
        assert(me.transmitted@ == seq![0u8]);
        me
    }

    /// ORs `bits` into the shadow state; no hardware effect until `transmit`.
    pub fn or(&mut self, bits: u8)
        ensures
            final(self).state == old(self).state | bits,
            final(self).transmitted == old(self).transmitted,
            final(self).enabled == old(self).enabled,
    {
        self.state |= bits;
    }

    /// ANDs `bits` into the shadow state, keeping only the bits of `bits`;
    /// no hardware effect until `transmit`.
    pub fn and(&mut self, bits: u8)
        ensures
            final(self).state == old(self).state & bits,
            final(self).transmitted == old(self).transmitted,
            final(self).enabled == old(self).enabled,
    {
        self.state &= bits;
    }

    /// Clears the bits of `bits` from the shadow state; no hardware effect
    /// until `transmit`.
    pub fn and_not(&mut self, bits: u8)
        ensures
            final(self).state == old(self).state & !bits,
            final(self).transmitted == old(self).transmitted,
            final(self).enabled == old(self).enabled,
    {
        self.state &= !bits;
    }

    /// Commits the shadow state to the physical register: one full 8-bit
    /// shift-and-latch cycle, recorded as one new entry of `transmitted`.
    pub fn transmit(&mut self)
        ensures
            final(self).state == old(self).state,
            final(self).transmitted@ == old(self).transmitted@.push(old(self).state),
            final(self).enabled == old(self).enabled,
    {
        let byte = self.state;
        self.transmitted.push(byte);
    }
}

/// The spec-level data-line value for position `i` (0 first) of one
/// MSB-first 8-bit transmission of `byte`.
pub open spec fn serial_bit(byte: u8, i: int) -> bool {
    byte & (1u8 << (7 - i) as u8) != 0
}

/// The eight data-line levels, MSB first, that one `transmit` of `byte`
/// shifts out. The port layer drives, for each level in order: clock low,
/// data line to the level, clock high; the whole frame is bracketed by
/// latch-enable low before the first bit and high after the last.
pub fn serial_bits(byte: u8) -> (r: Vec<bool>)
    ensures
        r@.len() == 8,
        forall|i: int| 0 <= i < 8 ==> r@[i] == serial_bit(byte, i),
{
    let mut r: Vec<bool> = Vec::new();
    let mut i: u8 = 0;
    while i < 8
        invariant
            i <= 8,
            r@.len() == i as int,
            forall|j: int| 0 <= j < i as int ==> r@[j] == serial_bit(byte, j),
        decreases 8 - i,
    {
        r.push(byte & (1u8 << (7 - i)) != 0);
        i += 1;
    }
    r
}

} // verus!
