//! Temperature-sensor ADC driver: a bounded, polled conversion session
//! over the chip's analog-to-digital peripheral.
//!
//! The driver works on a model of the sensor's register file. The
//! analog front end is represented by `sample`: the 12-bit code the
//! converter would produce, fixed by the die temperature and not
//! changed by reading it. Starting a conversion latches that code into
//! the data register and raises the interrupt-pending bit, so the
//! completion poll — kept because the hardware demands it — finds the
//! conversion already done.

use vstd::prelude::*;

use crate::mmio::RegWrite;
use crate::mmio::reg_write;

verus! {

/// User control register: power and conversion start.
pub const TSADC_USER_CON: u64 = 0x00;
/// Interrupt-pending register; write one to clear.
pub const TSADC_INT_PD: u64 = 0x0C;
/// Conversion data register, low 12 bits valid.
pub const TSADC_DATA0: u64 = 0x20;

/// User control: start one conversion.
pub const START_OF_CONVERSION: u32 = 0x01;
/// User control: power up the analog front end.
pub const ADC_POWER_CTRL: u32 = 0x08;

/// Raw code the sensor reports at zero degrees Celsius, from the
/// vendor's published transfer function.
pub const CALIBRATION_ZERO_CODE: u32 = 1859;

/// A temperature-sensor hardware instance.
pub struct Tsadc {
    /// Physical base address of the register file; fixed at
    /// construction from the board-support table.
    pub base_addr: u64,
    /// User control register contents.
    pub user_con: u32,
    /// Interrupt-pending register contents.
    pub int_pd: u32,
    /// Conversion data register contents.
    pub data0: u32,
    /// The raw code the analog front end produces when asked to
    /// convert: the modelled die temperature.
    pub sample: u16,
    /// Every register write this driver issued, in program order.
    pub writes: Vec<RegWrite>,
}

/// The vendor calibration line, in millidegrees Celsius: the sensor's
/// transfer function is `celsius = (code - 1859) / -7.53`, so in
/// thousandths `millicelsius = (1859 - code) * 100000 / 753`, rounded
/// toward zero.
pub open spec fn temp_millicelsius(raw: int) -> int {
    if raw <= CALIBRATION_ZERO_CODE {
        ((CALIBRATION_ZERO_CODE - raw) * 100000) / 753
    } else {
        -(((raw - CALIBRATION_ZERO_CODE) * 100000) / 753)
    }
}

/// The exact register writes one complete conversion session issues:
/// power up, start, clear the pending bit, power down.
pub open spec fn conversion_writes() -> Seq<RegWrite> {
    seq![
        reg_write(TSADC_USER_CON, ADC_POWER_CTRL),
        reg_write(TSADC_USER_CON, ADC_POWER_CTRL | START_OF_CONVERSION),
        reg_write(TSADC_INT_PD, 1),
        reg_write(TSADC_USER_CON, 0),
    ]
}

impl Tsadc {
    /// Creates a driver instance over the register file at `base_addr`,
    /// which must come from the board-support table. The peripheral is
    /// powered down and idle, as the boot loader leaves it.
    pub fn new(base_addr: u64) -> (t: Tsadc)
        ensures
            t.base_addr == base_addr,
            t.user_con == 0,
            t.int_pd == 0,
            t.data0 == 0,
            t.sample == 0,
            t.writes@ == Seq::<RegWrite>::empty(),
    {
        Tsadc {
            base_addr,
            user_con: 0,
            int_pd: 0,
            data0: 0,
            sample: 0,
            writes: Vec::new(),
        }
    }

    /// Sets the modelled die temperature: the raw code the analog front
    /// end will report on the next conversion.
    pub fn set_sample(&mut self, raw: u16)
        ensures
            final(self).base_addr == old(self).base_addr,
            final(self).user_con == old(self).user_con,
            final(self).int_pd == old(self).int_pd,
            final(self).data0 == old(self).data0,
            final(self).sample == raw,
            final(self).writes@ == old(self).writes@,
    {
        self.sample = raw;
    }

    /// Writes the user control register. Setting both the power and the
    /// start-of-conversion bits starts a conversion: the data register
    /// latches the analog front end's code and the interrupt-pending
    /// bit rises when it completes (in the model, at once).
    fn write_user_con(&mut self, value: u32)
        ensures
            final(self).base_addr == old(self).base_addr,
            final(self).user_con == value,
            final(self).sample == old(self).sample,
            final(self).writes@ == old(self).writes@.push(reg_write(TSADC_USER_CON, value)),
            value & ADC_POWER_CTRL != 0 && value & START_OF_CONVERSION != 0 ==> {
                &&& final(self).int_pd == (old(self).int_pd | 1u32)
                &&& final(self).data0 == (old(self).sample as u32 & 0xFFF)
            },
            !(value & ADC_POWER_CTRL != 0 && value & START_OF_CONVERSION != 0) ==> {
                &&& final(self).int_pd == old(self).int_pd
                &&& final(self).data0 == old(self).data0
            },
    {
        self.user_con = value;
        if value & ADC_POWER_CTRL != 0 && value & START_OF_CONVERSION != 0 {
            self.int_pd = self.int_pd | 1;
            self.data0 = self.sample as u32 & 0xFFF;
        }
        self.writes.push(RegWrite { offset: TSADC_USER_CON, value });
    }

    /// Writes the interrupt-pending register, which is write-one-to-
    /// clear: each one bit in `value` clears the matching pending bit.
    fn write_int_pd(&mut self, value: u32)
        ensures
            final(self).base_addr == old(self).base_addr,
            final(self).user_con == old(self).user_con,
            final(self).int_pd == (old(self).int_pd & !value),
            final(self).data0 == old(self).data0,
            final(self).sample == old(self).sample,
            final(self).writes@ == old(self).writes@.push(reg_write(TSADC_INT_PD, value)),
    {
        self.int_pd = self.int_pd & !value;
        self.writes.push(RegWrite { offset: TSADC_INT_PD, value });
    }

    /// Reads the interrupt-pending register; no side effect.
    fn read_int_pd(&self) -> (r: u32)
        ensures
            r == self.int_pd,
    {
        self.int_pd
    }

    /// Reads the conversion data register; no side effect.
    fn read_data0(&self) -> (r: u32)
        ensures
            r == self.data0,
    {
        self.data0
    }

    /// Reads the die temperature, in millidegrees Celsius.
    ///
    /// One complete, self-contained session: power the analog front end
    /// up, start a conversion, poll the interrupt-pending bit until the
    /// conversion completes (an unbounded spin by design — absent
    /// hardware hangs here rather than timing out), read the 12-bit raw
    /// code, clear the pending bit, power the front end down, and apply
    /// the vendor calibration line. The result depends on the modelled
    /// die temperature alone, and the front end is powered off again
    /// when the call returns.
    pub fn read_temperature(&mut self) -> (millicelsius: i32)
        ensures
            millicelsius == temp_millicelsius((old(self).sample as u32 & 0xFFF) as int),
            final(self).base_addr == old(self).base_addr,
            final(self).user_con == 0,
            final(self).int_pd & 1 == 0,
            final(self).sample == old(self).sample,
            final(self).writes@ == old(self).writes@ + conversion_writes(),
    {
        let ghost entry_writes = self.writes@;

        // 1. Power on the analog front end and select the on-die channel.
        self.write_user_con(ADC_POWER_CTRL);
        assert(!(ADC_POWER_CTRL & ADC_POWER_CTRL != 0 && ADC_POWER_CTRL & START_OF_CONVERSION != 0))
            by (bit_vector);

        // 2. Start one conversion.
        self.write_user_con(ADC_POWER_CTRL | START_OF_CONVERSION);
        assert((ADC_POWER_CTRL | START_OF_CONVERSION) & ADC_POWER_CTRL != 0
            && (ADC_POWER_CTRL | START_OF_CONVERSION) & START_OF_CONVERSION != 0) by (bit_vector);

        // 3. Poll the interrupt-pending bit until the conversion is done.
        let ghost orig_pd = old(self).int_pd;
        let ghost pd = self.int_pd;
        assert(pd & 1 != 0) by (bit_vector) requires pd == orig_pd | 1u32;
        let mut pending: u32 = self.read_int_pd();
        while pending & 1 == 0
            invariant
                pending & 1 != 0,
            decreases 0int,
        {
            pending = self.read_int_pd();
        }

        // 4. Read the raw sample; the low 12 bits are valid.
        let raw: u32 = self.read_data0() & 0xFFF;
        let ghost samp: u16 = old(self).sample;
        let ghost latched: u32 = samp as u32 & 0xFFF;
        assert(latched & 0xFFF == latched && latched <= 0xFFF) by (bit_vector)
            requires latched == samp as u32 & 0xFFF;
        assert(raw == latched);

        // 5. Clear the interrupt-pending condition (write one to clear).
        self.write_int_pd(1);
        let ghost pd2 = self.int_pd;
        assert(pd2 & 1 == 0) by (bit_vector) requires pd2 == pd & !1u32;

        // 6. Power the analog front end off to save power between reads.
        self.write_user_con(0);
        assert(!(0u32 & ADC_POWER_CTRL != 0 && 0u32 & START_OF_CONVERSION != 0)) by (bit_vector);

        proof {
            assert(self.writes@ =~= entry_writes + conversion_writes());
        }

        // 7. Apply the vendor calibration line, in millidegrees.
        if raw <= CALIBRATION_ZERO_CODE {
            let m: u32 = (CALIBRATION_ZERO_CODE - raw) * 100000 / 753;
            m as i32
        } else {
            let m: u32 = (raw - CALIBRATION_ZERO_CODE) * 100000 / 753;
            0i32 - (m as i32)
        }
    }
}

} // verus!
