//! Command framing for the quad-SPI link to the DDS chip.
//!
//! The link carries register transactions: one address byte, then payload.
//! Register addresses are 7 bits wide; the top bit of the on-wire address
//! byte distinguishes a read (set) from a write (clear), so a request naming
//! an address with the top bit already set is rejected before anything
//! reaches the bus. The bus itself is modelled as the transcript of bytes
//! handed to it; pushing those bytes through the physical peripheral is
//! memory-mapped I/O outside this library.

use vstd::prelude::*;

verus! {

/// Failure of a bus transaction. Faults of the bus peripheral itself stay
/// with the hardware outside this model; the only failure decided here is a
/// malformed register address.
#[derive(Clone, Copy, PartialEq, Eq, Structural, Debug)]
pub enum Error {
    /// The register address does not fit in 7 bits.
    InvalidAddress,
}

/// Serial interface mode requested by the DDS chip's configuration.
#[derive(Clone, Copy, PartialEq, Eq, Structural, Debug)]
pub enum DdsMode {
    SingleBitTwoWire,
    SingleBitThreeWire,
    TwoBitSerial,
    FourBitSerial,
}

/// Bus width of the quad-SPI peripheral.
#[derive(Clone, Copy, PartialEq, Eq, Structural, Debug)]
pub enum QspiMode {
    OneBit,
    TwoBit,
    FourBit,
}

/// The bus width that serves each DDS serial mode: both single-bit modes ride
/// a one-bit bus; the wider serial modes need the matching bus width.
pub open spec fn spec_bus_mode(mode: DdsMode) -> QspiMode {
    match mode {
        DdsMode::SingleBitTwoWire => QspiMode::OneBit,
        DdsMode::SingleBitThreeWire => QspiMode::OneBit,
        DdsMode::TwoBitSerial => QspiMode::TwoBit,
        DdsMode::FourBitSerial => QspiMode::FourBit,
    }
}

/// The quad-SPI link: its configured bus width and the transcript of bytes
/// handed to the bus, in order.
pub struct QspiInterface {
    pub mode: QspiMode,
    pub sent: Vec<u8>,
}

impl QspiInterface {
    /// A fresh link: one-bit bus, nothing sent.
    pub fn new() -> (q: Self)
        ensures
            q.mode == QspiMode::OneBit,
            q.sent@ == Seq::<u8>::empty(),
    {
        QspiInterface { mode: QspiMode::OneBit, sent: Vec::new() }
    }

    /// Reconfigure the bus width to serve the given DDS serial mode.
    pub fn configure_mode(&mut self, mode: DdsMode) -> (r: Result<(), Error>)
        ensures
            r is Ok,
            final(self).mode == spec_bus_mode(mode),
            final(self).sent@ == old(self).sent@,
    {
        self.mode = match mode {
            DdsMode::SingleBitTwoWire => QspiMode::OneBit,
            DdsMode::SingleBitThreeWire => QspiMode::OneBit,
            DdsMode::TwoBitSerial => QspiMode::TwoBit,
            DdsMode::FourBitSerial => QspiMode::FourBit,
        };
        Ok(())
    }

    /// Frame a register write: the 7-bit address byte (top bit clear), then
    /// the payload, handed to the bus in order. An address with the top bit
    /// set is rejected untouched.
    pub fn write(&mut self, addr: u8, data: &Vec<u8>) -> (r: Result<(), Error>)
        ensures
            r is Err <==> addr & 0x80 != 0,
            r is Err ==> r == Result::<(), Error>::Err(Error::InvalidAddress) && *final(self)
                == *old(self),
            r is Ok ==> final(self).sent@ == old(self).sent@ + seq![addr] + data@,
            final(self).mode == old(self).mode,
    {
        if (addr & 0x80) != 0 {
            return Err(Error::InvalidAddress);
        }
        let ghost sent0 = self.sent@;
        self.sent.push(addr);
        let mut i: usize = 0;
        while i < data.len()
            invariant
                i <= data.len(),
                self.sent@ == sent0 + seq![addr] + data@.subrange(0, i as int),
                self.mode == old(self).mode,
            decreases data.len() - i,
        {
            self.sent.push(data[i]);
            proof {
                assert(data@.subrange(0, i + 1) =~= data@.subrange(0, i as int).push(data@[i as int]));
                assert(sent0 + seq![addr] + data@.subrange(0, i + 1) =~= (sent0 + seq![addr]
                    + data@.subrange(0, i as int)).push(data@[i as int]));
            }
            i = i + 1;
        }
        proof {
            assert(data@.subrange(0, data@.len() as int) =~= data@);
        }
        Ok(())
    }

    /// Frame a register read: the address byte with the top read bit set is
    /// handed to the bus; the payload bytes then arrive from the device and
    /// land in `dest`, whose length the transfer preserves. An address with
    /// the top bit already set is rejected untouched.
    pub fn read(&mut self, addr: u8, dest: &mut Vec<u8>) -> (r: Result<(), Error>)
        ensures
            r is Err <==> addr & 0x80 != 0,
            r is Err ==> r == Result::<(), Error>::Err(Error::InvalidAddress) && *final(self)
                == *old(self),
            r is Ok ==> final(self).sent@ == old(self).sent@ + seq![addr | 0x80],
            final(self).mode == old(self).mode,
            final(dest)@.len() == old(dest)@.len(),
    {
        if (addr & 0x80) != 0 {
            return Err(Error::InvalidAddress);
        }
        self.sent.push(addr | 0x80);
        Ok(())
    }
}

} // verus!
