//! The driver: an interface to the device, and the record of what went over it.

use vstd::prelude::*;
use core::marker::PhantomData;
use crate::interface::{ReadData, WriteData};

verus! {

/// A DS323x real-time clock of model `IC` (see [`crate::ic`]) reached through
/// the interface `DI`.
///
/// Beside the interface the driver keeps, in ghost state, the trace of its
/// bus traffic: every payload handed to `write_data` with the result the
/// interface gave, and every register read with the result of the read.
pub struct Ds323x<DI: ReadData + WriteData, IC> {
    iface: DI,
    sent: Ghost<Seq<(Seq<u8>, Result<(), <DI as WriteData>::Error>)>>,
    received: Ghost<Seq<(u8, Result<u8, <DI as ReadData>::Error>)>>,
    _ic: PhantomData<IC>,
}

impl<DI: ReadData + WriteData, IC> Ds323x<DI, IC> {
    /// The payloads handed to the interface's `write_data`, oldest first, each
    /// with the result of the write.
    pub closed spec fn writes(&self) -> Seq<(Seq<u8>, Result<(), <DI as WriteData>::Error>)> {
        self.sent@
    }

    /// The registers read through the interface, oldest first, each with the
    /// result of the read.
    pub closed spec fn reads(&self) -> Seq<(u8, Result<u8, <DI as ReadData>::Error>)> {
        self.received@
    }

    /// The interface.
    pub closed spec fn interface(&self) -> DI {
        self.iface
    }

    /// Creates a driver for a device reached through `iface`.
    pub fn new(iface: DI) -> (dev: Self)
        ensures
            dev.writes() == Seq::<(Seq<u8>, Result<(), <DI as WriteData>::Error>)>::empty(),
            dev.reads() == Seq::<(u8, Result<u8, <DI as ReadData>::Error>)>::empty(),
            dev.interface() == iface,
    {
        Ds323x { iface, sent: Ghost(Seq::empty()), received: Ghost(Seq::empty()), _ic: PhantomData }
    }

    /// Gives the interface back.
    pub fn destroy(self) -> (iface: DI)
        ensures
            iface == self.interface(),
    {
        self.iface
    }

    /// Reads one register, and records the read.
    pub(crate) fn read_register(&mut self, register: u8) -> (r: Result<u8, <DI as ReadData>::Error>)
        ensures
            final(self).writes() == old(self).writes(),
            final(self).reads() == old(self).reads().push((register, r)),
    {
        let r = self.iface.read_register(register);
        proof {
            self.received@ = self.received@.push((register, r));
        }
        r
    }

    /// Reads `registers` in order, stopping at the first read that fails;
    /// gives the values read when all reads succeed, else the failed read's error.
    pub(crate) fn read_registers(&mut self, registers: &[u8]) -> (r: Result<Vec<u8>, <DI as ReadData>::Error>)
        requires
            1 <= registers@.len(),
        ensures
            final(self).writes() == old(self).writes(),
            reads_in_order(old(self).reads(), final(self).reads(), registers@),
            r is Ok <==> reads_succeeded(old(self).reads(), final(self).reads()),
            r matches Ok(values) ==> values@ == values_read(old(self).reads(), final(self).reads()),
            r matches Err(e) ==> e == read_error(old(self).reads(), final(self).reads()),
    {
        let ghost before = self.reads();
        let mut values: Vec<u8> = Vec::new();
        let mut i: usize = 0;
        while i < registers.len()
            invariant
                i <= registers@.len(),
                values@.len() == i,
                before == old(self).reads(),
                self.writes() == old(self).writes(),
                self.reads() == before + Seq::new(
                    i as nat,
                    |j: int| (registers@[j], Ok::<u8, <DI as ReadData>::Error>(values@[j])),
                ),
            decreases registers@.len() - i,
        {
            let r = self.read_register(registers[i]);
            match r {
                Ok(v) => {
                    values.push(v);
                    proof {
                        assert(self.reads() =~= before + Seq::new(
                            (i + 1) as nat,
                            |j: int| (registers@[j], Ok::<u8, <DI as ReadData>::Error>(values@[j])),
                        ));
                    }
                },
                Err(e) => {
                    proof {
                        let added = appended_reads(before, self.reads());
                        assert(added =~= Seq::new(
                            i as nat,
                            |j: int| (registers@[j], Ok::<u8, <DI as ReadData>::Error>(values@[j])),
                        ).push((registers@[i as int], Err::<u8, <DI as ReadData>::Error>(e))));
                        assert(self.reads().subrange(0, before.len() as int) =~= before);
                        assert(!(added[i as int].1 is Ok));
                    }
                    return Err(e);
                },
            }
            i += 1;
        }
        proof {
            let added = appended_reads(before, self.reads());
            assert(added =~= Seq::new(
                i as nat,
                |j: int| (registers@[j], Ok::<u8, <DI as ReadData>::Error>(values@[j])),
            ));
            assert(self.reads().subrange(0, before.len() as int) =~= before);
            assert(values_read(before, self.reads()) =~= values@);
        }
        Ok(values)
    }

    /// Hands a payload to the interface, and records it with the result.
    pub(crate) fn write_data(&mut self, payload: &mut [u8]) -> (r: Result<(), <DI as WriteData>::Error>)
        ensures
            final(self).writes() == old(self).writes().push((old(payload)@, r)),
            final(self).reads() == old(self).reads(),
    {
        let ghost handed = payload@;
        let r = self.iface.write_data(payload);
        proof {
            self.sent@ = self.sent@.push((handed, r));
        }
        r
    }
}

/// The reads appended to the trace `before` to give `after`.
pub open spec fn appended_reads<X>(before: Seq<(u8, Result<u8, X>)>, after: Seq<(u8, Result<u8, X>)>) -> Seq<(u8, Result<u8, X>)> {
    after.subrange(before.len() as int, after.len() as int)
}

/// `after` is `before` followed by reads of `registers` in order, stopping
/// at the first read that failed.
pub open spec fn reads_in_order<X>(before: Seq<(u8, Result<u8, X>)>, after: Seq<(u8, Result<u8, X>)>, registers: Seq<u8>) -> bool {
    let added = appended_reads(before, after);
    &&& before.len() <= after.len()
    &&& after.subrange(0, before.len() as int) == before
    &&& 1 <= added.len() <= registers.len()
    &&& forall|i: int| 0 <= i < added.len() ==> #[trigger] added[i].0 == registers[i]
    &&& forall|i: int| 0 <= i < added.len() - 1 ==> #[trigger] added[i].1 is Ok
    &&& added.len() < registers.len() ==> added.last().1 is Err
}

/// Whether every read appended to `before` to give `after` succeeded.
pub open spec fn reads_succeeded<X>(before: Seq<(u8, Result<u8, X>)>, after: Seq<(u8, Result<u8, X>)>) -> bool {
    forall|i: int| 0 <= i < appended_reads(before, after).len() ==> (#[trigger] appended_reads(before, after)[i]).1 is Ok
}

/// The values of the reads appended to `before` to give `after`.
pub open spec fn values_read<X>(before: Seq<(u8, Result<u8, X>)>, after: Seq<(u8, Result<u8, X>)>) -> Seq<u8> {
    appended_reads(before, after).map_values(|p: (u8, Result<u8, X>)| p.1->Ok_0)
}

/// The error of the last read appended to `before` to give `after`.
pub open spec fn read_error<X>(before: Seq<(u8, Result<u8, X>)>, after: Seq<(u8, Result<u8, X>)>) -> X {
    appended_reads(before, after).last().1->Err_0
}

} // verus!
