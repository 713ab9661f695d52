use vstd::prelude::*;

use crate::emulator::lifecycle::Lifecycle;

use super::bus_device::BusDevice;
use super::error::SystemBusError;

verus! {

/// Byte-addressed random-access memory.
#[derive(Debug)]
pub struct Ram {
    bytes: Vec<u8>,
}

impl View for Ram {
    type V = Seq<u8>;

    closed spec fn view(&self) -> Seq<u8> {
        self.bytes@
    }
}

impl Ram {
    /// A RAM holds at most 2^32 - 1 bytes, so that its size is a `u32`.
    pub open spec fn wf(&self) -> bool {
        self@.len() <= u32::MAX
    }

    /// Whether the size of this RAM fits a `u32`.
    pub fn size_fits(&self) -> (r: bool)
        ensures
            r == self.wf(),
    {
        self.bytes.len() <= u32::MAX as usize
    }

    /// `size` zero bytes.
    pub fn new(size: u32) -> (r: Self)
        ensures
            r.wf(),
            r@ == Seq::new(size as nat, |i: int| 0u8),
    {
        let r = Self { bytes: vec![0u8; size as usize] };
        assert(r@ =~= Seq::new(size as nat, |i: int| 0u8));
        r
    }

    /// `size` bytes that start with `data` and are zero after it.
    pub fn from_bytes(size: u32, data: &[u8]) -> (r: Self)
        requires
            data@.len() <= size,
        ensures
            r.wf(),
            r@ == data@ + Seq::new((size - data@.len()) as nat, |i: int| 0u8),
    {
        let mut bytes: Vec<u8> = Vec::new();
        let mut i: usize = 0;
        while i < data.len()
            invariant
                i <= data@.len(),
                bytes@ == data@.subrange(0, i as int),
            decreases data@.len() - i,
        {
            bytes.push(data[i]);
            i += 1;
        }
        while bytes.len() < size as usize
            invariant
                data@.len() <= bytes@.len() <= size,
                bytes@.subrange(0, data@.len() as int) == data@,
                forall|j: int| data@.len() <= j < bytes@.len() ==> bytes@[j] == 0u8,
            decreases size - bytes@.len(),
        {
            bytes.push(0u8);
        }
        let r = Self { bytes };
        assert(r@ =~= data@ + Seq::new((size - data@.len()) as nat, |i: int| 0u8));
        r
    }

    /// Copies `image` into memory starting at `base_addr`.
    pub fn write_slice(&mut self, base_addr: u32, image: &[u8]) -> (r: Result<(), SystemBusError>)
        ensures
            final(self)@.len() == old(self)@.len(),
            r is Err <==> base_addr + image@.len() > old(self)@.len(),
            r is Err ==> final(self)@ == old(self)@,
            r == Err::<(), SystemBusError>(SystemBusError::AddressOverflow) <==> base_addr + image@.len() > usize::MAX,
            r is Err && base_addr + image@.len() <= usize::MAX ==> r == Err::<(), SystemBusError>(
                SystemBusError::AddressUnmapped { addr: (base_addr + image@.len()) as u32 },
            ),
            r is Ok ==> final(self)@ == old(self)@.subrange(0, base_addr as int) + image@ + old(self)@.subrange(
                base_addr + image@.len(),
                old(self)@.len() as int,
            ),
    {
        let len = self.bytes.len();
        let start = base_addr as usize;
        if image.len() > usize::MAX - start {
            return Err(SystemBusError::AddressOverflow);
        }
        let end = start + image.len();
        if end > len {
            return Err(SystemBusError::AddressUnmapped { addr: end as u32 });
        }
        let mut i: usize = 0;
        while i < image.len()
            invariant
                len == self@.len(),
                end == start + image@.len(),
                end <= self@.len(),
                self@.len() == old(self)@.len(),
                i <= image@.len(),
                forall|j: int| 0 <= j < start ==> self@[j] == old(self)@[j],
                forall|j: int| end <= j < self@.len() ==> self@[j] == old(self)@[j],
                forall|j: int| 0 <= j < i ==> self@[start + j] == image@[j],
                forall|j: int| start + i <= j < end ==> self@[j] == old(self)@[j],
            decreases image@.len() - i,
        {
            self.bytes.set(start + i, image[i]);
            i += 1;
        }
        assert(self@ =~= old(self)@.subrange(0, base_addr as int) + image@ + old(self)@.subrange(
            base_addr + image@.len(),
            old(self)@.len() as int,
        ));
        Ok(())
    }
}

impl Lifecycle for Ram {
}

impl BusDevice for Ram {
    fn size(&self) -> (r: u32)
        ensures
            self.wf() ==> r == self@.len(),
    {
        self.bytes.len() as u32
    }

    fn read8(&mut self, offset: u32) -> (r: Option<u8>)
        ensures
            final(self)@ == old(self)@,
            r == (if offset < old(self)@.len() { Some(old(self)@[offset as int]) } else { None::<u8> }),
    {
        if (offset as usize) < self.bytes.len() {
            Some(self.bytes[offset as usize])
        } else {
            None
        }
    }

    fn write8(&mut self, offset: u32, value: u8) -> (r: Option<()>)
        ensures
            offset < old(self)@.len() ==> r is Some && final(self)@ == old(self)@.update(offset as int, value),
            offset >= old(self)@.len() ==> r is None && final(self)@ == old(self)@,
    {
        if (offset as usize) < self.bytes.len() {
            self.bytes.set(offset as usize, value);
            Some(())
        } else {
            None
        }
    }
}

} // verus!
