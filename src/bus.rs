use vstd::prelude::*;

verus! {

/// Size of the memory that a `MainBus` is built with: the whole 16-bit space.
pub const RAM_SIZE: usize = 0x10000;

/// What a bus connection is: a provider of bytes by 16-bit address.
pub trait CommunicationInterface {
    /// The byte stored at `address`, or `None` where nothing is mapped.
    spec fn peek(&self, address: u16) -> Option<u8>;

    /// Reads the byte at `address`.
    fn read(&self, address: u16) -> (r: Option<u8>)
        ensures
            r == self.peek(address),
    ;

    /// Writes `data` at `address`; an unmapped address takes nothing.
    fn write(&mut self, address: u16, data: u8)
        ensures
            forall|a: u16|
                #[trigger] final(self).peek(a) == if a == address && old(self).peek(a).is_some() {
                    Some(data)
                } else {
                    old(self).peek(a)
                },
    ;

    /// The mapped bytes from `address` on, up to `len` of them and up to the
    /// end of the address space; `None` when that yields no byte.
    fn read_seq(&self, address: u16, len: u16) -> (r: Option<Vec<u8>>)
        ensures
            r.is_none() <==> mapped_run(|a: u16| self.peek(a), address as int, run_end(address, len)).len() == 0,
            r.is_some() ==> r.unwrap()@ == mapped_run(|a: u16| self.peek(a), address as int, run_end(address, len)),
    ;
}

/// The mapped bytes of the addresses `start .. end`, in address order.
pub open spec fn mapped_run(peek: spec_fn(u16) -> Option<u8>, start: int, end: int) -> Seq<u8>
    decreases end - start,
{
    if start >= end {
        Seq::empty()
    } else {
        let rest = mapped_run(peek, start + 1, end);
        match peek(start as u16) {
            Some(b) => seq![b] + rest,
            None => rest,
        }
    }
}

/// One past the last address of `len` addresses from `start`, clipped at the
/// end of the 16-bit address space.
pub open spec fn run_end(start: u16, len: u16) -> int {
    if start + len > 0x10000 {
        0x10000
    } else {
        start + len
    }
}

/// Plain random-access memory behind the bus.
pub struct MainBus {
    pub mem: Vec<u8>,
}

/// The byte at `address` of a memory `mem`, if the memory reaches that far.
pub open spec fn mem_peek(mem: Seq<u8>, address: u16) -> Option<u8> {
    if (address as int) < mem.len() {
        Some(mem[address as int])
    } else {
        None
    }
}

impl MainBus {
    /// A memory of `RAM_SIZE` zero bytes.
    pub fn new() -> (r: Self)
        ensures
            r.mem@ == Seq::new(RAM_SIZE as nat, |i: int| 0u8),
    {
        let mut mem: Vec<u8> = Vec::new();
        let mut i: usize = 0;
        while i < RAM_SIZE
            invariant
                i <= RAM_SIZE,
                mem@ == Seq::new(i as nat, |k: int| 0u8),
            decreases RAM_SIZE - i,
        {
            mem.push(0);
            i = i + 1;
            assert(mem@ =~= Seq::new(i as nat, |k: int| 0u8));
        }
        MainBus { mem }
    }
}

impl MainBus {
    /// The byte at `address`, if the memory reaches that far.
    pub fn load(&self, address: u16) -> (r: Option<u8>)
        ensures
            r == mem_peek(self.mem@, address),
    {
        let addr = address as usize;
        if addr >= self.mem.len() {
            return None;
        }
        Some(self.mem[addr])
    }

    /// Stores `data` at `address`, if the memory reaches that far.
    pub fn store(&mut self, address: u16, data: u8)
        ensures
            final(self).mem@ == mem_store(old(self).mem@, address, data),
    {
        let addr = address as usize;
        if addr >= self.mem.len() {
            return;
        }
        self.mem.set(addr, data);
    }
}

/// `mem` after a store of `data` at `address`.
pub open spec fn mem_store(mem: Seq<u8>, address: u16, data: u8) -> Seq<u8> {
    if (address as int) < mem.len() {
        mem.update(address as int, data)
    } else {
        mem
    }
}

impl CommunicationInterface for MainBus {
    open spec fn peek(&self, address: u16) -> Option<u8> {
        mem_peek(self.mem@, address)
    }

    fn read(&self, address: u16) -> (r: Option<u8>) {
        self.load(address)
    }

    fn write(&mut self, address: u16, data: u8) {
        self.store(address, data);
    }

    fn read_seq(&self, starting_address: u16, len: u16) -> (r: Option<Vec<u8>>) {
        let mut result: Vec<u8> = Vec::new();
        let ghost peek = |a: u16| self.peek(a);
        let limit: u32 = if starting_address as u32 + len as u32 > 0x10000 {
            0x10000
        } else {
            starting_address as u32 + len as u32
        };
        let mut address: u32 = starting_address as u32;
        while address < limit
            invariant
                starting_address <= address <= limit <= 0x10000,
                limit == run_end(starting_address, len),
                peek == (|a: u16| self.peek(a)),
                result@ + mapped_run(peek, address as int, limit as int) == mapped_run(peek, starting_address as int, limit as int),
            decreases limit - address,
        {
            let ghost before = result@;
            let ghost rest = mapped_run(peek, address + 1, limit as int);
            if let Some(data) = self.read(address as u16) {
                result.push(data);
                assert(before + (seq![data] + rest) =~= result@ + rest);
            }
            address = address + 1;
        }
        if result.len() > 0 {
            return Some(result);
        }
        None
    }
}

} // verus!
