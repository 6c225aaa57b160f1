use vstd::prelude::*;

verus! {

/// One addressed transaction on the bus.
///
/// `bytes` holds what was written, or what the transport left in the
/// caller's buffer; `result` is what the transport returned.
pub enum Transfer<E> {
    Read { address: u8, bytes: Seq<u8>, result: Result<(), E> },
    Write { address: u8, bytes: Seq<u8>, result: Result<(), E> },
}

/// A transport able to perform addressed reads and writes on a two-wire bus.
///
/// `transfers` is the history of the transactions performed through the
/// transport, oldest first; each call appends exactly one entry, holding the
/// call's address, its bytes and the result it returned.
pub trait Bus {
    type Error;

    /// The transactions performed so far. An implementation defines its own
    /// model; the default is an unspecified sequence, under which no call
    /// can meet its contract.
    open spec fn transfers(&self) -> Seq<Transfer<Self::Error>> {
        arbitrary()
    }

    /// Reads `buf.len()` bytes starting at `address` into `buf`.
    fn read(&mut self, address: u8, buf: &mut [u8]) -> (r: Result<(), Self::Error>)
        ensures
            final(buf)@.len() == old(buf)@.len(),
            final(self).transfers() == old(self).transfers().push(
                Transfer::Read { address, bytes: final(buf)@, result: r },
            ),
    ;

    /// Writes `bytes` starting at `address`.
    fn write(&mut self, address: u8, bytes: &[u8]) -> (r: Result<(), Self::Error>)
        ensures
            final(self).transfers() == old(self).transfers().push(
                Transfer::Write { address, bytes: bytes@, result: r },
            ),
    ;
}

/// The error of [`SimulatedBus`]: the transaction was not acknowledged.
#[derive(Clone, Copy, Debug, PartialEq, Eq, Structural)]
pub struct BusError;

/// One transaction recorded by [`SimulatedBus`].
pub struct Record {
    pub read: bool,
    pub address: u8,
    pub bytes: Vec<u8>,
    pub ok: bool,
}

impl View for Record {
    type V = Transfer<BusError>;

    open spec fn view(&self) -> Transfer<BusError> {
        let result = if self.ok {
            Ok(())
        } else {
            Err(BusError)
        };
        if self.read {
            Transfer::Read { address: self.address, bytes: self.bytes@, result }
        } else {
            Transfer::Write { address: self.address, bytes: self.bytes@, result }
        }
    }
}

/// An in-memory transport: reads answer from `memory`, indexed by the
/// transaction address (0 past its end), writes leave it alone, every
/// transaction is appended to `log`, and once `successes_left` transactions
/// have succeeded every further one fails.
pub struct SimulatedBus {
    pub memory: Vec<u8>,
    pub successes_left: usize,
    pub log: Vec<Record>,
}

impl SimulatedBus {
    /// A transport over `memory` that acknowledges the first `successes`
    /// transactions and no later one.
    pub fn new(memory: Vec<u8>, successes: usize) -> (b: Self)
        ensures
            b.memory@ == memory@,
            b.successes_left == successes,
            b.log@.len() == 0,
    {
        SimulatedBus { memory, successes_left: successes, log: Vec::new() }
    }

    /// Takes one transaction's outcome: success while any is left.
    fn acknowledge(&mut self) -> (ok: bool)
        ensures
            ok == (old(self).successes_left > 0),
            final(self).successes_left == if ok {
                (old(self).successes_left - 1) as usize
            } else {
                0
            },
            final(self).memory == old(self).memory,
            final(self).log == old(self).log,
    {
        if self.successes_left > 0 {
            self.successes_left = self.successes_left - 1;
            true
        } else {
            false
        }
    }

    /// Appends `record` to the log.
    fn record(&mut self, record: Record)
        ensures
            final(self).transfers() == old(self).transfers().push(record@),
            final(self).memory == old(self).memory,
            final(self).successes_left == old(self).successes_left,
    {
        let ghost before = self.log@;
        self.log.push(record);
        assert(self.log@.map_values(|r: Record| r@) =~= before.map_values(|r: Record| r@).push(
            record@,
        ));
    }

    /// The byte a read at `at` answers with.
    fn byte_at(&self, at: usize) -> (b: u8)
        ensures
            b == if at < self.memory@.len() {
                self.memory@[at as int]
            } else {
                0
            },
    {
        if at < self.memory.len() {
            self.memory[at]
        } else {
            0
        }
    }
}

/// Copies `bytes` into a new vector.
fn copy_bytes(bytes: &[u8]) -> (v: Vec<u8>)
    ensures
        v@ == bytes@,
{
    let mut v: Vec<u8> = Vec::new();
    let mut i: usize = 0;
    while i < bytes.len()
        invariant
            i <= bytes@.len(),
            v@ == bytes@.subrange(0, i as int),
        decreases bytes@.len() - i,
    {
        v.push(bytes[i]);
        i = i + 1;
    }
    assert(bytes@.subrange(0, bytes@.len() as int) =~= bytes@);
    v
}

impl Bus for SimulatedBus {
    type Error = BusError;

    open spec fn transfers(&self) -> Seq<Transfer<BusError>> {
        self.log@.map_values(|r: Record| r@)
    }

    fn read(&mut self, address: u8, buf: &mut [u8]) -> (r: Result<(), BusError>) {
        let ok = self.acknowledge();
        if ok {
            let mut i: usize = 0;
            while i < buf.len()
                invariant
                    i <= buf@.len(),
                    buf@.len() == old(buf)@.len(),
                decreases buf@.len() - i,
            {
                buf[i] = self.byte_at((address as usize).saturating_add(i));
                i = i + 1;
            }
        }
        let bytes = copy_bytes(buf);
        self.record(Record { read: true, address, bytes, ok });
        if ok {
            Ok(())
        } else {
            Err(BusError)
        }
    }

    fn write(&mut self, address: u8, bytes: &[u8]) -> (r: Result<(), BusError>) {
        let ok = self.acknowledge();
        let copy = copy_bytes(bytes);
        self.record(Record { read: false, address, bytes: copy, ok });
        if ok {
            Ok(())
        } else {
            Err(BusError)
        }
    }
}

} // verus!
