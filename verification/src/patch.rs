use vstd::prelude::*;

verus! {

/// Bytes to write into the game's memory at an address.
pub struct MemoryWrite {
    pub address: usize,
    pub bytes: Vec<u8>,
}

/// A change to the game's code: the bytes to write at an address, and the
/// bytes that stood there before.
pub struct Patch {
    pub address: usize,
    pub new_bytes: Vec<u8>,
    pub original_bytes: Vec<u8>,
}

/// `w` writes `bytes` at `address`.
pub open spec fn writes(w: MemoryWrite, address: usize, bytes: Seq<u8>) -> bool {
    w.address == address && w.bytes@ == bytes
}

/// `w` writes the byte at address `a`.
pub open spec fn covers(w: MemoryWrite, a: int) -> bool {
    w.address <= a < w.address + w.bytes@.len()
}

/// Memory (a byte at each address) after the write `w`.
pub open spec fn write_to(mem: spec_fn(int) -> u8, w: MemoryWrite) -> spec_fn(int) -> u8 {
    |a: int|
        if covers(w, a) {
            w.bytes@[a - w.address]
        } else {
            mem(a)
        }
}

/// Memory after the writes `ws`, in order.
pub open spec fn perform(mem: spec_fn(int) -> u8, ws: Seq<MemoryWrite>) -> spec_fn(int) -> u8
    decreases ws.len(),
{
    if ws.len() == 0 {
        mem
    } else {
        write_to(perform(mem, ws.drop_last()), ws.last())
    }
}

/// Writes that do not touch an address leave it as it was.
pub proof fn lemma_untouched(mem: spec_fn(int) -> u8, ws: Seq<MemoryWrite>, a: int)
    requires
        forall|i: int| 0 <= i < ws.len() ==> !covers(#[trigger] ws[i], a),
    ensures
        perform(mem, ws)(a) == mem(a),
    decreases ws.len(),
{
    if ws.len() > 0 {
        lemma_untouched(mem, ws.drop_last(), a);
        assert(!covers(ws[ws.len() - 1], a));
    }
}

/// Writes that all put the same byte `v` at an address, at least one of
/// them touching it, leave `v` there.
pub proof fn lemma_agreeing(mem: spec_fn(int) -> u8, ws: Seq<MemoryWrite>, a: int, v: u8)
    requires
        exists|i: int| 0 <= i < ws.len() && covers(#[trigger] ws[i], a),
        forall|i: int|
            0 <= i < ws.len() && covers(#[trigger] ws[i], a) ==> ws[i].bytes@[a - ws[i].address] == v,
    ensures
        perform(mem, ws)(a) == v,
    decreases ws.len(),
{
    let last = ws[ws.len() - 1];
    if !covers(last, a) {
        let i = choose|i: int| 0 <= i < ws.len() && covers(#[trigger] ws[i], a);
        assert(ws.drop_last()[i] == ws[i]);
        lemma_agreeing(mem, ws.drop_last(), a, v);
    }
}

fn copy_bytes(v: &Vec<u8>) -> (r: Vec<u8>)
    ensures
        r@ == v@,
{
    let r = v.clone();
    assert(r@ =~= v@);
    r
}

impl Patch {
    /// A patch; the new and the original bytes must be equally long.
    pub fn new(address: usize, new_bytes: Vec<u8>, original_bytes: Vec<u8>) -> (r: Self)
        requires
            new_bytes@.len() == original_bytes@.len(),
        ensures
            r.address == address,
            r.new_bytes@ == new_bytes@,
            r.original_bytes@ == original_bytes@,
    {
        Patch { address, new_bytes, original_bytes }
    }

    /// The write that applies the patch.
    pub fn apply(&self) -> (r: MemoryWrite)
        ensures
            writes(r, self.address, self.new_bytes@),
    {
        MemoryWrite { address: self.address, bytes: copy_bytes(&self.new_bytes) }
    }

    /// The write that undoes the patch.
    pub fn restore(&self) -> (r: MemoryWrite)
        ensures
            writes(r, self.address, self.original_bytes@),
    {
        MemoryWrite { address: self.address, bytes: copy_bytes(&self.original_bytes) }
    }
}

} // verus!
