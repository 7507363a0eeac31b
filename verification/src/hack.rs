use vstd::prelude::*;

use crate::patch::{covers, lemma_agreeing, lemma_untouched, perform, writes, MemoryWrite, Patch};

verus! {

/// A named feature of the bot: a set of patches applied and restored together.
pub struct Hack {
    pub patches: Vec<Patch>,
}

/// `ws` applies each of `ps`, in order (with `restore`: undoes each).
pub open spec fn writes_all(ws: Seq<MemoryWrite>, ps: Seq<Patch>, restore: bool) -> bool {
    &&& ws.len() == ps.len()
    &&& forall|i: int|
        0 <= i < ps.len() ==> writes(
            #[trigger] ws[i],
            ps[i].address,
            if restore {
                ps[i].original_bytes@
            } else {
                ps[i].new_bytes@
            },
        )
}

impl Hack {
    /// A hack made of the given patches.
    pub fn new(patches: Vec<Patch>) -> (r: Self)
        ensures
            r.patches@ == patches@,
    {
        Hack { patches }
    }

    /// The writes that apply every patch, in order.
    pub fn apply(&self) -> (r: Vec<MemoryWrite>)
        ensures
            writes_all(r@, self.patches@, false),
    {
        let mut out: Vec<MemoryWrite> = Vec::new();
        let n = self.patches.len();
        let mut i: usize = 0;
        while i < n
            invariant
                n == self.patches@.len(),
                i <= n,
                out@.len() == i,
                forall|j: int|
                    0 <= j < i ==> writes(
                        #[trigger] out@[j],
                        self.patches@[j].address,
                        self.patches@[j].new_bytes@,
                    ),
            decreases n - i,
        {
            out.push(self.patches[i].apply());
            i = i + 1;
        }
        out
    }

    /// The writes that restore every patch, in order.
    pub fn restore(&self) -> (r: Vec<MemoryWrite>)
        ensures
            writes_all(r@, self.patches@, true),
    {
        let mut out: Vec<MemoryWrite> = Vec::new();
        let n = self.patches.len();
        let mut i: usize = 0;
        while i < n
            invariant
                n == self.patches@.len(),
                i <= n,
                out@.len() == i,
                forall|j: int|
                    0 <= j < i ==> writes(
                        #[trigger] out@[j],
                        self.patches@[j].address,
                        self.patches@[j].original_bytes@,
                    ),
            decreases n - i,
        {
            out.push(self.patches[i].restore());
            i = i + 1;
        }
        out
    }
}

/// Applying a hack and then restoring it gives back the memory it started
/// from, when every patch site held the patch's original bytes.
pub proof fn restore_undoes_apply(
    h: Hack,
    applied: Seq<MemoryWrite>,
    restored: Seq<MemoryWrite>,
    mem: spec_fn(int) -> u8,
)
    requires
        writes_all(applied, h.patches@, false),
        writes_all(restored, h.patches@, true),
        forall|i: int|
            0 <= i < h.patches@.len() ==> (#[trigger] h.patches@[i]).new_bytes@.len()
                == h.patches@[i].original_bytes@.len(),
        forall|i: int, k: int|
            0 <= i < h.patches@.len() && 0 <= k < h.patches@[i].original_bytes@.len() ==> mem(
                h.patches@[i].address + k,
            ) == (#[trigger] h.patches@[i].original_bytes@[k]),
    ensures
        perform(perform(mem, applied), restored) == mem,
{
    let ps = h.patches@;
    assert forall|a: int| #[trigger] perform(perform(mem, applied), restored)(a) == mem(a) by {
        if exists|i: int| 0 <= i < restored.len() && covers(#[trigger] restored[i], a) {
            assert forall|i: int|
                0 <= i < restored.len() && covers(#[trigger] restored[i], a) implies restored[i].bytes@[a
                - restored[i].address] == mem(a) by {
                assert(writes(restored[i], ps[i].address, ps[i].original_bytes@));
                let k = a - ps[i].address;
                assert(mem(ps[i].address + k) == ps[i].original_bytes@[k]);
            }
            lemma_agreeing(perform(mem, applied), restored, a, mem(a));
        } else {
            assert forall|i: int| 0 <= i < applied.len() implies !covers(#[trigger] applied[i], a) by {
                assert(writes(applied[i], ps[i].address, ps[i].new_bytes@));
                assert(writes(restored[i], ps[i].address, ps[i].original_bytes@));
                assert(!covers(restored[i], a));
            }
            lemma_untouched(perform(mem, applied), restored, a);
            lemma_untouched(mem, applied, a);
        }
    }
    assert(perform(perform(mem, applied), restored) =~= mem);
}

} // verus!
