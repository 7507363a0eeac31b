use vstd::prelude::*;

use std::collections::HashMap;

use crate::hack::{writes_all, Hack};
use crate::patch::Patch;
use crate::patch::MemoryWrite;

verus! {

broadcast use vstd::std_specs::hash::group_hash_axioms;

/// The hacks the bot knows.
#[derive(Clone, Copy, Debug, PartialEq, Eq, Structural)]
pub enum HackName {
    NoSpike,
    PracticeMusicFix,
    AntiCheatBypass,
    NoRespawnFlash,
    IgnoreEscape,
    DisableDeathEffect,
}

/// The number that stands for a hack in messages: 1 to 6, in declaration order.
pub open spec fn hack_code(name: HackName) -> u16 {
    match name {
        HackName::NoSpike => 1,
        HackName::PracticeMusicFix => 2,
        HackName::AntiCheatBypass => 3,
        HackName::NoRespawnFlash => 4,
        HackName::IgnoreEscape => 5,
        HackName::DisableDeathEffect => 6,
    }
}

/// The hack a number from 1 to 6 stands for.
pub open spec fn hack_of_code(val: u16) -> HackName {
    if val == 1 {
        HackName::NoSpike
    } else if val == 2 {
        HackName::PracticeMusicFix
    } else if val == 3 {
        HackName::AntiCheatBypass
    } else if val == 4 {
        HackName::NoRespawnFlash
    } else if val == 5 {
        HackName::IgnoreEscape
    } else {
        HackName::DisableDeathEffect
    }
}

impl From<HackName> for u16 {
    fn from(hack_name: HackName) -> (r: u16) {
        match hack_name {
            HackName::NoSpike => 1,
            HackName::PracticeMusicFix => 2,
            HackName::AntiCheatBypass => 3,
            HackName::NoRespawnFlash => 4,
            HackName::IgnoreEscape => 5,
            HackName::DisableDeathEffect => 6,
        }
    }
}

impl vstd::std_specs::convert::FromSpecImpl<HackName> for u16 {
    open spec fn obeys_from_spec() -> bool {
        true
    }

    open spec fn from_spec(v: HackName) -> u16 {
        hack_code(v)
    }
}

impl HackName {
    /// The hack that `val` stands for; `val` must be one of 1 to 6.
    pub fn from_u16(val: u16) -> (r: HackName)
        requires
            1 <= val <= 6,
        ensures
            r == hack_of_code(val),
    {
        if val == 1 {
            HackName::NoSpike
        } else if val == 2 {
            HackName::PracticeMusicFix
        } else if val == 3 {
            HackName::AntiCheatBypass
        } else if val == 4 {
            HackName::NoRespawnFlash
        } else if val == 5 {
            HackName::IgnoreEscape
        } else {
            HackName::DisableDeathEffect
        }
    }
}

/// A hack's number leads back to the hack.
pub proof fn hack_code_round_trip(name: HackName)
    ensures
        1 <= hack_code(name) <= 6,
        hack_of_code(hack_code(name)) == name,
{
}

/// Every number from 1 to 6 is the number of the hack it stands for.
pub proof fn hack_of_code_round_trip(val: u16)
    requires
        1 <= val <= 6,
    ensures
        hack_code(hack_of_code(val)) == val,
{
}

/// The hacks, each under its number.
pub struct HackHandler {
    pub hacks: HashMap<u16, Hack>,
}

impl Default for HackHandler {
    /// A handler that knows no hack.
    fn default() -> (r: Self)
        ensures
            r.hacks@ == Map::<u16, Hack>::empty(),
    {
        HackHandler { hacks: HashMap::new() }
    }
}

impl HackHandler {
    /// Registers `hack` under `name`, replacing any hack registered there.
    pub fn add_hack(&mut self, name: HackName, hack: Hack)
        ensures
            final(self).hacks@ == old(self).hacks@.insert(hack_code(name), hack),
    {
        let code: u16 = name.into();
        self.hacks.insert(code, hack);
    }

    /// The writes that apply the hack registered under `name`, which must be
    /// registered.
    pub fn apply(&self, name: HackName) -> (r: Vec<MemoryWrite>)
        requires
            self.hacks@.contains_key(hack_code(name)),
        ensures
            writes_all(r@, self.hacks@[hack_code(name)].patches@, false),
    {
        let code: u16 = name.into();
        let hack = self.hacks.get(&code).unwrap();
        hack.apply()
    }

    /// The writes that restore the hack registered under `name`, which must
    /// be registered.
    pub fn restore(&self, name: HackName) -> (r: Vec<MemoryWrite>)
        requires
            self.hacks@.contains_key(hack_code(name)),
        ensures
            writes_all(r@, self.hacks@[hack_code(name)].patches@, true),
    {
        let code: u16 = name.into();
        let hack = self.hacks.get(&code).unwrap();
        hack.restore()
    }
}

/// Every patch of `h` writes as many bytes as it restores.
pub open spec fn well_formed_hack(h: Hack) -> bool {
    forall|i: int|
        0 <= i < h.patches@.len() ==> (#[trigger] h.patches@[i]).new_bytes@.len()
            == h.patches@[i].original_bytes@.len()
}

/// The patch table of each hack, in the order its patches are applied: for
/// each patch, the offset of its site from the game's base address, the
/// bytes written there, and the game's own bytes.
pub open spec fn hack_table(name: HackName) -> Seq<(usize, Seq<u8>, Seq<u8>)> {
    match name {
        HackName::NoSpike => seq![
            (0x205347usize, seq![0x75u8], seq![0x74u8]),
        ],
        HackName::PracticeMusicFix => seq![
            (0x20C925usize, seq![0x90u8, 0x90u8, 0x90u8, 0x90u8, 0x90u8, 0x90u8], seq![0x0Fu8, 0x85u8, 0xF7u8, 0x00u8, 0x00u8, 0x00u8]),
            (0x20D143usize, seq![0x90u8, 0x90u8], seq![0x75u8, 0x41u8]),
            (0x20A563usize, seq![0x90u8, 0x90u8], seq![0x75u8, 0x3Eu8]),
            (0x20A595usize, seq![0x90u8, 0x90u8], seq![0x75u8, 0x0Cu8]),
            (0x204F10usize, seq![0x90u8, 0x90u8, 0x90u8, 0x90u8, 0x90u8, 0x90u8, 0x90u8, 0x90u8, 0x90u8, 0x90u8, 0x90u8, 0x90u8, 0x90u8], seq![0x80u8, 0xBEu8, 0x95u8, 0x04u8, 0x00u8, 0x00u8, 0x00u8, 0x0Fu8, 0x85u8, 0xDEu8, 0x00u8, 0x00u8, 0x00u8]),
            (0x205536usize, seq![0x90u8, 0x90u8], seq![0x75u8, 0x08u8]),
            (0x20553Eusize, seq![0xEBu8, 0x1Fu8], seq![0x74u8, 0x13u8]),
        ],
        HackName::AntiCheatBypass => seq![
            (0x202AAAusize, seq![0xEBu8, 0x2Eu8], seq![0x74u8, 0x2Eu8]),
            (0x15FC2Eusize, seq![0xEBu8], seq![0x74u8]),
            (0x1FD335usize, seq![0xEBu8], seq![0x74u8]),
            (0x1FD557usize, seq![0xEBu8, 0x0Cu8], seq![0x74u8, 0x0Cu8]),
            (0x1FD742usize, seq![0xC7u8, 0x87u8, 0xE0u8, 0x02u8, 0x00u8, 0x00u8, 0x01u8, 0x00u8, 0x00u8, 0x00u8, 0xC7u8, 0x87u8, 0xE4u8, 0x02u8, 0x00u8, 0x00u8, 0x00u8, 0x00u8, 0x00u8, 0x00u8, 0x90u8, 0x90u8, 0x90u8, 0x90u8, 0x90u8, 0x90u8], seq![0x80u8, 0xBFu8, 0xDDu8, 0x02u8, 0x00u8, 0x00u8, 0x00u8, 0x0Fu8, 0x85u8, 0x0Au8, 0xFEu8, 0xFFu8, 0xFFu8, 0x80u8, 0xBFu8, 0x34u8, 0x05u8, 0x00u8, 0x00u8, 0x00u8, 0x0Fu8, 0x84u8, 0xFDu8, 0xFDu8, 0xFFu8, 0xFFu8]),
            (0x1FD756usize, seq![0x90u8, 0x90u8, 0x90u8, 0x90u8, 0x90u8, 0x90u8], seq![0x0Fu8, 0x84u8, 0xFDu8, 0xFDu8, 0xFFu8, 0xFFu8]),
            (0x1FD79Ausize, seq![0x90u8, 0x90u8, 0x90u8, 0x90u8, 0x90u8, 0x90u8], seq![0x0Fu8, 0x84u8, 0xB9u8, 0xFDu8, 0xFFu8, 0xFFu8]),
            (0x1FD7AFusize, seq![0x90u8, 0x90u8, 0x90u8, 0x90u8, 0x90u8, 0x90u8], seq![0x0Fu8, 0x85u8, 0xA4u8, 0xFDu8, 0xFFu8, 0xFFu8]),
            (0x20D3B3usize, seq![0x90u8, 0x90u8, 0x90u8, 0x90u8, 0x90u8], seq![0xE8u8, 0x58u8, 0x04u8, 0x00u8, 0x00u8]),
            (0x1FF7A2usize, seq![0x90u8, 0x90u8], seq![0x74u8, 0x6Eu8]),
            (0x18B2B4usize, seq![0xB0u8, 0x01u8], seq![0x88u8, 0xD8u8]),
            (0x20C4E6usize, seq![0xE9u8, 0xD7u8, 0x00u8, 0x00u8, 0x00u8, 0x90u8], seq![0x0Fu8, 0x85u8, 0xD6u8, 0x00u8, 0x00u8, 0x00u8]),
        ],
        HackName::NoRespawnFlash => seq![
            (0x1EF36Dusize, seq![0xE9u8, 0xA8u8, 0x00u8, 0x00u8, 0x00u8, 0x90u8], seq![0x0Fu8, 0x85u8, 0xA7u8, 0x00u8, 0x00u8, 0x00u8]),
        ],
        HackName::IgnoreEscape => seq![
            (0x1E644Cusize, seq![0x90u8, 0x90u8, 0x90u8, 0x90u8, 0x90u8], seq![0xE8u8, 0xBFu8, 0x73u8, 0x02u8, 0x00u8]),
        ],
        HackName::DisableDeathEffect => seq![
            (0x1EFBA4usize, seq![0x90u8, 0x90u8, 0x90u8, 0x90u8, 0x90u8], seq![0xE8u8, 0x37u8, 0x00u8, 0x00u8, 0x00u8]),
        ],
    }
}

/// `h` is made of the patches of `table`, in order, each at `base` plus its
/// offset.
pub open spec fn built_from(h: Hack, base: usize, table: Seq<(usize, Seq<u8>, Seq<u8>)>) -> bool {
    &&& h.patches@.len() == table.len()
    &&& forall|i: int|
        0 <= i < table.len() ==> {
            &&& (#[trigger] h.patches@[i]).address == base + table[i].0
            &&& h.patches@[i].new_bytes@ == table[i].1
            &&& h.patches@[i].original_bytes@ == table[i].2
        }
}

/// Appends the patch at `base + offset`.
fn push_patch(patches: &mut Vec<Patch>, base: usize, offset: usize, new_bytes: Vec<u8>, original_bytes: Vec<u8>)
    requires
        base + offset <= usize::MAX,
        new_bytes@.len() == original_bytes@.len(),
    ensures
        final(patches)@.len() == old(patches)@.len() + 1,
        forall|i: int| 0 <= i < old(patches)@.len() ==> #[trigger] final(patches)@[i] == old(patches)@[i],
        final(patches)@.last().address == base + offset,
        final(patches)@.last().new_bytes@ == new_bytes@,
        final(patches)@.last().original_bytes@ == original_bytes@,
{
    patches.push(Patch::new(base + offset, new_bytes, original_bytes));
}

/// The hack NoSpike, with the game's code at `base`.
fn build_no_spike(base: usize) -> (r: Hack)
    requires
        base <= usize::MAX - 0x20D3B3,
    ensures
        built_from(r, base, hack_table(HackName::NoSpike)),
{
    let mut patches: Vec<Patch> = Vec::new();
    push_patch(&mut patches, base, 0x205347, vec![0x75], vec![0x74]);
    let ghost p0 = patches@;
    proof {
        let t = hack_table(HackName::NoSpike);
        assert forall|i: int| 0 <= i < t.len() implies {
            &&& (#[trigger] patches@[i]).address == base + t[i].0
            &&& patches@[i].new_bytes@ == t[i].1
            &&& patches@[i].original_bytes@ == t[i].2
        } by {
            if i == 0 {
                assert(patches@[i] == p0[i]);
            }
        }
    }
    Hack::new(patches)
}

/// The hack PracticeMusicFix, with the game's code at `base`.
fn build_practice_music_fix(base: usize) -> (r: Hack)
    requires
        base <= usize::MAX - 0x20D3B3,
    ensures
        built_from(r, base, hack_table(HackName::PracticeMusicFix)),
{
    let mut patches: Vec<Patch> = Vec::new();
    push_patch(&mut patches, base, 0x20C925, vec![0x90, 0x90, 0x90, 0x90, 0x90, 0x90], vec![0x0F, 0x85, 0xF7, 0x00, 0x00, 0x00]);
    let ghost p0 = patches@;
    push_patch(&mut patches, base, 0x20D143, vec![0x90, 0x90], vec![0x75, 0x41]);
    let ghost p1 = patches@;
    push_patch(&mut patches, base, 0x20A563, vec![0x90, 0x90], vec![0x75, 0x3E]);
    let ghost p2 = patches@;
    push_patch(&mut patches, base, 0x20A595, vec![0x90, 0x90], vec![0x75, 0x0C]);
    let ghost p3 = patches@;
    push_patch(&mut patches, base, 0x204F10, vec![0x90, 0x90, 0x90, 0x90, 0x90, 0x90, 0x90, 0x90, 0x90, 0x90, 0x90, 0x90, 0x90], vec![0x80, 0xBE, 0x95, 0x04, 0x00, 0x00, 0x00, 0x0F, 0x85, 0xDE, 0x00, 0x00, 0x00]);
    let ghost p4 = patches@;
    push_patch(&mut patches, base, 0x205536, vec![0x90, 0x90], vec![0x75, 0x08]);
    let ghost p5 = patches@;
    push_patch(&mut patches, base, 0x20553E, vec![0xEB, 0x1F], vec![0x74, 0x13]);
    let ghost p6 = patches@;
    proof {
        let t = hack_table(HackName::PracticeMusicFix);
        assert forall|i: int| 0 <= i < t.len() implies {
            &&& (#[trigger] patches@[i]).address == base + t[i].0
            &&& patches@[i].new_bytes@ == t[i].1
            &&& patches@[i].original_bytes@ == t[i].2
        } by {
            if i == 0 {
                assert(patches@[i] == p0[i]);
            } else if i == 1 {
                assert(patches@[i] == p1[i]);
            } else if i == 2 {
                assert(patches@[i] == p2[i]);
            } else if i == 3 {
                assert(patches@[i] == p3[i]);
            } else if i == 4 {
                assert(patches@[i] == p4[i]);
            } else if i == 5 {
                assert(patches@[i] == p5[i]);
            } else if i == 6 {
                assert(patches@[i] == p6[i]);
            }
        }
    }
    Hack::new(patches)
}

/// The hack AntiCheatBypass, with the game's code at `base`.
fn build_anti_cheat_bypass(base: usize) -> (r: Hack)
    requires
        base <= usize::MAX - 0x20D3B3,
    ensures
        built_from(r, base, hack_table(HackName::AntiCheatBypass)),
{
    let mut patches: Vec<Patch> = Vec::new();
    push_patch(&mut patches, base, 0x202AAA, vec![0xEB, 0x2E], vec![0x74, 0x2E]);
    let ghost p0 = patches@;
    push_patch(&mut patches, base, 0x15FC2E, vec![0xEB], vec![0x74]);
    let ghost p1 = patches@;
    push_patch(&mut patches, base, 0x1FD335, vec![0xEB], vec![0x74]);
    let ghost p2 = patches@;
    push_patch(&mut patches, base, 0x1FD557, vec![0xEB, 0x0C], vec![0x74, 0x0C]);
    let ghost p3 = patches@;
    push_patch(&mut patches, base, 0x1FD742, vec![0xC7, 0x87, 0xE0, 0x02, 0x00, 0x00, 0x01, 0x00, 0x00, 0x00, 0xC7, 0x87, 0xE4, 0x02, 0x00, 0x00, 0x00, 0x00, 0x00, 0x00, 0x90, 0x90, 0x90, 0x90, 0x90, 0x90], vec![0x80, 0xBF, 0xDD, 0x02, 0x00, 0x00, 0x00, 0x0F, 0x85, 0x0A, 0xFE, 0xFF, 0xFF, 0x80, 0xBF, 0x34, 0x05, 0x00, 0x00, 0x00, 0x0F, 0x84, 0xFD, 0xFD, 0xFF, 0xFF]);
    let ghost p4 = patches@;
    push_patch(&mut patches, base, 0x1FD756, vec![0x90, 0x90, 0x90, 0x90, 0x90, 0x90], vec![0x0F, 0x84, 0xFD, 0xFD, 0xFF, 0xFF]);
    let ghost p5 = patches@;
    push_patch(&mut patches, base, 0x1FD79A, vec![0x90, 0x90, 0x90, 0x90, 0x90, 0x90], vec![0x0F, 0x84, 0xB9, 0xFD, 0xFF, 0xFF]);
    let ghost p6 = patches@;
    push_patch(&mut patches, base, 0x1FD7AF, vec![0x90, 0x90, 0x90, 0x90, 0x90, 0x90], vec![0x0F, 0x85, 0xA4, 0xFD, 0xFF, 0xFF]);
    let ghost p7 = patches@;
    push_patch(&mut patches, base, 0x20D3B3, vec![0x90, 0x90, 0x90, 0x90, 0x90], vec![0xE8, 0x58, 0x04, 0x00, 0x00]);
    let ghost p8 = patches@;
    push_patch(&mut patches, base, 0x1FF7A2, vec![0x90, 0x90], vec![0x74, 0x6E]);
    let ghost p9 = patches@;
    push_patch(&mut patches, base, 0x18B2B4, vec![0xB0, 0x01], vec![0x88, 0xD8]);
    let ghost p10 = patches@;
    push_patch(&mut patches, base, 0x20C4E6, vec![0xE9, 0xD7, 0x00, 0x00, 0x00, 0x90], vec![0x0F, 0x85, 0xD6, 0x00, 0x00, 0x00]);
    let ghost p11 = patches@;
    proof {
        let t = hack_table(HackName::AntiCheatBypass);
        assert forall|i: int| 0 <= i < t.len() implies {
            &&& (#[trigger] patches@[i]).address == base + t[i].0
            &&& patches@[i].new_bytes@ == t[i].1
            &&& patches@[i].original_bytes@ == t[i].2
        } by {
            if i == 0 {
                assert(patches@[i] == p0[i]);
            } else if i == 1 {
                assert(patches@[i] == p1[i]);
            } else if i == 2 {
                assert(patches@[i] == p2[i]);
            } else if i == 3 {
                assert(patches@[i] == p3[i]);
            } else if i == 4 {
                assert(patches@[i] == p4[i]);
            } else if i == 5 {
                assert(patches@[i] == p5[i]);
            } else if i == 6 {
                assert(patches@[i] == p6[i]);
            } else if i == 7 {
                assert(patches@[i] == p7[i]);
            } else if i == 8 {
                assert(patches@[i] == p8[i]);
            } else if i == 9 {
                assert(patches@[i] == p9[i]);
            } else if i == 10 {
                assert(patches@[i] == p10[i]);
            } else if i == 11 {
                assert(patches@[i] == p11[i]);
            }
        }
    }
    Hack::new(patches)
}

/// The hack NoRespawnFlash, with the game's code at `base`.
fn build_no_respawn_flash(base: usize) -> (r: Hack)
    requires
        base <= usize::MAX - 0x20D3B3,
    ensures
        built_from(r, base, hack_table(HackName::NoRespawnFlash)),
{
    let mut patches: Vec<Patch> = Vec::new();
    push_patch(&mut patches, base, 0x1EF36D, vec![0xE9, 0xA8, 0x00, 0x00, 0x00, 0x90], vec![0x0F, 0x85, 0xA7, 0x00, 0x00, 0x00]);
    let ghost p0 = patches@;
    proof {
        let t = hack_table(HackName::NoRespawnFlash);
        assert forall|i: int| 0 <= i < t.len() implies {
            &&& (#[trigger] patches@[i]).address == base + t[i].0
            &&& patches@[i].new_bytes@ == t[i].1
            &&& patches@[i].original_bytes@ == t[i].2
        } by {
            if i == 0 {
                assert(patches@[i] == p0[i]);
            }
        }
    }
    Hack::new(patches)
}

/// The hack IgnoreEscape, with the game's code at `base`.
fn build_ignore_escape(base: usize) -> (r: Hack)
    requires
        base <= usize::MAX - 0x20D3B3,
    ensures
        built_from(r, base, hack_table(HackName::IgnoreEscape)),
{
    let mut patches: Vec<Patch> = Vec::new();
    push_patch(&mut patches, base, 0x1E644C, vec![0x90, 0x90, 0x90, 0x90, 0x90], vec![0xE8, 0xBF, 0x73, 0x02, 0x00]);
    let ghost p0 = patches@;
    proof {
        let t = hack_table(HackName::IgnoreEscape);
        assert forall|i: int| 0 <= i < t.len() implies {
            &&& (#[trigger] patches@[i]).address == base + t[i].0
            &&& patches@[i].new_bytes@ == t[i].1
            &&& patches@[i].original_bytes@ == t[i].2
        } by {
            if i == 0 {
                assert(patches@[i] == p0[i]);
            }
        }
    }
    Hack::new(patches)
}

/// The hack DisableDeathEffect, with the game's code at `base`.
fn build_disable_death_effect(base: usize) -> (r: Hack)
    requires
        base <= usize::MAX - 0x20D3B3,
    ensures
        built_from(r, base, hack_table(HackName::DisableDeathEffect)),
{
    let mut patches: Vec<Patch> = Vec::new();
    push_patch(&mut patches, base, 0x1EFBA4, vec![0x90, 0x90, 0x90, 0x90, 0x90], vec![0xE8, 0x37, 0x00, 0x00, 0x00]);
    let ghost p0 = patches@;
    proof {
        let t = hack_table(HackName::DisableDeathEffect);
        assert forall|i: int| 0 <= i < t.len() implies {
            &&& (#[trigger] patches@[i]).address == base + t[i].0
            &&& patches@[i].new_bytes@ == t[i].1
            &&& patches@[i].original_bytes@ == t[i].2
        } by {
            if i == 0 {
                assert(patches@[i] == p0[i]);
            }
        }
    }
    Hack::new(patches)
}

/// Registers the bot's six hacks, with the game's code at `base`: each hack
/// is made of the patches of its table (see [`hack_table`]), each at `base`
/// plus its offset.
pub fn load_hacks(hack_handler: &mut HackHandler, base: usize)
    requires
        base <= usize::MAX - 0x20D3B3,
    ensures
        forall|name: HackName| #[trigger] final(hack_handler).hacks@.contains_key(hack_code(name)),
        forall|name: HackName|
            built_from(#[trigger] final(hack_handler).hacks@[hack_code(name)], base, hack_table(name)),
        forall|name: HackName| well_formed_hack(#[trigger] final(hack_handler).hacks@[hack_code(name)]),
        forall|k: u16|
            !(1 <= k <= 6) ==> (#[trigger] final(hack_handler).hacks@.contains_key(k)
                == old(hack_handler).hacks@.contains_key(k)),
        forall|k: u16|
            !(1 <= k <= 6) && old(hack_handler).hacks@.contains_key(k) ==> #[trigger] final(hack_handler).hacks@[k]
                == old(hack_handler).hacks@[k],
{
    hack_handler.add_hack(HackName::NoSpike, build_no_spike(base));
    hack_handler.add_hack(HackName::PracticeMusicFix, build_practice_music_fix(base));
    hack_handler.add_hack(HackName::AntiCheatBypass, build_anti_cheat_bypass(base));
    hack_handler.add_hack(HackName::NoRespawnFlash, build_no_respawn_flash(base));
    hack_handler.add_hack(HackName::IgnoreEscape, build_ignore_escape(base));
    hack_handler.add_hack(HackName::DisableDeathEffect, build_disable_death_effect(base));
    proof {
        assert forall|name: HackName|
            #[trigger] hack_handler.hacks@.contains_key(hack_code(name)) && built_from(
                hack_handler.hacks@[hack_code(name)],
                base,
                hack_table(name),
            ) && well_formed_hack(hack_handler.hacks@[hack_code(name)]) by {
            match name {
                HackName::NoSpike => {},
                HackName::PracticeMusicFix => {},
                HackName::AntiCheatBypass => {},
                HackName::NoRespawnFlash => {},
                HackName::IgnoreEscape => {},
                HackName::DisableDeathEffect => {},
            }
        }
    }
}

} // verus!
