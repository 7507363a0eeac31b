use omegabot::hack::Hack;
use omegabot::hack_handler::{load_hacks, HackHandler, HackName};
use omegabot::mutex_count::MutexCount;
use omegabot::patch::Patch;

fn sample_hack() -> Hack {
    Hack::new(vec![
        Patch::new(0x100, vec![0x90, 0x90], vec![0x75, 0x41]),
        Patch::new(0x200, vec![0xEB], vec![0x74]),
    ])
}

#[test]
fn patch_writes() {
    let p = Patch::new(0x10, vec![1, 2, 3], vec![4, 5, 6]);
    let w = p.apply();
    assert_eq!(w.address, 0x10);
    assert_eq!(w.bytes, vec![1, 2, 3]);
    let r = p.restore();
    assert_eq!(r.address, 0x10);
    assert_eq!(r.bytes, vec![4, 5, 6]);
}

#[test]
fn hack_writes_every_patch_in_order() {
    let h = sample_hack();
    let applied = h.apply();
    assert_eq!(applied.len(), 2);
    assert_eq!((applied[0].address, applied[0].bytes.clone()), (0x100, vec![0x90, 0x90]));
    assert_eq!((applied[1].address, applied[1].bytes.clone()), (0x200, vec![0xEB]));
    let restored = h.restore();
    assert_eq!((restored[0].address, restored[0].bytes.clone()), (0x100, vec![0x75, 0x41]));
    assert_eq!((restored[1].address, restored[1].bytes.clone()), (0x200, vec![0x74]));
}

#[test]
fn apply_then_restore_gives_back_memory() {
    let h = sample_hack();
    let mut mem = vec![0u8; 0x300];
    mem[0x100] = 0x75;
    mem[0x101] = 0x41;
    mem[0x200] = 0x74;
    let before = mem.clone();
    for w in h.apply().into_iter().chain(h.restore()) {
        for (k, b) in w.bytes.iter().enumerate() {
            mem[w.address + k] = *b;
        }
    }
    assert_eq!(mem, before);
}

#[test]
fn handler_applies_registered_hacks() {
    let mut handler = HackHandler::default();
    handler.add_hack(HackName::NoSpike, sample_hack());
    assert_eq!(handler.apply(HackName::NoSpike)[1].bytes, vec![0xEB]);
    handler.add_hack(HackName::NoSpike, Hack::new(vec![Patch::new(5, vec![9], vec![8])]));
    let w = handler.restore(HackName::NoSpike);
    assert_eq!(w.len(), 1);
    assert_eq!(w[0].bytes, vec![8]);
}

#[test]
fn mutex_count() {
    let mut m = MutexCount::default();
    assert!(m.wait());
    m.lock();
    m.lock();
    assert!(!m.wait());
    m.unlock();
    assert_eq!(m.lock, 1);
    m.unlock();
    m.unlock();
    assert_eq!(m.lock, 0);
    assert!(m.wait());
    m.lock();
    m.clear();
    assert!(m.wait());
    m.lock();
    m.deactivate();
    assert!(m.wait());
    m.lock();
    assert_eq!(m.lock, 1);
    m.unlock();
    assert_eq!(m.lock, 1);
}

#[test]
fn load_hacks_registers_all_six() {
    let mut handler = HackHandler::default();
    load_hacks(&mut handler, 0x400000);
    assert_eq!(handler.hacks.len(), 6);
    let no_spike = handler.apply(HackName::NoSpike);
    assert_eq!(no_spike.len(), 1);
    assert_eq!(no_spike[0].address, 0x400000 + 0x205347);
    assert_eq!(no_spike[0].bytes, vec![0x75]);
    assert_eq!(handler.restore(HackName::NoSpike)[0].bytes, vec![0x74]);
    assert_eq!(handler.apply(HackName::PracticeMusicFix).len(), 7);
    assert_eq!(handler.apply(HackName::AntiCheatBypass).len(), 12);
    assert_eq!(handler.apply(HackName::NoRespawnFlash).len(), 1);
    assert_eq!(handler.apply(HackName::IgnoreEscape)[0].bytes, vec![0x90; 5]);
    assert_eq!(handler.restore(HackName::DisableDeathEffect)[0].bytes, vec![0xE8, 0x37, 0x00, 0x00, 0x00]);
}
