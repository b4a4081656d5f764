use vmm_config::pages::LockedGpns;
use vmm_config::pages::LockedOverlayPage;
use vmm_config::pages::MapGpaFlags;
use vmm_config::pages::OverlayPage;
use vmm_config::pages::VtlProtectAccess;
use vmm_config::pages::PAGE_LEN;

/// Guest memory of a few pages, with a record of which pages are locked.
struct FakeProtect {
    memory: Vec<[u8; PAGE_LEN]>,
    locked: Vec<u64>,
    unlocked: Vec<u64>,
}

impl FakeProtect {
    fn new(pages: usize) -> Self {
        FakeProtect {
            memory: (0..pages).map(|i| [i as u8 + 100; PAGE_LEN]).collect(),
            locked: Vec::new(),
            unlocked: Vec::new(),
        }
    }
}

impl VtlProtectAccess for FakeProtect {
    type Error = &'static str;

    fn locked_gpns(&self) -> LockedGpns {
        unreachable!("the locked set is a description used in proofs only")
    }

    fn lock_permits(&self, _gpn: u64, _flags: MapGpaFlags) -> bool {
        unreachable!("the lock permission is a description used in proofs only")
    }

    fn check_modify_and_lock_overlay_page(
        &mut self,
        gpn: u64,
        flags: MapGpaFlags,
    ) -> Result<LockedOverlayPage, &'static str> {
        assert!(flags.readable && flags.writable);
        let page = self.memory.get(gpn as usize).ok_or("no such page")?;
        self.locked.push(gpn);
        Ok(LockedOverlayPage::new(Box::new(*page), gpn))
    }

    fn unlock_overlay_page(&mut self, gpn: u64) -> Result<(), &'static str> {
        self.unlocked.push(gpn);
        Ok(())
    }
}

#[test]
fn new_page_is_local_zeroes() {
    let page = OverlayPage::new();
    assert!(matches!(page, OverlayPage::Local(_)));
    assert_eq!(page.page(), &[0u8; PAGE_LEN]);
    let default = OverlayPage::default();
    assert_eq!(default.page(), &[0u8; PAGE_LEN]);
}

#[test]
fn remap_carries_contents_and_unlocks_previous() {
    let mut prot = FakeProtect::new(4);
    let mut page = OverlayPage::new();
    page.remap(2, &mut prot).unwrap();
    assert!(matches!(&page, OverlayPage::Mapped(p) if p.gpn() == 2));
    // The zeroes of the local page were carried over into the mapped page.
    assert_eq!(page.page(), &[0u8; PAGE_LEN]);
    assert!(prot.unlocked.is_empty());

    page.remap(3, &mut prot).unwrap();
    assert!(matches!(&page, OverlayPage::Mapped(p) if p.gpn() == 3));
    assert_eq!(page.page(), &[0u8; PAGE_LEN]);
    assert_eq!(prot.locked, vec![2, 3]);
    assert_eq!(prot.unlocked, vec![2]);
}

#[test]
fn remap_failure_leaves_page_as_it_was() {
    let mut prot = FakeProtect::new(2);
    let mut page = OverlayPage::new();
    page.remap(1, &mut prot).unwrap();
    assert_eq!(page.remap(9, &mut prot), Err("no such page"));
    assert!(matches!(&page, OverlayPage::Mapped(p) if p.gpn() == 1));
    assert!(prot.unlocked.is_empty());
}

#[test]
fn unmap_moves_contents_local_and_unlocks() {
    let mut prot = FakeProtect::new(2);
    let mut page = OverlayPage::Mapped(LockedOverlayPage::new(Box::new([7u8; PAGE_LEN]), 1));
    page.unmap(&mut prot);
    assert!(matches!(page, OverlayPage::Local(_)));
    assert_eq!(page.page(), &[7u8; PAGE_LEN]);
    assert_eq!(prot.unlocked, vec![1]);

    // Unmapping a local page unlocks nothing.
    page.unmap(&mut prot);
    assert_eq!(page.page(), &[7u8; PAGE_LEN]);
    assert_eq!(prot.unlocked, vec![1]);
}

#[test]
fn remap_then_unmap_keeps_contents() {
    let mut prot = FakeProtect::new(2);
    let mut page = OverlayPage::Mapped(LockedOverlayPage::new(Box::new([5u8; PAGE_LEN]), 0));
    page.remap(1, &mut prot).unwrap();
    page.unmap(&mut prot);
    assert_eq!(page.page(), &[5u8; PAGE_LEN]);
    assert_eq!(prot.unlocked, vec![0, 1]);
}

#[test]
fn remap_locked_follows_the_lock_outcome() {
    let mut prot = FakeProtect::new(2);
    let mut page = OverlayPage::Mapped(LockedOverlayPage::new(Box::new([3u8; PAGE_LEN]), 0));
    assert_eq!(page.remap_locked(Err("refused"), &mut prot), Err("refused"));
    assert!(matches!(&page, OverlayPage::Mapped(p) if p.gpn() == 0));
    assert!(prot.unlocked.is_empty());

    let locked = LockedOverlayPage::new(Box::new([9u8; PAGE_LEN]), 1);
    assert_eq!(page.remap_locked(Ok(locked), &mut prot), Ok(()));
    assert!(matches!(&page, OverlayPage::Mapped(p) if p.gpn() == 1));
    assert_eq!(page.page(), &[3u8; PAGE_LEN]);
    assert_eq!(prot.unlocked, vec![0]);
}

#[test]
fn remap_onto_the_same_page_unlocks_it() {
    let mut prot = FakeProtect::new(2);
    let mut page = OverlayPage::new();
    page.remap(1, &mut prot).unwrap();
    page.remap(1, &mut prot).unwrap();
    assert_eq!(prot.locked, vec![1, 1]);
    assert_eq!(prot.unlocked, vec![1]);
}
