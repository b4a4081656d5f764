//! Overlay pages: pages that the hypervisor emulator places over guest memory,
//! held either locally or in a locked guest page.

use vstd::prelude::*;

verus! {

/// The length of a page, in bytes.
pub const PAGE_LEN: usize = 4096;

/// The access an overlay page needs to its guest page.
#[derive(Debug, Copy, Clone, PartialEq, Eq, Structural)]
pub struct MapGpaFlags {
    /// The page is readable.
    pub readable: bool,
    /// The page is writable.
    pub writable: bool,
}

/// A page of bytes.
pub type Page = [u8; PAGE_LEN];

/// A locked overlay page, through which the page's contents are accessed.
pub struct LockedOverlayPage {
    page: Box<Page>,
    pub(crate) gpn: u64,
}

impl LockedOverlayPage {
    /// The contents of the locked page.
    pub closed spec fn contents(&self) -> Seq<u8> {
        self.page@
    }

    /// The guest page number of the locked page.
    pub closed spec fn spec_gpn(&self) -> u64 {
        self.gpn
    }

    /// Creates a new `LockedOverlayPage` from the contents of a locked page and
    /// its guest page number (GPN).
    pub fn new(page: Box<Page>, gpn: u64) -> (locked: Self)
        ensures
            locked.contents() == page@,
            locked.spec_gpn() == gpn,
    {
        Self { page, gpn }
    }

    /// The guest page number of the locked page.
    pub fn gpn(&self) -> (gpn: u64)
        ensures
            gpn == self.spec_gpn(),
    {
        self.gpn
    }
}

/// A set of guest page numbers, as the guest pages that are locked are
/// described.
pub type LockedGpns = Set<u64>;

/// Access to the VTL protections of guest pages, through which overlay pages
/// are locked and unlocked.
pub trait VtlProtectAccess {
    /// The error reported when a page cannot be locked.
    type Error;

    /// The guest page numbers of the overlay pages that are locked through
    /// this accessor.
    spec fn locked_gpns(&self) -> LockedGpns;

    /// Whether this accessor lets the guest page `gpn` be accessed as `flags`
    /// asks, so that it may be locked as an overlay page.
    spec fn lock_permits(&self, gpn: u64, flags: MapGpaFlags) -> bool;

    /// Checks that `gpn` may be accessed as `flags` asks and locks it as an
    /// overlay page. On success, the locked page is the one at `gpn`, and
    /// `gpn` is locked; on failure, nothing is locked.
    fn check_modify_and_lock_overlay_page(&mut self, gpn: u64, flags: MapGpaFlags) -> (r: Result<
        LockedOverlayPage,
        Self::Error,
    >)
        ensures
            r matches Ok(page) ==> page.spec_gpn() == gpn,
            r is Ok ==> old(self).lock_permits(gpn, flags),
            r is Ok ==> final(self).locked_gpns() == old(self).locked_gpns().insert(gpn),
            r is Err ==> final(self).locked_gpns() == old(self).locked_gpns(),
    ;

    /// Unlocks the overlay page at `gpn`, which was locked through this
    /// accessor. Unlocking such a page does not fail.
    fn unlock_overlay_page(&mut self, gpn: u64) -> (r: Result<(), Self::Error>)
        requires
            old(self).locked_gpns().contains(gpn),
        ensures
            r is Ok,
            final(self).locked_gpns() == old(self).locked_gpns().remove(gpn),
    ;
}

/// An overlay page, held locally or mapped over a locked guest page.
pub enum OverlayPage {
    /// The page is held locally.
    Local(Box<Page>),
    /// The page is mapped over a locked guest page.
    Mapped(LockedOverlayPage),
}

impl OverlayPage {
    /// The contents of the overlay page.
    pub open spec fn contents(&self) -> Seq<u8> {
        match self {
            OverlayPage::Local(page) => (**page)@,
            OverlayPage::Mapped(page) => page.contents(),
        }
    }

    /// The guest page number the overlay page is mapped over, if any.
    pub open spec fn mapped_gpn(&self) -> Option<u64> {
        match self {
            OverlayPage::Local(_) => None,
            OverlayPage::Mapped(page) => Some(page.spec_gpn()),
        }
    }

    /// The guest page this overlay page is mapped over, if any, is locked.
    pub open spec fn mapped_page_locked(&self, locked: Set<u64>) -> bool {
        self.mapped_gpn() matches Some(gpn) ==> locked.contains(gpn)
    }

    /// The locked guest pages that remain after unlocking the guest page that
    /// this overlay page is mapped over, if any.
    pub open spec fn locked_after_unlock(&self, locked: Set<u64>) -> Set<u64> {
        match self.mapped_gpn() {
            Some(gpn) => locked.remove(gpn),
            None => locked,
        }
    }

    /// A local overlay page of zeroes.
    pub fn new() -> (page: Self)
        ensures
            page.mapped_gpn() is None,
            page.contents() == Seq::new(PAGE_LEN as nat, |_i: int| 0u8),
    {
        let zeroes: Page = [0u8; PAGE_LEN];
        assert(zeroes@ =~= Seq::new(PAGE_LEN as nat, |_i: int| 0u8));
        OverlayPage::Local(Box::new(zeroes))
    }

    /// The contents of the overlay page.
    pub fn page(&self) -> (contents: &Page)
        ensures
            contents@ == self.contents(),
    {
        match self {
            OverlayPage::Local(page) => page,
            OverlayPage::Mapped(page) => &page.page,
        }
    }

    /// Maps the overlay page over the guest page `new_gpn`, which it asks to be
    /// locked for reading and writing, carrying its contents over, and unlocks the guest page it was mapped over before.
    /// When `new_gpn` cannot be locked the page is left as it was and the
    /// error is returned. Whether `new_gpn` can be locked is for
    /// `prot_access` to decide; what follows its answer is
    /// [`OverlayPage::remap_locked`].
    pub fn remap<P: VtlProtectAccess>(&mut self, new_gpn: u64, prot_access: &mut P) -> (r: Result<
        (),
        P::Error,
    >)
        requires
            old(self).mapped_page_locked(old(prot_access).locked_gpns()),
        ensures
            r is Ok ==> final(self).contents() == old(self).contents() && final(self).mapped_gpn()
                == Some(new_gpn),
            r is Ok ==> old(prot_access).lock_permits(
                new_gpn,
                MapGpaFlags { readable: true, writable: true },
            ),
            r is Ok ==> final(prot_access).locked_gpns() == old(self).locked_after_unlock(
                old(prot_access).locked_gpns().insert(new_gpn),
            ),
            r is Err ==> *final(self) == *old(self),
            r is Err ==> final(prot_access).locked_gpns() == old(prot_access).locked_gpns(),
    {
        let locked = prot_access.check_modify_and_lock_overlay_page(
            new_gpn,
            MapGpaFlags { readable: true, writable: true },
        );
        self.remap_locked(locked, prot_access)
    }

    /// Finishes remapping once the new guest page was asked to be locked:
    /// when `locked` holds the locked page, the overlay page is mapped over
    /// it, carrying its contents over, and the guest page it was mapped over
    /// before is unlocked; when `locked` holds an error, the page is left as
    /// it was and the error is returned.
    pub fn remap_locked<P: VtlProtectAccess>(
        &mut self,
        locked: Result<LockedOverlayPage, P::Error>,
        prot_access: &mut P,
    ) -> (r: Result<(), P::Error>)
        requires
            old(self).mapped_page_locked(old(prot_access).locked_gpns()),
        ensures
            match locked {
                Ok(page) => {
                    &&& r is Ok
                    &&& final(self).contents() == old(self).contents()
                    &&& final(self).mapped_gpn() == Some(page.spec_gpn())
                    &&& final(prot_access).locked_gpns() == old(self).locked_after_unlock(
                        old(prot_access).locked_gpns(),
                    )
                },
                Err(e) => {
                    &&& r == Err::<(), P::Error>(e)
                    &&& *final(self) == *old(self)
                    &&& final(prot_access).locked_gpns() == old(prot_access).locked_gpns()
                },
            },
    {
        let mut new_page = match locked {
            Ok(page) => page,
            Err(e) => return Err(e),
        };
        *new_page.page = *self.page();

        self.unlock_prev_gpn(prot_access);

        *self = OverlayPage::Mapped(new_page);
        Ok(())
    }

    /// Moves the overlay page into local memory, carrying its contents over,
    /// and unlocks the guest page it was mapped over, if any.
    pub fn unmap<P: VtlProtectAccess>(&mut self, prot_access: &mut P)
        requires
            old(self).mapped_page_locked(old(prot_access).locked_gpns()),
        ensures
            final(self).contents() == old(self).contents(),
            final(self).mapped_gpn() is None,
            final(prot_access).locked_gpns() == old(self).locked_after_unlock(
                old(prot_access).locked_gpns(),
            ),
    {
        let new_page = Box::new(*self.page());

        self.unlock_prev_gpn(prot_access);

        *self = OverlayPage::Local(new_page);
    }

    /// Unlocks the guest page the overlay page is mapped over, if any.
    fn unlock_prev_gpn<P: VtlProtectAccess>(&mut self, prot_access: &mut P)
        requires
            old(self).mapped_page_locked(old(prot_access).locked_gpns()),
        ensures
            *final(self) == *old(self),
            final(prot_access).locked_gpns() == old(self).locked_after_unlock(
                old(prot_access).locked_gpns(),
            ),
    {
        if let OverlayPage::Mapped(page) = self {
            let r = prot_access.unlock_overlay_page(page.gpn);
            assert(r is Ok);
        }
    }
}

impl Default for OverlayPage {
    /// A local overlay page of zeroes.
    fn default() -> (page: Self)
        ensures
            page.mapped_gpn() is None,
            page.contents() == Seq::new(PAGE_LEN as nat, |_i: int| 0u8),
    {
        OverlayPage::new()
    }
}

/// Mapping a page over another guest page and then moving it back into local
/// memory leaves its contents unchanged.
pub proof fn lemma_remap_then_unmap_keeps_contents(
    before: OverlayPage,
    remapped: OverlayPage,
    unmapped: OverlayPage,
    new_gpn: u64,
)
    requires
        remapped.contents() == before.contents() && remapped.mapped_gpn() == Some(new_gpn),
        unmapped.contents() == remapped.contents() && unmapped.mapped_gpn() is None,
    ensures
        unmapped.contents() == before.contents(),
{
}


/// After a successful remap onto a guest page other than the one the overlay
/// page was mapped over, the new guest page is locked and the old one no
/// longer is; after an unmap, the old guest page is no longer locked.
pub proof fn lemma_remap_keeps_mapped_page_locked(
    before: OverlayPage,
    locked: Set<u64>,
    new_gpn: u64,
)
    requires
        before.mapped_gpn() != Some(new_gpn),
    ensures
        before.locked_after_unlock(locked.insert(new_gpn)).contains(new_gpn),
        before.mapped_gpn() matches Some(old_gpn) ==> !before.locked_after_unlock(
            locked.insert(new_gpn),
        ).contains(old_gpn) && !before.locked_after_unlock(locked).contains(old_gpn),
{
}

} // verus!
