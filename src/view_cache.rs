use vstd::prelude::*;

use crate::image::ViewDesc;
use crate::types::OutOfMemory;

verus! {

/// What a request for a sub-view of an image gives.
#[derive(Clone, Copy, Debug, PartialEq, Eq, Structural)]
pub enum ViewLookup {
    /// The request describes the view itself.
    Same,
    /// A native view handle, cached for the image.
    View(u64),
}

/// View `desc`, whose layers and levels count from those of `parent`,
/// expressed relative to the image.
pub open spec fn rebased(parent: ViewDesc, desc: ViewDesc) -> ViewDesc {
    ViewDesc {
        base_layer: (desc.base_layer + parent.base_layer) as u32,
        base_level: (desc.base_level + parent.base_level) as u32,
        ..desc
    }
}

/// Whether `s` has an entry for `d`.
pub open spec fn has_view(s: Seq<(ViewDesc, u64, usize)>, d: ViewDesc) -> bool {
    exists|i: int| 0 <= i < s.len() && #[trigger] s[i].0 == d
}

/// The native views made for one image, each with its description and
/// its index in the device's pool. Equal descriptions share one view.
pub struct ViewCache {
    entries: Vec<(ViewDesc, u64, usize)>,
}

impl View for ViewCache {
    type V = Seq<(ViewDesc, u64, usize)>;

    closed spec fn view(&self) -> Seq<(ViewDesc, u64, usize)> {
        self.entries@
    }
}

/// Descriptions are unique.
pub open spec fn views_wf(s: Seq<(ViewDesc, u64, usize)>) -> bool {
    forall|i: int, j: int| 0 <= i < j < s.len() ==> s[i].0 != s[j].0
}

impl ViewCache {
    /// A cache with no views.
    pub fn new() -> (r: ViewCache)
        ensures
            r@ == Seq::<(ViewDesc, u64, usize)>::empty(),
    {
        ViewCache { entries: Vec::new() }
    }

    fn find(&self, d: &ViewDesc) -> (r: Option<usize>)
        ensures
            r matches Some(i) ==> i < self@.len() && self@[i as int].0 == *d,
            r is None ==> !has_view(self@, *d),
    {
        let mut i: usize = 0;
        while i < self.entries.len()
            invariant
                i <= self@.len(),
                forall|j: int| 0 <= j < i ==> self@[j].0 != *d,
            decreases self@.len() - i,
        {
            if self.entries[i].0 == *d {
                return Some(i);
            }
            i = i + 1;
        }
        None
    }

    /// The view `desc` of an image whose own view is `parent`: the layers
    /// and levels of `desc` count from the parent's. A request for the
    /// parent view itself gives `Same`; a cached view is reused; otherwise
    /// `create` makes the native view and its pool index, which are cached.
    pub fn get_view<F>(&mut self, parent: &ViewDesc, desc: ViewDesc, create: F) -> (r: Result<ViewLookup, OutOfMemory>)
        where
            F: FnOnce(ViewDesc) -> Result<(u64, usize), OutOfMemory>,
        requires
            views_wf(old(self)@),
            desc.base_layer + parent.base_layer <= u32::MAX,
            desc.base_level + parent.base_level <= u32::MAX,
            create.requires((rebased(*parent, desc),)),
        ensures
            views_wf(final(self)@),
            rebased(*parent, desc) == *parent ==> r == Ok::<ViewLookup, OutOfMemory>(ViewLookup::Same)
                && final(self)@ == old(self)@,
            rebased(*parent, desc) != *parent && has_view(old(self)@, rebased(*parent, desc)) ==> exists|i: int|
                0 <= i < old(self)@.len() && #[trigger] old(self)@[i].0 == rebased(*parent, desc) && r
                    == Ok::<ViewLookup, OutOfMemory>(ViewLookup::View(old(self)@[i].1))
                    && final(self)@ == old(self)@,
            rebased(*parent, desc) != *parent && !has_view(old(self)@, rebased(*parent, desc)) ==> exists|c: Result<(u64, usize), OutOfMemory>|
                #![trigger create.ensures((rebased(*parent, desc),), c)]
                create.ensures((rebased(*parent, desc),), c) && (c is Ok ==> r == Ok::<ViewLookup, OutOfMemory>(
                    ViewLookup::View(c->Ok_0.0),
                ) && final(self)@ == old(self)@.push((rebased(*parent, desc), c->Ok_0.0, c->Ok_0.1)))
                    && (c is Err ==> r is Err && final(self)@ == old(self)@),
    {
        let d = ViewDesc {
            base_layer: desc.base_layer + parent.base_layer,
            base_level: desc.base_level + parent.base_level,
            ..desc
        };
        if d == *parent {
            return Ok(ViewLookup::Same);
        }
        match self.find(&d) {
            Some(i) => Ok(ViewLookup::View(self.entries[i].1)),
            None => {
                let c = create(d);
                match c {
                    Ok((v, idx)) => {
                        let ghost before = self@;
                        self.entries.push((d, v, idx));
                        proof {
                            assert forall|a: int, b: int| 0 <= a < b < self@.len() implies self@[a].0 != self@[b].0 by {
                                if b == before.len() {
                                    assert(before[a].0 != d);
                                }
                            }
                        }
                        Ok(ViewLookup::View(v))
                    },
                    Err(e) => Err(e),
                }
            },
        }
    }

    /// Empties the cache when its image goes: the pool index of every view,
    /// to give back to the device.
    pub fn take_indices(&mut self) -> (r: Vec<usize>)
        ensures
            final(self)@ == Seq::<(ViewDesc, u64, usize)>::empty(),
            r@ == old(self)@.map_values(|e: (ViewDesc, u64, usize)| e.2),
    {
        let mut r: Vec<usize> = Vec::new();
        let mut i: usize = 0;
        while i < self.entries.len()
            invariant
                i <= self@.len(),
                r@ == self@.take(i as int).map_values(|e: (ViewDesc, u64, usize)| e.2),
            decreases self@.len() - i,
        {
            r.push(self.entries[i].2);
            assert(self@.take(i + 1).map_values(|e: (ViewDesc, u64, usize)| e.2) =~= r@);
            i = i + 1;
        }
        assert(self@.take(self@.len() as int) =~= self@);
        self.entries = Vec::new();
        r
    }
}

} // verus!
