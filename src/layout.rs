use vstd::prelude::*;

use crate::cache::CacheKey;
use crate::desc::ArgumentLayout;

verus! {

/// Description of a descriptor set layout: its arguments in binding order.
pub struct SetLayoutDesc {
    pub arguments: Vec<ArgumentLayout>,
}

impl View for SetLayoutDesc {
    type V = Seq<ArgumentLayout>;

    open spec fn view(&self) -> Seq<ArgumentLayout> {
        self.arguments@
    }
}

fn same_arguments(a: &Vec<ArgumentLayout>, b: &Vec<ArgumentLayout>) -> (r: bool)
    ensures
        r == (a@ == b@),
{
    if a.len() != b.len() {
        return false;
    }
    let mut i: usize = 0;
    while i < a.len()
        invariant
            a@.len() == b@.len(),
            i <= a@.len(),
            forall|j: int| 0 <= j < i ==> a@[j] == b@[j],
        decreases a@.len() - i,
    {
        if a[i] != b[i] {
            return false;
        }
        i = i + 1;
    }
    assert(a@ =~= b@);
    true
}

impl CacheKey for SetLayoutDesc {
    fn same(&self, other: &Self) -> (r: bool) {
        same_arguments(&self.arguments, &other.arguments)
    }
}

/// Description of a pipeline layout: the set layout of each argument group
/// and the size of the push constants.
pub struct PipelineLayoutDesc {
    pub groups: Vec<SetLayoutDesc>,
    pub constants: usize,
}

impl View for PipelineLayoutDesc {
    type V = (Seq<Seq<ArgumentLayout>>, usize);

    open spec fn view(&self) -> (Seq<Seq<ArgumentLayout>>, usize) {
        (self.groups@.map_values(|g: SetLayoutDesc| g@), self.constants)
    }
}

impl CacheKey for PipelineLayoutDesc {
    fn same(&self, other: &Self) -> (r: bool) {
        if self.constants != other.constants {
            return false;
        }
        if self.groups.len() != other.groups.len() {
            assert(self@.0.len() != other@.0.len());
            return false;
        }
        let mut i: usize = 0;
        while i < self.groups.len()
            invariant
                self.groups@.len() == other.groups@.len(),
                i <= self.groups@.len(),
                forall|j: int| 0 <= j < i ==> self.groups@[j]@ == other.groups@[j]@,
            decreases self.groups@.len() - i,
        {
            if !same_arguments(&self.groups[i].arguments, &other.groups[i].arguments) {
                assert(self@.0[i as int] != other@.0[i as int]);
                return false;
            }
            i = i + 1;
        }
        assert(self@.0 =~= other@.0);
        true
    }
}

} // verus!
