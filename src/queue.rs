use vstd::prelude::*;

verus! {

/// The queue capability bit that marks a family able to run graphics work.
pub const QUEUE_GRAPHICS_BIT: u32 = 0x1;

/// What the device reports of one queue family, as far as the choice of
/// families reads it.
#[derive(Clone, Copy, Debug, PartialEq, Eq, Structural)]
pub struct QueueFamilyInfo {
    /// The family's capability bits.
    pub queue_flags: u32,
    /// Whether the family can present to the window's surface.
    pub present_support: bool,
}

/// The families chosen for graphics work and for presenting.
#[derive(Clone, Copy, Debug, PartialEq, Eq, Structural)]
pub struct QueueFamilyIndices {
    pub graphics_family: Option<u32>,
    pub present_family: Option<u32>,
}

pub open spec fn has_graphics(f: QueueFamilyInfo) -> bool {
    f.queue_flags & QUEUE_GRAPHICS_BIT != 0
}

pub open spec fn indices_complete(q: QueueFamilyIndices) -> bool {
    q.graphics_family is Some && q.present_family is Some
}

/// Whether some family has the graphics bit and some family can present.
pub open spec fn families_suffice(fams: Seq<QueueFamilyInfo>) -> bool {
    &&& exists|g: int| 0 <= g < fams.len() && #[trigger] has_graphics(fams[g])
    &&& exists|p: int| 0 <= p < fams.len() && #[trigger] fams[p].present_support
}

/// Whether `r` names the first family with the graphics bit, and is `None`
/// exactly where no family has it.
pub open spec fn is_first_graphics(fams: Seq<QueueFamilyInfo>, r: Option<u32>) -> bool {
    &&& (r is Some <==> exists|g: int| 0 <= g < fams.len() && #[trigger] has_graphics(fams[g]))
    &&& r is Some ==> {
        &&& r->0 < fams.len()
        &&& has_graphics(fams[r->0 as int])
        &&& forall|j: int| 0 <= j < r->0 ==> !#[trigger] has_graphics(fams[j])
    }
}

/// Whether `r` names the first family that can present, and is `None`
/// exactly where no family can.
pub open spec fn is_first_present(fams: Seq<QueueFamilyInfo>, r: Option<u32>) -> bool {
    &&& (r is Some <==> exists|p: int| 0 <= p < fams.len() && #[trigger] fams[p].present_support)
    &&& r is Some ==> {
        &&& r->0 < fams.len()
        &&& fams[r->0 as int].present_support
        &&& forall|j: int| 0 <= j < r->0 ==> !#[trigger] fams[j].present_support
    }
}

impl QueueFamilyIndices {
    /// Whether both a graphics family and a present family have been found.
    pub fn is_complete(&self) -> (r: bool)
        ensures
            r == indices_complete(*self),
    {
        self.graphics_family.is_some() && self.present_family.is_some()
    }
}

/// Chooses the queue families for graphics work and for presenting from what
/// the device reports of its families, in the device's order: the first family
/// with the graphics bit, and the first family that can present. The scan stops
/// as soon as both are found. A role stays `None` where no family can play it.
pub fn find_queue_families(fams: &Vec<QueueFamilyInfo>) -> (r: QueueFamilyIndices)
    requires
        fams@.len() <= u32::MAX + 1,
    ensures
        is_first_graphics(fams@, r.graphics_family),
        is_first_present(fams@, r.present_family),
{
    let mut queue_fam = QueueFamilyIndices { graphics_family: None, present_family: None };
    let mut idx: usize = 0;
    while idx < fams.len()
        invariant
            idx <= fams@.len() <= u32::MAX + 1,
            is_first_graphics(fams@.subrange(0, idx as int), queue_fam.graphics_family),
            is_first_present(fams@.subrange(0, idx as int), queue_fam.present_family),
            !indices_complete(queue_fam),
        decreases fams@.len() - idx,
    {
        let ghost before = fams@.subrange(0, idx as int);
        let fam = fams[idx];
        if queue_fam.graphics_family.is_none() && fam.queue_flags & QUEUE_GRAPHICS_BIT != 0 {
            queue_fam.graphics_family = Some(idx as u32);
        }
        if queue_fam.present_family.is_none() && fam.present_support {
            queue_fam.present_family = Some(idx as u32);
        }
        idx = idx + 1;
        proof {
            let after = fams@.subrange(0, idx as int);
            assert(after =~= before.push(fam));
            assert(forall|j: int| 0 <= j < before.len() ==> after[j] == before[j]);
            assert(after[idx - 1] == fam);
            if queue_fam.graphics_family is Some {
                let g = queue_fam.graphics_family->0 as int;
                assert(has_graphics(after[g]));
            }
            if queue_fam.present_family is Some {
                let p = queue_fam.present_family->0 as int;
                assert(after[p].present_support);
            }
            assert(queue_fam.graphics_family is None ==> forall|g: int|
                0 <= g < after.len() ==> !#[trigger] has_graphics(after[g]));
            assert(queue_fam.present_family is None ==> forall|p: int|
                0 <= p < after.len() ==> !#[trigger] after[p].present_support);
        }
        if queue_fam.is_complete() {
            proof {
                lemma_first_extends(fams@, idx as nat, queue_fam);
            }
            return queue_fam;
        }
    }
    proof {
        assert(fams@.subrange(0, idx as int) =~= fams@);
    }
    queue_fam
}

/// Once both roles are filled from a prefix, they stay the first over the
/// whole list.
proof fn lemma_first_extends(fams: Seq<QueueFamilyInfo>, n: nat, q: QueueFamilyIndices)
    requires
        n <= fams.len(),
        indices_complete(q),
        is_first_graphics(fams.subrange(0, n as int), q.graphics_family),
        is_first_present(fams.subrange(0, n as int), q.present_family),
    ensures
        is_first_graphics(fams, q.graphics_family),
        is_first_present(fams, q.present_family),
{
    let pre = fams.subrange(0, n as int);
    let g = q.graphics_family->0 as int;
    let p = q.present_family->0 as int;
    assert(pre[g] == fams[g]);
    assert(pre[p] == fams[p]);
    assert forall|j: int| 0 <= j < g implies !#[trigger] has_graphics(fams[j]) by {
        assert(pre[j] == fams[j]);
    }
    assert forall|j: int| 0 <= j < p implies !#[trigger] fams[j].present_support by {
        assert(pre[j] == fams[j]);
    }
}

/// The distinct queue families that the logical device needs a queue from:
/// the graphics family, then the present family where it is another one.
///
/// There are at most two, so a list that leaves out the repeat does what a
/// set would, and it fixes the order in which the queues are asked for,
/// which a hash set would leave to its hasher.
pub fn unique_queue_families(indices: &QueueFamilyIndices) -> (r: Vec<u32>)
    requires
        indices_complete(*indices),
    ensures
        r@ == if indices.graphics_family == indices.present_family {
            seq![indices.graphics_family->0]
        } else {
            seq![indices.graphics_family->0, indices.present_family->0]
        },
{
    let graphics = indices.graphics_family.unwrap();
    let present = indices.present_family.unwrap();
    let mut r: Vec<u32> = Vec::new();
    r.push(graphics);
    if graphics != present {
        r.push(present);
    }
    r
}

} // verus!
