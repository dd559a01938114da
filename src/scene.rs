use vstd::prelude::*;

verus! {

/// An ordered collection of intersectable objects.
pub struct HittableList<T> {
    pub list: Vec<T>,
}

impl<T> HittableList<T> {
    /// A scene with no objects.
    pub fn new() -> (s: Self)
        ensures
            s.list@ == Seq::<T>::empty(),
    {
        HittableList { list: Vec::new() }
    }

    /// Appends an object to the scene.
    pub fn add(&mut self, h: T)
        ensures
            final(self).list@ == old(self).list@.push(h),
    {
        self.list.push(h);
    }
}

/// `i` is the nearest of the hits that the scene's objects reported: each
/// entry is the order key of an object's hit parameter, or `None` where the
/// object was missed. The nearest hit has the smallest key, and among equal
/// keys the first object wins.
pub open spec fn is_nearest(hits: Seq<Option<u64>>, i: int) -> bool {
    &&& 0 <= i < hits.len()
    &&& hits[i] is Some
    &&& forall|j: int|
        0 <= j < hits.len() && (#[trigger] hits[j]) is Some ==> hits[i]->0 <= hits[j]->0
    &&& forall|j: int|
        0 <= j < i && (#[trigger] hits[j]) is Some ==> hits[i]->0 < hits[j]->0
}

/// Picks the nearest hit among the objects' answers, by a full scan.
pub fn closest_hit(hits: &Vec<Option<u64>>) -> (r: Option<usize>)
    ensures
        r is None <==> forall|j: int| 0 <= j < hits@.len() ==> (#[trigger] hits@[j]) is None,
        r matches Some(i) ==> is_nearest(hits@, i as int),
{
    let mut best: Option<usize> = None;
    let mut k: usize = 0;
    while k < hits.len()
        invariant
            k <= hits@.len(),
            best is None <==> forall|j: int| 0 <= j < k ==> (#[trigger] hits@[j]) is None,
            best matches Some(i) ==> is_nearest(hits@.subrange(0, k as int), i as int),
        decreases hits@.len() - k,
    {
        let cur = hits[k];
        match cur {
            Some(key) => {
                match best {
                    Some(b) => {
                        let bk = hits[b].unwrap();
                        if key < bk {
                            best = Some(k);
                        }
                    },
                    None => {
                        best = Some(k);
                    },
                }
            },
            None => {},
        }
        k = k + 1;
        assert(hits@.subrange(0, k as int) =~= hits@.subrange(0, k - 1).push(hits@[k - 1]));
    }
    assert(hits@.subrange(0, k as int) =~= hits@);
    best
}

/// The nearest hit is unique, and it lies strictly nearer than any other
/// object's hit with a different parameter: of two overlapping objects on a
/// ray, the nearer one's record is returned.
pub proof fn lemma_nearest_is_strictly_nearer(hits: Seq<Option<u64>>, i: int, j: int)
    requires
        is_nearest(hits, i),
        0 <= j < hits.len(),
        hits[j] is Some,
        j != i,
    ensures
        hits[i]->0 <= hits[j]->0,
        hits[i]->0 != hits[j]->0 ==> hits[i]->0 < hits[j]->0,
        !is_nearest(hits, j),
{
}

} // verus!
