//! Paths into structured values.

use vstd::prelude::*;

verus! {

/// The mathematical model of one step of a path.
pub enum Segment {
    /// The member of an object under a key.
    Key(Seq<char>),
    /// The item of an array at an index.
    Index(nat),
}

/// Two steps are of one kind: both into a member, or both into an item.
pub open spec fn same_kind(first: Segment, second: Segment) -> bool {
    (first is Key) == (second is Key)
}

/// Two paths part: after the same steps, which may be none, each takes a
/// step of its own, and the two steps are of one kind. Such paths lead to
/// different places of one structure: neither leads into what the other
/// leads to.
pub open spec fn part(first: Seq<Segment>, second: Seq<Segment>) -> bool
    decreases first.len(),
{
    &&& first.len() > 0
    &&& second.len() > 0
    &&& if first[0] == second[0] {
        part(first.drop_first(), second.drop_first())
    } else {
        same_kind(first[0], second[0])
    }
}

/// A path that goes on with one step parts from the same path going on with
/// another step of that kind.
pub proof fn steps_from_one_path_part(base: Seq<Segment>, first: Segment, second: Segment)
    requires
        first != second,
        same_kind(first, second),
    ensures
        part(base.push(first), base.push(second)),
    decreases base.len(),
{
    if base.len() > 0 {
        assert(base.push(first).drop_first() =~= base.drop_first().push(first));
        assert(base.push(second).drop_first() =~= base.drop_first().push(second));
        steps_from_one_path_part(base.drop_first(), first, second);
    }
}

/// Each two of the paths part.
pub open spec fn all_part(paths: Seq<Seq<Segment>>) -> bool {
    forall|i: int, j: int|
        0 <= i < paths.len() && 0 <= j < paths.len() && i != j ==> part(
            #[trigger] paths[i],
            #[trigger] paths[j],
        )
}

/// One step of a path: into the member of an object, or the item of an array.
#[derive(Debug)]
pub enum PathElement {
    Key(String),
    Index(usize),
}

impl View for PathElement {
    type V = Segment;

    open spec fn view(&self) -> Segment {
        match self {
            PathElement::Key(key) => Segment::Key(key@),
            PathElement::Index(index) => Segment::Index(*index as nat),
        }
    }
}

impl Clone for PathElement {
    fn clone(&self) -> (res: Self)
        ensures
            res@ == self@,
    {
        match self {
            PathElement::Key(key) => PathElement::Key(key.clone()),
            PathElement::Index(index) => PathElement::Index(*index),
        }
    }
}

/// A path: the steps that lead from a value to a value inside it.
#[derive(Debug)]
pub struct Path {
    pub elements: Vec<PathElement>,
}

impl View for Path {
    type V = Seq<Segment>;

    open spec fn view(&self) -> Seq<Segment> {
        Seq::new(self.elements@.len(), |i: int| self.elements@[i]@)
    }
}

impl Path {
    /// The path of no steps, which leads from a value to itself.
    pub fn empty() -> (res: Self)
        ensures
            res@ == Seq::<Segment>::empty(),
    {
        let res = Path { elements: Vec::new() };
        assert(res@ =~= Seq::<Segment>::empty());
        res
    }

    /// The number of steps.
    pub fn len(&self) -> (res: usize)
        ensures
            res == self@.len(),
    {
        self.elements.len()
    }

    /// Whether the path has no steps.
    pub fn is_empty(&self) -> (res: bool)
        ensures
            res == (self@.len() == 0),
    {
        self.elements.len() == 0
    }

    /// The first `count` steps of this path, or all of them where it has
    /// fewer, followed by the steps of `tail`.
    pub fn prefix_then(&self, count: usize, tail: &Path) -> (res: Self)
        ensures
            res@ == self@.take(
                if count <= self@.len() {
                    count as int
                } else {
                    self@.len() as int
                },
            ) + tail@,
    {
        let count = if count <= self.elements.len() {
            count
        } else {
            self.elements.len()
        };
        let mut elements: Vec<PathElement> = Vec::new();
        let mut i: usize = 0;
        while i < count
            invariant
                i <= count <= self.elements@.len(),
                elements@.len() == i,
                forall|j: int| 0 <= j < i ==> (#[trigger] elements@[j])@ == self.elements@[j]@,
            decreases count - i,
        {
            elements.push(self.elements[i].clone());
            i = i + 1;
        }
        let mut k: usize = 0;
        while k < tail.elements.len()
            invariant
                k <= tail.elements@.len(),
                count <= self.elements@.len(),
                elements@.len() == count + k,
                forall|j: int| 0 <= j < count ==> (#[trigger] elements@[j])@ == self.elements@[j]@,
                forall|j: int|
                    0 <= j < k ==> (#[trigger] elements@[count + j])@ == tail.elements@[j]@,
            decreases tail.elements.len() - k,
        {
            elements.push(tail.elements[k].clone());
            k = k + 1;
        }
        let res = Path { elements };
        assert forall|j: int| 0 <= j < res@.len() implies res@[j] == (self@.take(count as int)
            + tail@)[j] by {
            if j >= count {
                assert(res.elements@[count + (j - count)]@ == tail.elements@[j - count]@);
            }
        }
        assert(res@ =~= self@.take(count as int) + tail@);
        res
    }

    /// This path followed by one more step.
    pub fn join(&self, element: PathElement) -> (res: Self)
        ensures
            res@ == self@.push(element@),
    {
        let mut res = self.clone();
        res.elements.push(element);
        assert(res@ =~= self@.push(element@));
        res
    }
}

impl Clone for Path {
    fn clone(&self) -> (res: Self)
        ensures
            res@ == self@,
    {
        let res = self.prefix_then(self.elements.len(), &Path::empty());
        assert(res@ =~= self@);
        res
    }
}

} // verus!
