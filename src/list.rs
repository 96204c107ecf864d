use vstd::prelude::*;

use crate::index::FracIndex;

verus! {

/// One link of the chain: an element and the rest of the chain past it.
#[derive(Debug)]
pub struct Node<T> {
    pub(crate) elem: T,
    pub(crate) next: Option<Box<Node<T>>>,
}

/// The elements reachable from `link`, nearest first.
pub closed spec fn chain<T>(link: Option<Box<Node<T>>>) -> Seq<T>
    decreases link,
{
    match link {
        None => Seq::empty(),
        Some(node) => seq![node.elem] + chain(node.next),
    }
}

impl<T> Node<T> {
    /// This node's element followed by those reachable past it.
    pub closed spec fn items(self) -> Seq<T> {
        seq![self.elem] + chain(self.next)
    }

    /// The element `k` steps past this node.
    fn elem_at(&self, k: usize) -> (r: &T)
        requires
            k < self.items().len(),
        ensures
            *r == self.items()[k as int],
        decreases k,
    {
        if k == 0 {
            &self.elem
        } else {
            match &self.next {
                Some(next) => next.elem_at(k - 1),
                None => {
                    proof {
                        assert(false);
                    }
                    &self.elem
                },
            }
        }
    }

    /// A mutable reference to the element `k` steps past this node.
    fn elem_at_mut(&mut self, k: usize) -> (r: &mut T)
        requires
            k < old(self).items().len(),
        ensures
            *r == old(self).items()[k as int],
            final(self).items() == old(self).items().update(k as int, *final(r)),
        decreases k,
    {
        if k == 0 {
            &mut self.elem
        } else {
            match &mut self.next {
                Some(next) => next.elem_at_mut(k - 1),
                None => {
                    proof {
                        assert(false);
                    }
                    &mut self.elem
                },
            }
        }
    }

    /// Links a new node holding `elem` in right after the node `k` steps past
    /// this one.
    fn insert_after(&mut self, k: usize, elem: T)
        requires
            k < old(self).items().len(),
        ensures
            final(self).items() == old(self).items().insert(k + 1, elem),
        decreases k,
    {
        if k == 0 {
            let rest = self.next.take();
            self.next = Some(Box::new(Node { elem, next: rest }));
        } else {
            match &mut self.next {
                Some(next) => next.insert_after(k - 1, elem),
                None => {
                    proof {
                        assert(false);
                    }
                },
            }
        }
    }
}

/// The newest element of `s` (its first), if there is one.
pub open spec fn first_of<T>(s: Seq<T>) -> Option<T> {
    if s.len() > 0 {
        Some(s[0])
    } else {
        None
    }
}

/// What is left of `s` once its newest element is taken off.
pub open spec fn rest_of<T>(s: Seq<T>) -> Seq<T> {
    if s.len() > 0 {
        s.drop_first()
    } else {
        s
    }
}

/// The element that position `index` reads in `s` (newest first), if the
/// position is in bounds.
pub open spec fn read_at<T>(s: Seq<T>, index: FracIndex) -> Option<T> {
    if index.in_bounds(s.len() as int) {
        Some(s[index.steps(s.len() as int)])
    } else {
        None
    }
}

/// A list that grows and shrinks at its head, the newest element.
#[derive(Debug)]
pub struct List<T> {
    head: Option<Box<Node<T>>>,
}

impl<T> View for List<T> {
    type V = Seq<T>;

    /// The elements from the head (newest) to the tail (oldest).
    closed spec fn view(&self) -> Seq<T> {
        chain(self.head)
    }
}

impl<T> List<T> {
    /// An empty list.
    pub fn new() -> (r: Self)
        ensures
            r@ == Seq::<T>::empty(),
    {
        List { head: None }
    }

    /// Puts `elem` in front of the head; it becomes the new head.
    pub fn push(&mut self, elem: T)
        ensures
            final(self)@ == seq![elem] + old(self)@,
    {
        let rest = self.head.take();
        self.head = Some(Box::new(Node { elem, next: rest }));
    }

    /// Takes the head off the list and hands its element back.
    pub fn pop(&mut self) -> (r: Option<T>)
        ensures
            r == first_of(old(self)@),
            final(self)@ == rest_of(old(self)@),
    {
        match self.head.take() {
            None => None,
            Some(node) => {
                let node = *node;
                self.head = node.next;
                Some(node.elem)
            },
        }
    }

    /// The head's element, if there is one.
    pub fn peek(&self) -> (r: Option<&T>)
        ensures
            r.is_none() == first_of(self@).is_none(),
            r.is_some() ==> first_of(self@) == Some(*r.unwrap()),
    {
        match &self.head {
            None => None,
            Some(node) => Some(&node.elem),
        }
    }

    /// A mutable reference to the head's element, if there is one.
    pub fn peek_mut(&mut self) -> (r: Option<&mut T>)
        ensures
            old(self)@.len() == 0 ==> r.is_none() && final(self)@ == old(self)@,
            old(self)@.len() > 0 ==> r.is_some() && *r.unwrap() == old(self)@[0]
                && final(self)@ == old(self)@.update(0, *final(r.unwrap())),
    {
        match &mut self.head {
            None => None,
            Some(node) => Some(&mut node.elem),
        }
    }

    /// Turns the list into an iterator that hands its elements out from the
    /// head to the tail.
    pub fn into_iter(self) -> (r: IntoIter<T>)
        ensures
            r@ == self@,
    {
        IntoIter(self)
    }

    /// An iterator over references to the elements, from the head to the tail.
    pub fn iter(&self) -> (r: Iter<'_, T>)
        ensures
            r@ == self@,
    {
        match &self.head {
            None => Iter { next: None },
            Some(node) => Iter { next: Some(&**node) },
        }
    }

    /// An iterator over mutable references to the elements, from the head to
    /// the tail; what is written through them is what the list holds after.
    pub fn iter_mut(&mut self) -> (r: IterMut<'_, T>)
        ensures
            r@ == old(self)@,
            final(self)@ == (match r.next {
                None => Seq::empty(),
                Some(node) => final(node).items(),
            }),
    {
        match &mut self.head {
            None => IterMut { next: None },
            Some(node) => IterMut { next: Some(&mut **node) },
        }
    }

    /// The number of elements, counted by walking the chain.
    pub fn len(&self) -> (r: usize)
        requires
            self@.len() <= usize::MAX,
        ensures
            r == self@.len(),
    {
        let mut count: usize = 0;
        let mut cur = &self.head;
        while cur.is_some()
            invariant
                count + chain(*cur).len() == self@.len(),
                self@.len() <= usize::MAX,
            decreases chain(*cur).len(),
        {
            match cur {
                Some(node) => {
                    count = count + 1;
                    cur = &node.next;
                },
                None => {},
            }
        }
        count
    }

    /// The element at `index`, or `None` where `index` is out of bounds.
    ///
    /// -1 is the tail (the oldest element, the far end from the one `pop`
    /// and `peek` use) and `len - 2` the head; a fractional position reads the
    /// element at the next whole position above it.
    pub fn get(&self, index: FracIndex) -> (r: Option<&T>)
        requires
            self@.len() <= usize::MAX,
        ensures
            r.is_none() == read_at(self@, index).is_none(),
            r.is_some() ==> read_at(self@, index) == Some(*r.unwrap()),
    {
        match index.steps_from_head(self.len()) {
            None => None,
            Some(k) => match &self.head {
                Some(node) => Some(node.elem_at(k)),
                None => None,
            },
        }
    }

    /// A mutable reference to the element at `index`, or `None` where `index`
    /// is out of bounds; positions are read as by `get`.
    pub fn get_mut(&mut self, index: FracIndex) -> (r: Option<&mut T>)
        requires
            old(self)@.len() <= usize::MAX,
        ensures
            !index.in_bounds(old(self)@.len() as int) ==> r.is_none() && final(self)@ == old(self)@,
            index.in_bounds(old(self)@.len() as int) ==> r.is_some()
                && *r.unwrap() == old(self)@[index.steps(old(self)@.len() as int)]
                && final(self)@ == old(self)@.update(
                index.steps(old(self)@.len() as int),
                *final(r.unwrap()),
            ),
    {
        match index.steps_from_head(self.len()) {
            None => None,
            Some(k) => match &mut self.head {
                Some(node) => Some(node.elem_at_mut(k)),
                None => None,
            },
        }
    }

    /// Links `elem` in right after (toward the tail from) the element that
    /// `get(index)` reads; where `index` is out of bounds the list is left as
    /// it was.
    pub fn insert(&mut self, index: FracIndex, elem: T)
        requires
            old(self)@.len() <= usize::MAX,
        ensures
            !index.in_bounds(old(self)@.len() as int) ==> final(self)@ == old(self)@,
            index.in_bounds(old(self)@.len() as int) ==> final(self)@ == old(self)@.insert(
                index.steps(old(self)@.len() as int) + 1,
                elem,
            ),
    {
        match index.steps_from_head(self.len()) {
            None => {},
            Some(k) => match &mut self.head {
                Some(node) => node.insert_after(k, elem),
                None => {},
            },
        }
    }

    /// The element at `index`, which must be in bounds.
    pub fn index(&self, index: FracIndex) -> (r: &T)
        requires
            self@.len() <= usize::MAX,
            index.in_bounds(self@.len() as int),
        ensures
            *r == self@[index.steps(self@.len() as int)],
    {
        self.get(index).unwrap()
    }

    /// A mutable reference to the element at `index`, which must be in bounds.
    pub fn index_mut(&mut self, index: FracIndex) -> (r: &mut T)
        requires
            old(self)@.len() <= usize::MAX,
            index.in_bounds(old(self)@.len() as int),
        ensures
            *r == old(self)@[index.steps(old(self)@.len() as int)],
            final(self)@ == old(self)@.update(index.steps(old(self)@.len() as int), *final(r)),
    {
        self.get_mut(index).unwrap()
    }

    /// Whether the list holds no element.
    pub fn is_empty(&self) -> (r: bool)
        ensures
            r == (self@.len() == 0),
    {
        self.head.is_none()
    }
}

impl<T> Drop for List<T> {
    /// Unlinks the nodes one at a time, so that a long chain is not torn down
    /// by nested calls.
    fn drop(&mut self)
        ensures
            final(self)@ == Seq::<T>::empty(),
        opens_invariants none
        no_unwind
    {
        let mut cur: Option<Box<Node<T>>> = None;
        std::mem::swap(&mut cur, &mut self.head);
        loop
            decreases chain(cur).len(),
        {
            match cur {
                None => {
                    break ;
                },
                Some(node) => {
                    let node = *node;
                    cur = node.next;
                },
            }
        }
    }
}

/// The elements of a list, handed out by value from the head to the tail.
pub struct IntoIter<T>(List<T>);

impl<T> View for IntoIter<T> {
    type V = Seq<T>;

    /// The elements still to come, next first.
    closed spec fn view(&self) -> Seq<T> {
        self.0@
    }
}

impl<T> IntoIter<T> {
    /// The next element, or `None` once all have been handed out.
    pub fn next(&mut self) -> (r: Option<T>)
        ensures
            r == first_of(old(self)@),
            final(self)@ == rest_of(old(self)@),
    {
        self.0.pop()
    }
}

/// References to the elements of a list, from the head to the tail.
pub struct Iter<'a, T> {
    next: Option<&'a Node<T>>,
}

impl<'a, T> View for Iter<'a, T> {
    type V = Seq<T>;

    /// The elements still to come, next first.
    closed spec fn view(&self) -> Seq<T> {
        match self.next {
            None => Seq::empty(),
            Some(node) => node.items(),
        }
    }
}

impl<'a, T> Iter<'a, T> {
    /// A reference to the next element, or `None` at the end.
    pub fn next(&mut self) -> (r: Option<&'a T>)
        ensures
            r.is_none() == first_of(old(self)@).is_none(),
            r.is_some() ==> first_of(old(self)@) == Some(*r.unwrap()),
            final(self)@ == rest_of(old(self)@),
    {
        match self.next {
            None => None,
            Some(node) => {
                self.next = match &node.next {
                    None => None,
                    Some(rest) => Some(&**rest),
                };
                Some(&node.elem)
            },
        }
    }
}

/// Mutable references to the elements of a list, from the head to the tail.
///
/// The node still to come is public so that contracts can speak of what it
/// will hold once the iterator is done with it.
pub struct IterMut<'a, T> {
    pub next: Option<&'a mut Node<T>>,
}

impl<'a, T> View for IterMut<'a, T> {
    type V = Seq<T>;

    /// The elements still to come, next first, as they are now.
    open spec fn view(&self) -> Seq<T> {
        match self.next {
            None => Seq::empty(),
            Some(node) => node.items(),
        }
    }
}

impl<'a, T> IterMut<'a, T> {
    /// A mutable reference to the next element, or `None` at the end.
    pub fn next(&mut self) -> (r: Option<&'a mut T>)
        ensures
            old(self)@.len() == 0 ==> r.is_none() && final(self)@ == old(self)@ && (match old(
                self,
            ).next {
                None => Seq::empty(),
                Some(node) => final(node).items(),
            }) == (match final(self).next {
                None => Seq::empty(),
                Some(node) => final(node).items(),
            }),
            old(self)@.len() > 0 ==> r.is_some() && *r.unwrap() == old(self)@[0] && final(self)@
                == old(self)@.drop_first() && (match old(self).next {
                None => Seq::empty(),
                Some(node) => final(node).items(),
            }) == seq![*final(r.unwrap())] + (match final(self).next {
                None => Seq::empty(),
                Some(node) => final(node).items(),
            }),
    {
        match self.next.take() {
            None => None,
            Some(node) => {
                let Node { elem, next } = node;
                self.next = match next {
                    None => None,
                    Some(rest) => Some(&mut **rest),
                };
                Some(elem)
            },
        }
    }
}

} // verus!
