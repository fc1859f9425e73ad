//! Interleaving of two sequences: `a0 b0 a1 b1 ... a(n-1)`, taking from `b`
//! only while `a` has more to give.

use vstd::prelude::*;

verus! {

/// Which side the next element comes from.
#[derive(Clone, Copy, Debug, PartialEq, Eq, Structural)]
pub enum Next {
    A,
    B,
}

impl Next {
    /// Switches to the other side.
    pub fn flip(&mut self)
        ensures
            *final(self) == (if *old(self) == Next::A {
                Next::B
            } else {
                Next::A
            }),
    {
        *self = match self {
            Next::A => Next::B,
            Next::B => Next::A,
        }
    }
}

/// The whole output of a join of `a` with `b`, starting on the `a` side: the
/// elements of `a` with one element of `b` between each two of them, ending
/// early if `b` runs out.
pub open spec fn joined<T>(a: Seq<T>, b: Seq<T>) -> Seq<T>
    decreases a.len(),
{
    if a.len() == 0 {
        Seq::empty()
    } else if a.len() == 1 || b.len() == 0 {
        seq![a[0]]
    } else {
        seq![a[0], b[0]] + joined(a.drop_first(), b.drop_first())
    }
}

/// What a join in state `(a, b, next)` still has to give.
pub open spec fn join_rest<T>(a: Seq<T>, b: Seq<T>, next: Next) -> Seq<T> {
    if next == Next::A {
        joined(a, b)
    } else if a.len() > 0 && b.len() > 0 {
        seq![b[0]] + joined(a, b.drop_first())
    } else {
        Seq::empty()
    }
}

/// Yields from `a` and `b` in turn; a `b` element is yielded only when `a`
/// still has an element to follow it.
#[derive(Debug)]
pub struct Join<T> {
    a: Vec<T>,
    b: Vec<T>,
    next: Next,
}

impl<T> Join<T> {
    /// What is left on the `a` side.
    pub closed spec fn left(&self) -> Seq<T> {
        self.a@
    }

    /// What is left on the `b` side.
    pub closed spec fn right(&self) -> Seq<T> {
        self.b@
    }

    /// The side the next element comes from.
    pub closed spec fn side(&self) -> Next {
        self.next
    }

    pub fn new(a: Vec<T>, b: Vec<T>) -> (r: Self)
        ensures
            r.left() == a@,
            r.right() == b@,
            r.side() == Next::A,
    {
        Self { a, b, next: Next::A }
    }

    /// The next element, switching sides after each call.
    pub fn next(&mut self) -> (r: Option<T>)
        ensures
            final(self).side() != old(self).side(),
            old(self).side() == Next::A ==> if old(self).left().len() > 0 {
                r == Some(old(self).left()[0]) && final(self).left() == old(self).left().drop_first()
                    && final(self).right() == old(self).right()
            } else {
                r is None && final(self).left() == old(self).left() && final(self).right() == old(
                    self,
                ).right()
            },
            old(self).side() == Next::B ==> if old(self).left().len() > 0 && old(self).right().len()
                > 0 {
                r == Some(old(self).right()[0]) && final(self).right() == old(self).right().drop_first()
                    && final(self).left() == old(self).left()
            } else {
                r is None && final(self).left() == old(self).left() && final(self).right() == old(
                    self,
                ).right()
            },
    {
        let r = match self.next {
            Next::A => {
                if self.a.len() > 0 {
                    Some(self.a.remove(0))
                } else {
                    None
                }
            },
            Next::B => {
                if self.a.len() > 0 && self.b.len() > 0 {
                    Some(self.b.remove(0))
                } else {
                    None
                }
            },
        };
        self.next.flip();
        r
    }

    /// Everything the join still has to give, in order.
    pub fn collect_all(&mut self) -> (r: Vec<T>)
        ensures
            r@ == join_rest(old(self).left(), old(self).right(), old(self).side()),
    {
        let mut out: Vec<T> = Vec::new();
        loop
            invariant
                out@ + join_rest(self.left(), self.right(), self.side()) == join_rest(
                    old(self).left(),
                    old(self).right(),
                    old(self).side(),
                ),
            decreases 2 * (self.left().len() + self.right().len()) + if self.side() == Next::A {
                1int
            } else {
                0int
            },
        {
            let ghost a = self.left();
            let ghost b = self.right();
            let ghost side = self.side();
            match self.next() {
                Some(x) => {
                    proof {
                        if side == Next::A {
                            assert(join_rest(self.left(), self.right(), self.side()) =~= joined(
                                a,
                                b,
                            ).drop_first());
                        } else {
                            assert(join_rest(self.left(), self.right(), self.side()) =~= joined(
                                a,
                                b.drop_first(),
                            ));
                        }
                    }
                    assert(out@.push(x) + join_rest(self.left(), self.right(), self.side()) =~= out@
                        + join_rest(a, b, side));
                    out.push(x);
                },
                None => {
                    proof {
                        if side == Next::A {
                            assert(join_rest(a, b, side) =~= Seq::<T>::empty());
                        }
                    }
                    assert(out@ + join_rest(a, b, side) =~= out@);
                    return out;
                },
            }
        }
    }
}

} // verus!
