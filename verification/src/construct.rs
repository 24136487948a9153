//! The shape of a try construct: which blocks it has, and the rule that it
//! has at least two.

use std::any::TypeId;
use vstd::prelude::*;

verus! {

/// The blocks of a try construct besides the try block itself, as the
/// dispatch rules read them.
pub ghost struct Shape {
    /// The declared types of the typed catch clauses, in declaration order.
    pub typed: Seq<TypeId>,
    /// Whether a clause for every thrown value is present.
    pub catch_all: bool,
    /// Whether a clause for genuine faults is present.
    pub catch_panic: bool,
    /// Whether a finally block is present.
    pub finally: bool,
}

/// One for a block that is present, none for one that is absent.
pub open spec fn present(block: bool) -> nat {
    if block {
        1
    } else {
        0
    }
}

impl Shape {
    /// The number of blocks: the try block, each typed clause, and each of the
    /// three optional blocks that is present.
    pub open spec fn block_count(self) -> nat {
        1 + self.typed.len() + present(self.catch_all) + present(self.catch_panic) + present(
            self.finally,
        )
    }

    /// A bare try block does nothing that its body would not do alone, so a
    /// construct needs a second block.
    pub open spec fn accepted(self) -> bool {
        self.block_count() >= 2
    }

    /// Whether the typed clause at `i` is declared for the type `tag`.
    pub open spec fn declares(self, i: int, tag: TypeId) -> bool {
        0 <= i < self.typed.len() && self.typed[i] == tag
    }

    /// Whether `i` is the first typed clause, in declaration order, that is
    /// declared for `tag`.
    pub open spec fn first_declaring(self, i: int, tag: TypeId) -> bool {
        self.declares(i, tag) && forall|j: int| 0 <= j < i ==> !self.declares(j, tag)
    }

    /// Whether some typed clause is declared for `tag`.
    pub open spec fn some_declares(self, tag: TypeId) -> bool {
        exists|i: int| self.declares(i, tag)
    }

    /// The first typed clause declared for `tag`, if there is one.
    pub open spec fn first_match(self, tag: TypeId) -> Option<int> {
        if exists|i: int| self.first_declaring(i, tag) {
            Some(choose|i: int| self.first_declaring(i, tag))
        } else {
            None
        }
    }
}

/// At most one clause is the first one declared for a type.
pub proof fn lemma_first_declaring_unique(shape: Shape, tag: TypeId, i: int, k: int)
    requires
        shape.first_declaring(i, tag),
        shape.first_declaring(k, tag),
    ensures
        i == k,
{
    if i < k {
        assert(!shape.declares(i, tag));
    } else if k < i {
        assert(!shape.declares(k, tag));
    }
}

/// The first match is the one clause that is first declared for the type.
pub proof fn lemma_first_match_is(shape: Shape, tag: TypeId, i: int)
    requires
        shape.first_declaring(i, tag),
    ensures
        shape.first_match(tag) == Some(i),
{
    let k = choose|k: int| shape.first_declaring(k, tag);
    lemma_first_declaring_unique(shape, tag, i, k);
}

/// Where no clause is declared for the type, there is no first match.
pub proof fn lemma_first_match_none(shape: Shape, tag: TypeId)
    requires
        forall|j: int| 0 <= j < shape.typed.len() ==> !shape.declares(j, tag),
    ensures
        shape.first_match(tag).is_none(),
        !shape.some_declares(tag),
{
    assert forall|i: int| !shape.first_declaring(i, tag) by {
        if shape.first_declaring(i, tag) {
            assert(shape.declares(i, tag));
        }
    }
}

/// Among the clauses declared for a type there is a first one.
pub proof fn lemma_some_declares_has_first(shape: Shape, tag: TypeId, i: int)
    requires
        shape.declares(i, tag),
    ensures
        shape.first_match(tag) matches Some(k) && shape.first_declaring(k, tag) && k <= i,
    decreases i,
{
    if forall|j: int| 0 <= j < i ==> !shape.declares(j, tag) {
        assert(shape.first_declaring(i, tag));
        lemma_first_match_is(shape, tag, i);
    } else {
        let j = choose|j: int| 0 <= j < i && shape.declares(j, tag);
        lemma_some_declares_has_first(shape, tag, j);
    }
}

/// Why a construct was refused.
#[derive(Debug, Clone, Copy, PartialEq, Eq, Structural)]
pub enum ShapeError {
    /// The construct has a try block and nothing else.
    TooFewBlocks,
}

/// A try construct that was accepted: it has at least two blocks.
pub struct Construct {
    typed: Vec<TypeId>,
    catch_all: bool,
    catch_panic: bool,
    finally: bool,
}

impl View for Construct {
    type V = Shape;

    closed spec fn view(&self) -> Shape {
        Shape {
            typed: self.typed@,
            catch_all: self.catch_all,
            catch_panic: self.catch_panic,
            finally: self.finally,
        }
    }
}

impl Construct {
    #[verifier::type_invariant]
    spec fn two_blocks(self) -> bool {
        self@.accepted()
    }

    /// Builds a construct from its clauses, or refuses it. It is refused
    /// exactly when it would have fewer than two blocks; one that is accepted
    /// holds the clauses as they were given.
    pub fn new(typed: Vec<TypeId>, catch_all: bool, catch_panic: bool, finally: bool) -> (r:
        Result<Construct, ShapeError>)
        ensures
            r is Ok <==> (Shape { typed: typed@, catch_all, catch_panic, finally }).accepted(),
            r matches Ok(c) ==> c@ == (Shape { typed: typed@, catch_all, catch_panic, finally }),
            r matches Err(e) ==> e == ShapeError::TooFewBlocks,
    {
        if typed.len() == 0 && !catch_all && !catch_panic && !finally {
            Err(ShapeError::TooFewBlocks)
        } else {
            Ok(Construct { typed, catch_all, catch_panic, finally })
        }
    }

    /// The number of blocks, or `usize::MAX` where the number does not fit.
    pub fn block_count(&self) -> (r: usize)
        ensures
            self@.accepted(),
            r >= 2,
            self@.block_count() <= usize::MAX ==> r == self@.block_count(),
            self@.block_count() > usize::MAX ==> r == usize::MAX,
    {
        proof {
            use_type_invariant(self);
        }
        let mut extra: usize = 1;
        if self.catch_all {
            extra = extra + 1;
        }
        if self.catch_panic {
            extra = extra + 1;
        }
        if self.finally {
            extra = extra + 1;
        }
        let clauses: usize = self.typed.len();
        if clauses > usize::MAX - extra {
            usize::MAX
        } else {
            clauses + extra
        }
    }

    /// The declared types of the typed catch clauses, in declaration order.
    pub fn typed(&self) -> (r: &Vec<TypeId>)
        ensures
            r@ == self@.typed,
    {
        &self.typed
    }

    /// Whether a clause for every thrown value is present.
    pub fn has_catch_all(&self) -> (r: bool)
        ensures
            r == self@.catch_all,
    {
        self.catch_all
    }

    /// Whether a clause for genuine faults is present.
    pub fn has_catch_panic(&self) -> (r: bool)
        ensures
            r == self@.catch_panic,
    {
        self.catch_panic
    }

    /// Whether a finally block is present.
    pub fn has_finally(&self) -> (r: bool)
        ensures
            r == self@.finally,
    {
        self.finally
    }

    /// The first typed clause declared for the type `tag`, in declaration
    /// order, or none where no clause is declared for it.
    pub fn first_match(&self, tag: &TypeId) -> (r: Option<usize>)
        ensures
            r matches Some(i) ==> self@.first_match(*tag) == Some(i as int),
            r is None ==> self@.first_match(*tag).is_none(),
    {
        let n: usize = self.typed.len();
        let mut i: usize = 0;
        while i < n
            invariant
                n == self.typed@.len(),
                i <= n,
                forall|j: int| 0 <= j < i ==> !self@.declares(j, *tag),
            decreases n - i,
        {
            if crate::carrier::same_type(&self.typed[i], tag) {
                proof {
                    assert(self@.declares(i as int, *tag));
                    lemma_first_match_is(self@, *tag, i as int);
                }
                return Some(i);
            }
            i = i + 1;
        }
        proof {
            lemma_first_match_none(self@, *tag);
        }
        None
    }
}

} // verus!
