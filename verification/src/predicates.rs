//! An ordered collection of already-rendered boolean expression fragments,
//! renderable as one `WHERE` clause joined by `AND`.

use vstd::prelude::*;

verus! {

/// The five characters that stand between two joined predicates.
pub open spec fn and_separator() -> Seq<char> {
    seq!['\n', 'A', 'N', 'D', ' ']
}

/// The predicates joined in order, with [`and_separator`] between each two.
pub open spec fn joined_with_and(preds: Seq<Seq<char>>) -> Seq<char>
    decreases preds.len(),
{
    if preds.len() == 0 {
        Seq::empty()
    } else if preds.len() == 1 {
        preds[0]
    } else {
        preds[0] + and_separator() + joined_with_and(preds.drop_first())
    }
}

/// Ordered collection of boolean predicate fragments. It never inspects or
/// validates fragment content; order of append is preserved.
pub struct Predicates(Vec<String>);

impl View for Predicates {
    type V = Seq<Seq<char>>;

    closed spec fn view(&self) -> Seq<Seq<char>> {
        self.0.deep_view()
    }
}

impl Predicates {
    /// Creates an empty collection.
    pub fn new() -> (r: Predicates)
        ensures
            r@ == Seq::<Seq<char>>::empty(),
    {
        Predicates(Vec::new())
    }

    /// Creates a collection containing the given predicate.
    pub fn from(predicate: String) -> (r: Predicates)
        ensures
            r@ == seq![predicate@],
    {
        let r = Predicates::new().and(predicate);
        proof {
            assert(r@ =~= seq![predicate@]);
        }
        r
    }

    /// Creates a collection containing the given predicates, in order.
    pub fn from_all(predicates: Vec<String>) -> (r: Predicates)
        ensures
            r@ == predicates.deep_view(),
    {
        let ghost given = predicates.deep_view();
        let r = Predicates::new().and_all(predicates);
        proof {
            assert(r@ =~= given);
        }
        r
    }

    /// Gets the `WHERE` statement over these predicates; rendering it does
    /// not consume or change the collection.
    pub fn as_where<'s>(&'s self) -> (r: PredicateStatement<'s>)
        ensures
            r.preds() == self@,
            r.statement() == "WHERE"@,
    {
        PredicateStatement { statement: "WHERE", predicates: &self.0 }
    }

    /// Appends one predicate.
    pub fn and_push(&mut self, predicate: String)
        ensures
            final(self)@ == old(self)@.push(predicate@),
    {
        self.0.push(predicate);
    }

    /// Appends all given predicates, in order.
    pub fn and_extend(&mut self, predicates: Vec<String>)
        ensures
            final(self)@ == old(self)@ + predicates.deep_view(),
    {
        let n = predicates.len();
        let mut i: usize = 0;
        let rest = predicates;
        proof {
            assert(old(self)@ + rest.deep_view().take(0) =~= old(self)@);
        }
        while i < n
            invariant
                n == rest@.len(),
                i <= n,
                self@ == old(self)@ + rest.deep_view().take(i as int),
            decreases n - i,
        {
            let p = rest[i].clone();
            proof {
                assert(p@ == rest.deep_view()[i as int]);
            }
            let ghost before = self@;
            self.0.push(p);
            proof {
                assert(self@ =~= before.push(p@));
                assert(rest.deep_view().take(i + 1) =~= rest.deep_view().take(i as int).push(
                    rest.deep_view()[i as int],
                ));
                assert((old(self)@ + rest.deep_view().take(i as int)).push(p@) =~= old(self)@
                    + rest.deep_view().take(i + 1));
            }
            i = i + 1;
        }
        proof {
            assert(rest.deep_view().take(n as int) =~= rest.deep_view());
        }
    }

    /// Appends one predicate, fluent style.
    pub fn and(self, predicate: String) -> (r: Predicates)
        ensures
            r@ == self@.push(predicate@),
    {
        let mut r = self;
        r.and_push(predicate);
        r
    }

    /// Appends all given predicates, fluent style.
    pub fn and_all(self, predicates: Vec<String>) -> (r: Predicates)
        ensures
            r@ == self@ + predicates.deep_view(),
    {
        let mut r = self;
        r.and_extend(predicates);
        r
    }

    /// Hands the collected predicates out, in order.
    pub fn into_vec(self) -> (r: Vec<String>)
        ensures
            r.deep_view() == self@,
    {
        self.0
    }
}

/// A rendered-on-demand SQL statement: a keyword followed by boolean
/// predicates joined by `AND`.
pub struct PredicateStatement<'s> {
    statement: &'static str,
    predicates: &'s Vec<String>,
}

impl<'s> PredicateStatement<'s> {
    /// The statement keyword this renders under.
    pub closed spec fn statement(&self) -> Seq<char> {
        self.statement@
    }

    /// The predicates this renders, in order.
    pub closed spec fn preds(&self) -> Seq<Seq<char>> {
        self.predicates.deep_view()
    }

    /// Renders the statement: the keyword, a space, then the predicates in
    /// order of append, joined by a newline and `AND `.
    pub fn to_sql(&self) -> (r: String)
        ensures
            r@ == self.statement() + seq![' '] + joined_with_and(self.preds()),
    {
        let mut out = String::new();
        out.append(self.statement);
        out.push(' ');
        let ghost prefix = self.statement@ + seq![' '];
        assert(out@ =~= prefix);
        let n = self.predicates.len();
        let mut i: usize = 0;
        while i < n
            invariant
                n == self.predicates@.len(),
                i <= n,
                out@ == prefix + joined_with_and(self.preds().take(i as int)),
            decreases n - i,
        {
            if i > 0 {
                out.append("\nAND ");
                proof {
                    reveal_strlit("\nAND ");
                    assert("\nAND "@ =~= and_separator());
                }
            }
            let p: &String = &self.predicates[i];
            out.append(p.as_str());
            proof {
                assert(p@ == self.preds()[i as int]);
                lemma_joined_with_and_push(self.preds().take(i as int), self.preds()[i as int]);
                assert(self.preds().take(i + 1) =~= self.preds().take(i as int).push(
                    self.preds()[i as int],
                ));
                assert(out@ =~= prefix + joined_with_and(self.preds().take(i + 1)));
            }
            i = i + 1;
        }
        proof {
            assert(self.preds().take(n as int) =~= self.preds());
        }
        out
    }
}

proof fn lemma_joined_with_and_push(preds: Seq<Seq<char>>, p: Seq<char>)
    ensures
        joined_with_and(preds.push(p)) == if preds.len() == 0 {
            p
        } else {
            joined_with_and(preds) + and_separator() + p
        },
    decreases preds.len(),
{
    let pp = preds.push(p);
    if preds.len() == 0 {
        assert(pp.len() == 1);
        assert(pp[0] == p);
        assert(joined_with_and(pp) == p);
    } else if preds.len() == 1 {
        assert(pp[0] == preds[0]);
        assert(pp.drop_first() =~= seq![p]);
        assert(joined_with_and(pp.drop_first()) == p);
        assert(joined_with_and(pp) == pp[0] + and_separator() + joined_with_and(pp.drop_first()));
        assert(joined_with_and(preds) == preds[0]);
        assert(joined_with_and(pp) =~= joined_with_and(preds) + and_separator() + p);
    } else {
        assert(pp[0] == preds[0]);
        assert(pp.drop_first() =~= preds.drop_first().push(p));
        lemma_joined_with_and_push(preds.drop_first(), p);
        assert(joined_with_and(pp.drop_first()) == joined_with_and(preds.drop_first())
            + and_separator() + p);
        assert(joined_with_and(pp) == pp[0] + and_separator() + joined_with_and(pp.drop_first()));
        assert(joined_with_and(preds) == preds[0] + and_separator() + joined_with_and(
            preds.drop_first(),
        ));
        assert(joined_with_and(pp) =~= joined_with_and(preds) + and_separator() + p);
    }
}

} // verus!

