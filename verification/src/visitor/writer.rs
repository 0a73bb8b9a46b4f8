//! A buffer that grows piece by piece.

use crate::ast::values::Scalar;
use crate::visitor::pieces::{
    identifier, lemma_identifier, lemma_parameters_concat, lemma_raw, lemma_sql_text_concat,
    lemma_text, parameters, quote_identifier, raw, sql_text, text, Piece,
};
use vstd::prelude::*;

verus! {

/// SQL text under construction, with the pieces it was made of and the
/// parameters that had been gathered when it was begun.
pub(crate) struct Writer {
    pub(crate) out: String,
    pub(crate) before: Ghost<Seq<Scalar>>,
    pub(crate) pieces: Ghost<Seq<Piece>>,
}

impl Writer {
    /// The text is that of the pieces, and `now` is what had been gathered
    /// at the start, followed by the parameters of the pieces.
    pub(crate) open spec fn holds(&self, now: Seq<Scalar>) -> bool {
        &&& self.out@ == sql_text(self.pieces@)
        &&& now == self.before@ + parameters(self.pieces@)
    }

    /// An empty text, begun when `before` had been gathered.
    pub(crate) fn new(Ghost(before): Ghost<Seq<Scalar>>) -> (out: Writer)
        ensures
            out.holds(before),
            out.before@ == before,
            out.pieces@ == Seq::<Piece>::empty(),
    {
        let out = Writer { out: String::new(), before: Ghost(before), pieces: Ghost(Seq::empty()) };
        assert(before =~= before + parameters(Seq::<Piece>::empty()));
        out
    }

    /// Appends a fixed text.
    pub(crate) fn text(&mut self, t: &str, Ghost(now): Ghost<Seq<Scalar>>)
        requires
            old(self).holds(now),
        ensures
            final(self).holds(now),
            final(self).before@ == old(self).before@,
            final(self).pieces@ == old(self).pieces@ + text(t@),
    {
        proof {
            lemma_text(t@);
            lemma_sql_text_concat(self.pieces@, text(t@));
            lemma_parameters_concat(self.pieces@, text(t@));
            assert(now =~= self.before@ + (parameters(self.pieces@) + parameters(text(t@))));
        }
        self.out.append(t);
        self.pieces = Ghost(self.pieces@ + text(t@));
    }

    /// Appends an identifier, quoted.
    pub(crate) fn identifier(&mut self, name: &str, Ghost(now): Ghost<Seq<Scalar>>)
        requires
            old(self).holds(now),
        ensures
            final(self).holds(now),
            final(self).before@ == old(self).before@,
            final(self).pieces@ == old(self).pieces@ + identifier(name@),
    {
        proof {
            lemma_identifier(name@);
            lemma_sql_text_concat(self.pieces@, identifier(name@));
            lemma_parameters_concat(self.pieces@, identifier(name@));
            assert(now =~= self.before@ + (parameters(self.pieces@) + parameters(
                identifier(name@),
            )));
        }
        let quoted = quote_identifier(name);
        self.out.append(quoted.as_str());
        self.pieces = Ghost(self.pieces@ + identifier(name@));
    }

    /// Appends a fragment that the caller wrote as SQL.
    pub(crate) fn raw(&mut self, t: &str, Ghost(now): Ghost<Seq<Scalar>>)
        requires
            old(self).holds(now),
        ensures
            final(self).holds(now),
            final(self).before@ == old(self).before@,
            final(self).pieces@ == old(self).pieces@ + raw(t@),
    {
        proof {
            lemma_raw(t@);
            lemma_sql_text_concat(self.pieces@, raw(t@));
            lemma_parameters_concat(self.pieces@, raw(t@));
            assert(now =~= self.before@ + (parameters(self.pieces@) + parameters(raw(t@))));
        }
        self.out.append(t);
        self.pieces = Ghost(self.pieces@ + raw(t@));
    }

    /// Appends what was written for the pieces `ps` while the gathered
    /// parameters went from `mid` to `now`.
    pub(crate) fn part(
        &mut self,
        part: &str,
        Ghost(ps): Ghost<Seq<Piece>>,
        Ghost(mid): Ghost<Seq<Scalar>>,
        Ghost(now): Ghost<Seq<Scalar>>,
    )
        requires
            old(self).holds(mid),
            part@ == sql_text(ps),
            now =~= mid + parameters(ps),
        ensures
            final(self).holds(now),
            final(self).before@ == old(self).before@,
            final(self).pieces@ == old(self).pieces@ + ps,
    {
        proof {
            lemma_sql_text_concat(self.pieces@, ps);
            lemma_parameters_concat(self.pieces@, ps);
            assert(now =~= self.before@ + (parameters(self.pieces@) + parameters(ps)));
        }
        self.out.append(part);
        self.pieces = Ghost(self.pieces@ + ps);
    }

    /// The text that was written.
    pub(crate) fn finish(self) -> (out: String)
        ensures
            out@ == self.out@,
    {
        self.out
    }
}

} // verus!
