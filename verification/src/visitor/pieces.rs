//! The units of emitted SQL, and the text of an identifier.

use crate::ast::values::Scalar;
use vstd::prelude::*;
use vstd::std_specs::iter::IteratorSpec;

verus! {

/// One unit of emitted SQL.
pub enum Piece {
    /// Fixed SQL: a keyword, an operator, punctuation.
    Text(Seq<char>),
    /// The name of a table, a column, a schema or an alias.
    Identifier(Seq<char>),
    /// The place of a bound parameter, with the value bound to it.
    Marker(Scalar),
    /// A fragment that the caller wrote as SQL.
    Raw(Seq<char>),
}

/// The token that stands in the SQL text for a bound parameter.
pub open spec fn marker_text() -> Seq<char> {
    seq![C_PARAMETER]
}

/// The character that surrounds every identifier in SQLite.
pub const C_BACKTICK: char = '`';

/// The character that stands for a bound parameter in SQLite.
pub const C_PARAMETER: char = '?';

/// The character that surrounds every identifier.
pub open spec fn quote_char() -> char {
    C_BACKTICK
}

/// The name with each embedded quote character written twice.
pub open spec fn doubled(name: Seq<char>) -> Seq<char>
    decreases name.len(),
{
    if name.len() == 0 {
        Seq::empty()
    } else if name.last() == quote_char() {
        doubled(name.drop_last()).push(quote_char()).push(quote_char())
    } else {
        doubled(name.drop_last()).push(name.last())
    }
}

/// An identifier as it stands in SQL text: quote, escaped name, quote.
pub open spec fn quoted(name: Seq<char>) -> Seq<char> {
    seq![quote_char()] + doubled(name) + seq![quote_char()]
}

/// What one piece contributes to the SQL text. The value of a marker is not
/// part of it.
pub open spec fn piece_text(p: Piece) -> Seq<char> {
    match p {
        Piece::Text(t) => t,
        Piece::Identifier(name) => quoted(name),
        Piece::Marker(_) => marker_text(),
        Piece::Raw(t) => t,
    }
}

/// What one piece contributes to the parameter list.
pub open spec fn piece_parameters(p: Piece) -> Seq<Scalar> {
    match p {
        Piece::Marker(v) => seq![v],
        _ => Seq::empty(),
    }
}

/// The SQL text of a run of pieces: their texts, one after the other.
pub open spec fn sql_text(ps: Seq<Piece>) -> Seq<char>
    decreases ps.len(),
{
    if ps.len() == 0 {
        Seq::empty()
    } else {
        sql_text(ps.drop_last()) + piece_text(ps.last())
    }
}

/// The parameter list of a run of pieces: the values of its markers, in the
/// order of the markers.
pub open spec fn parameters(ps: Seq<Piece>) -> Seq<Scalar>
    decreases ps.len(),
{
    if ps.len() == 0 {
        Seq::empty()
    } else {
        parameters(ps.drop_last()) + piece_parameters(ps.last())
    }
}

/// The number of markers in a run of pieces.
pub open spec fn marker_count(ps: Seq<Piece>) -> nat
    decreases ps.len(),
{
    if ps.len() == 0 {
        0
    } else if ps.last() is Marker {
        marker_count(ps.drop_last()) + 1
    } else {
        marker_count(ps.drop_last())
    }
}

/// How often a character stands in a text.
pub open spec fn count_of(s: Seq<char>, c: char) -> nat
    decreases s.len(),
{
    if s.len() == 0 {
        0
    } else if s.last() == c {
        count_of(s.drop_last(), c) + 1
    } else {
        count_of(s.drop_last(), c)
    }
}

/// How often the marker's character stands in the text of the pieces that
/// are no markers: in identifiers, raw fragments and fixed texts.
pub open spec fn stray_markers(ps: Seq<Piece>) -> nat
    decreases ps.len(),
{
    if ps.len() == 0 {
        0
    } else if ps.last() is Marker {
        stray_markers(ps.drop_last())
    } else {
        stray_markers(ps.drop_last()) + count_of(piece_text(ps.last()), C_PARAMETER)
    }
}

/// The name that was doubled, read back: each pair of quote characters is
/// one quote character of the name.
pub open spec fn undoubled(s: Seq<char>) -> Seq<char>
    decreases s.len(),
{
    if s.len() == 0 {
        Seq::empty()
    } else if s.len() >= 2 && s.last() == quote_char() && s[s.len() - 2] == quote_char() {
        undoubled(s.subrange(0, s.len() - 2)).push(quote_char())
    } else {
        undoubled(s.drop_last()).push(s.last())
    }
}

/// A run of one fixed text.
pub open spec fn text(t: Seq<char>) -> Seq<Piece> {
    seq![Piece::Text(t)]
}

/// A run of one identifier.
pub open spec fn identifier(name: Seq<char>) -> Seq<Piece> {
    seq![Piece::Identifier(name)]
}

/// A run of one marker.
pub open spec fn marker(v: Scalar) -> Seq<Piece> {
    seq![Piece::Marker(v)]
}

/// A run of one raw fragment.
pub open spec fn raw(t: Seq<char>) -> Seq<Piece> {
    seq![Piece::Raw(t)]
}

/// The text of two runs is the text of the first, then that of the second.
pub broadcast proof fn lemma_sql_text_concat(a: Seq<Piece>, b: Seq<Piece>)
    ensures
        #[trigger] sql_text(a + b) == sql_text(a) + sql_text(b),
    decreases b.len(),
{
    if b.len() == 0 {
        assert(a + b =~= a);
        assert(sql_text(a) + sql_text(b) =~= sql_text(a));
    } else {
        lemma_sql_text_concat(a, b.drop_last());
        assert((a + b).drop_last() =~= a + b.drop_last());
        assert((a + b).last() == b.last());
        assert(sql_text(a + b) =~= sql_text(a) + sql_text(b));
    }
}

/// The parameters of two runs are those of the first, then those of the
/// second.
pub broadcast proof fn lemma_parameters_concat(a: Seq<Piece>, b: Seq<Piece>)
    ensures
        #[trigger] parameters(a + b) == parameters(a) + parameters(b),
    decreases b.len(),
{
    if b.len() == 0 {
        assert(a + b =~= a);
        assert(parameters(a) + parameters(b) =~= parameters(a));
    } else {
        lemma_parameters_concat(a, b.drop_last());
        assert((a + b).drop_last() =~= a + b.drop_last());
        assert((a + b).last() == b.last());
        assert(parameters(a + b) =~= parameters(a) + parameters(b));
    }
}

/// A run of pieces binds exactly one parameter for each of its markers.
pub proof fn lemma_marker_parity(ps: Seq<Piece>)
    ensures
        parameters(ps).len() == marker_count(ps),
    decreases ps.len(),
{
    if ps.len() > 0 {
        lemma_marker_parity(ps.drop_last());
    }
}

/// A run of one piece has that piece's text and parameters.
pub proof fn lemma_single(p: Piece)
    ensures
        sql_text(seq![p]) == piece_text(p),
        parameters(seq![p]) == piece_parameters(p),
{
    assert(seq![p].drop_last() =~= Seq::<Piece>::empty());
    assert(sql_text(Seq::<Piece>::empty()) == Seq::<char>::empty());
    assert(parameters(Seq::<Piece>::empty()) == Seq::<Scalar>::empty());
    assert(sql_text(seq![p]) =~= piece_text(p));
    assert(parameters(seq![p]) =~= piece_parameters(p));
}

/// A fixed text is written out and binds nothing.
pub broadcast proof fn lemma_text(t: Seq<char>)
    ensures
        sql_text(#[trigger] text(t)) == t,
        parameters(text(t)) == Seq::<Scalar>::empty(),
{
    lemma_single(Piece::Text(t));
}

/// An identifier is written quoted and binds nothing.
pub broadcast proof fn lemma_identifier(name: Seq<char>)
    ensures
        sql_text(#[trigger] identifier(name)) == quoted(name),
        parameters(identifier(name)) == Seq::<Scalar>::empty(),
{
    lemma_single(Piece::Identifier(name));
}

/// A raw fragment is written out and binds nothing.
pub broadcast proof fn lemma_raw(t: Seq<char>)
    ensures
        sql_text(#[trigger] raw(t)) == t,
        parameters(raw(t)) == Seq::<Scalar>::empty(),
{
    lemma_single(Piece::Raw(t));
}

/// A marker is written as the marker token and binds its value.
pub broadcast proof fn lemma_marker(v: Scalar)
    ensures
        sql_text(#[trigger] marker(v)) == marker_text(),
        parameters(marker(v)) == seq![v],
{
    lemma_single(Piece::Marker(v));
}

/// What the text and the parameters of composed runs are.
pub broadcast group group_pieces {
    lemma_sql_text_concat,
    lemma_parameters_concat,
    lemma_text,
    lemma_identifier,
    lemma_raw,
    lemma_marker,
}

/// `String::push` appends the one character to the end of the string.
pub assume_specification[ String::push ](s: &mut String, c: char)
    ensures
        final(s)@ == old(s)@.push(c),
;

/// Writes the identifier between quote characters, doubling each quote
/// character inside it.
pub fn quote_identifier(name: &str) -> (out: String)
    ensures
        out@ == quoted(name@),
{
    let mut out = String::new();
    out.push(C_BACKTICK);
    let mut rest = name.chars();
    let ghost mut done: int = 0;
    assert(name@.skip(0) =~= name@);
    assert(name@.take(0) =~= Seq::<char>::empty());
    loop
        invariant
            0 <= done <= name@.len(),
            rest.remaining() == name@.skip(done),
            out@ == seq![quote_char()] + doubled(name@.take(done)),
        ensures
            done == name@.len(),
        decreases name@.len() - done,
    {
        match rest.next() {
            Some(c) => {
                proof {
                    assert(c == name@[done]);
                    assert(name@.skip(done).drop_first() =~= name@.skip(done + 1));
                    assert(name@.take(done + 1).drop_last() =~= name@.take(done));
                    assert(name@.take(done + 1).last() == c);
                    done = done + 1;
                }
                if c == C_BACKTICK {
                    out.push(C_BACKTICK);
                }
                out.push(c);
            },
            None => {
                break ;
            },
        }
    }
    proof {
        assert(name@.take(done) =~= name@);
    }
    out.push(C_BACKTICK);
    out
}

} // verus!
