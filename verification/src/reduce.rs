//! The pattern reducer: turns an ordered run of pattern items into the
//! compact letter string `d` / `M` / `y` interleaved with the pattern's
//! literal separators.

use vstd::prelude::*;

verus! {

/// What the reducer needs to know about a pattern field's symbol: whether it
/// is a day, month or year field. Every other symbol (weekday, hour, era,
/// ...) reduces to nothing, so they are kept under one catch-all kind, which
/// also absorbs any symbol a future data addition might introduce.
#[derive(Clone, Copy, Debug, PartialEq, Eq, Structural)]
pub enum FieldKind {
    Day,
    Month,
    Year,
    Other,
}

/// One item of a pattern: a date/time field (width already erased, the
/// reducer never reads it) or a literal character kept verbatim.
#[derive(Clone, Copy, Debug, PartialEq, Eq, Structural)]
pub enum PatternPiece {
    Field(FieldKind),
    Literal(char),
}

/// The characters a single pattern piece contributes to the reduced string.
pub open spec fn piece_chars(p: PatternPiece) -> Seq<char> {
    match p {
        PatternPiece::Field(FieldKind::Day) => seq!['d'],
        PatternPiece::Field(FieldKind::Month) => seq!['M'],
        PatternPiece::Field(FieldKind::Year) => seq!['y'],
        PatternPiece::Field(FieldKind::Other) => Seq::empty(),
        PatternPiece::Literal(c) => seq![c],
    }
}

/// The reduced string of a whole pattern: the pieces' contributions in
/// pattern order.
pub open spec fn reduce_spec(items: Seq<PatternPiece>) -> Seq<char>
    decreases items.len(),
{
    if items.len() == 0 {
        Seq::empty()
    } else {
        piece_chars(items[0]) + reduce_spec(items.drop_first())
    }
}

pub proof fn lemma_reduce_push(items: Seq<PatternPiece>, p: PatternPiece)
    ensures
        reduce_spec(items.push(p)) == reduce_spec(items) + piece_chars(p),
    decreases items.len(),
{
    if items.len() == 0 {
        assert(items.push(p).drop_first() =~= Seq::<PatternPiece>::empty());
        assert(items.push(p)[0] == p);
        assert(reduce_spec(items.push(p)) == piece_chars(p) + reduce_spec(Seq::<PatternPiece>::empty()));
        assert(reduce_spec(items.push(p)) =~= reduce_spec(items) + piece_chars(p));
    } else {
        assert(items.push(p).drop_first() =~= items.drop_first().push(p));
        lemma_reduce_push(items.drop_first(), p);
        assert(reduce_spec(items.push(p)) =~= reduce_spec(items) + piece_chars(p));
    }
}

/// Relies on `String::push`: it appends exactly the one given character.
#[verifier::external_body]
fn push_char(s: &mut String, c: char)
    ensures
        final(s)@ == old(s)@.push(c),
{
    s.push(c);
}

/// Reduce a pattern to its compact letter string: `d`, `M` or `y` for each
/// day, month or year field, nothing for any other field, and literal
/// characters copied through unchanged, all in pattern order.
pub fn reduce_pattern(items: &Vec<PatternPiece>) -> (r: String)
    ensures
        r@ == reduce_spec(items@),
{
    let mut out = String::from_str("");
    proof {
        reveal_strlit("");
        assert(out@ =~= Seq::<char>::empty());
    }
    let n = items.len();
    let mut i: usize = 0;
    while i < n
        invariant
            i <= n,
            n == items@.len(),
            out@ == reduce_spec(items@.take(i as int)),
        decreases n - i,
    {
        match items[i] {
            PatternPiece::Field(FieldKind::Day) => push_char(&mut out, 'd'),
            PatternPiece::Field(FieldKind::Month) => push_char(&mut out, 'M'),
            PatternPiece::Field(FieldKind::Year) => push_char(&mut out, 'y'),
            PatternPiece::Field(FieldKind::Other) => (),
            PatternPiece::Literal(c) => push_char(&mut out, c),
        }
        proof {
            assert(items@.take(i + 1) =~= items@.take(i as int).push(items@[i as int]));
            lemma_reduce_push(items@.take(i as int), items@[i as int]);
            assert(out@ =~= reduce_spec(items@.take(i + 1)));
        }
        i = i + 1;
    }
    proof {
        assert(items@.take(n as int) =~= items@);
    }
    out
}


/// A letter the reducer emits for a date field.
pub open spec fn is_dmy_letter(c: char) -> bool {
    c == 'd' || c == 'M' || c == 'y'
}

/// The letter the reducer emits for a date field of the given kind.
pub open spec fn letter_of(k: FieldKind) -> char {
    match k {
        FieldKind::Day => 'd',
        FieldKind::Month => 'M',
        FieldKind::Year => 'y',
        FieldKind::Other => ' ',
    }
}

/// No literal of the pattern uses a letter that stands for a date field.
pub open spec fn no_dmy_literals(items: Seq<PatternPiece>) -> bool {
    forall|i: int|
        0 <= i < items.len() ==> (items[i] is Literal ==> !is_dmy_letter(items[i]->Literal_0))
}

/// How often a character occurs in a sequence.
pub open spec fn occurrences(s: Seq<char>, c: char) -> nat
    decreases s.len(),
{
    if s.len() == 0 {
        0
    } else {
        (if s[0] == c {
            1nat
        } else {
            0nat
        }) + occurrences(s.drop_first(), c)
    }
}

/// How many fields of a kind a pattern holds.
pub open spec fn kind_count(items: Seq<PatternPiece>, k: FieldKind) -> nat
    decreases items.len(),
{
    if items.len() == 0 {
        0
    } else {
        (if items[0] == PatternPiece::Field(k) {
            1nat
        } else {
            0nat
        }) + kind_count(items.drop_first(), k)
    }
}

pub proof fn lemma_occurrences_concat(a: Seq<char>, b: Seq<char>, c: char)
    ensures
        occurrences(a + b, c) == occurrences(a, c) + occurrences(b, c),
    decreases a.len(),
{
    if a.len() == 0 {
        assert(a + b =~= b);
    } else {
        assert((a + b).drop_first() =~= a.drop_first() + b);
        lemma_occurrences_concat(a.drop_first(), b, c);
    }
}

/// The reduced string holds the letter of a date-field kind exactly as
/// often as the pattern holds fields of that kind, provided no literal
/// spells that letter.
pub proof fn lemma_letter_count(items: Seq<PatternPiece>, k: FieldKind)
    requires
        k != FieldKind::Other,
        no_dmy_literals(items),
    ensures
        occurrences(reduce_spec(items), letter_of(k)) == kind_count(items, k),
    decreases items.len(),
{
    if items.len() == 0 {
    } else {
        let rest = items.drop_first();
        assert(forall|i: int| 0 <= i < rest.len() ==> rest[i] == items[i + 1]);
        lemma_letter_count(rest, k);
        lemma_occurrences_concat(piece_chars(items[0]), reduce_spec(rest), letter_of(k));
        match items[0] {
            PatternPiece::Field(kk) => {
                if kk == FieldKind::Other {
                    assert(occurrences(piece_chars(items[0]), letter_of(k)) == 0);
                } else {
                    assert(piece_chars(items[0]) =~= seq![letter_of(kk)]);
                    assert(seq![letter_of(kk)][0] == letter_of(kk));
                    assert(seq![letter_of(kk)].drop_first() =~= Seq::<char>::empty());
                    assert(occurrences(Seq::<char>::empty(), letter_of(k)) == 0);
                    assert(occurrences(piece_chars(items[0]), letter_of(k)) == (
                    if letter_of(kk) == letter_of(k) {
                        1nat
                    } else {
                        0nat
                    }));
                    assert(letter_of(kk) == letter_of(k) <==> kk == k);
                }
            },
            PatternPiece::Literal(c) => {
                assert(!is_dmy_letter(c));
                assert(piece_chars(items[0]) =~= seq![c]);
                assert(seq![c][0] == c);
                assert(seq![c].drop_first() =~= Seq::<char>::empty());
                assert(occurrences(Seq::<char>::empty(), letter_of(k)) == 0);
                assert(occurrences(piece_chars(items[0]), letter_of(k)) == 0);
            },
        }
    }
}

/// When a pattern holds exactly one day field, one month field and one
/// year field, and its literals use none of the letters `d`, `M`, `y`, the
/// reduced string holds exactly one of each of those letters.
pub proof fn lemma_one_of_each_letter(items: Seq<PatternPiece>)
    requires
        no_dmy_literals(items),
        kind_count(items, FieldKind::Day) == 1,
        kind_count(items, FieldKind::Month) == 1,
        kind_count(items, FieldKind::Year) == 1,
    ensures
        occurrences(reduce_spec(items), 'd') == 1,
        occurrences(reduce_spec(items), 'M') == 1,
        occurrences(reduce_spec(items), 'y') == 1,
{
    lemma_letter_count(items, FieldKind::Day);
    lemma_letter_count(items, FieldKind::Month);
    lemma_letter_count(items, FieldKind::Year);
}

/// The date-field letters of a pattern, in pattern order.
pub open spec fn field_letters(items: Seq<PatternPiece>) -> Seq<char>
    decreases items.len(),
{
    if items.len() == 0 {
        Seq::empty()
    } else {
        (match items[0] {
            PatternPiece::Field(FieldKind::Day) => seq!['d'],
            PatternPiece::Field(FieldKind::Month) => seq!['M'],
            PatternPiece::Field(FieldKind::Year) => seq!['y'],
            _ => Seq::empty(),
        }) + field_letters(items.drop_first())
    }
}

/// The `d`, `M` and `y` letters of a character sequence, in order.
pub open spec fn dmy_letters(s: Seq<char>) -> Seq<char>
    decreases s.len(),
{
    if s.len() == 0 {
        Seq::empty()
    } else {
        (if is_dmy_letter(s[0]) {
            seq![s[0]]
        } else {
            Seq::empty()
        }) + dmy_letters(s.drop_first())
    }
}

pub proof fn lemma_dmy_letters_concat(a: Seq<char>, b: Seq<char>)
    ensures
        dmy_letters(a + b) == dmy_letters(a) + dmy_letters(b),
    decreases a.len(),
{
    if a.len() == 0 {
        assert(a + b =~= b);
        assert(dmy_letters(a) + dmy_letters(b) =~= dmy_letters(b));
    } else {
        assert((a + b).drop_first() =~= a.drop_first() + b);
        lemma_dmy_letters_concat(a.drop_first(), b);
        assert(dmy_letters(a + b) =~= dmy_letters(a) + dmy_letters(b));
    }
}

/// The `d`, `M`, `y` letters appear in the reduced string exactly in the
/// order of the pattern's day, month and year fields, provided no literal
/// spells one of those letters.
pub proof fn lemma_letter_order(items: Seq<PatternPiece>)
    requires
        no_dmy_literals(items),
    ensures
        dmy_letters(reduce_spec(items)) == field_letters(items),
    decreases items.len(),
{
    if items.len() == 0 {
    } else {
        let rest = items.drop_first();
        assert(forall|i: int| 0 <= i < rest.len() ==> rest[i] == items[i + 1]);
        lemma_letter_order(rest);
        lemma_dmy_letters_concat(piece_chars(items[0]), reduce_spec(rest));
        match items[0] {
            PatternPiece::Field(kk) => {
                if kk == FieldKind::Other {
                    assert(dmy_letters(piece_chars(items[0])) =~= Seq::<char>::empty());
                } else {
                    assert(piece_chars(items[0]) =~= seq![letter_of(kk)]);
                    assert(seq![letter_of(kk)][0] == letter_of(kk));
                    assert(seq![letter_of(kk)].drop_first() =~= Seq::<char>::empty());
                    assert(dmy_letters(Seq::<char>::empty()) =~= Seq::<char>::empty());
                    assert(dmy_letters(seq![letter_of(kk)]) =~= seq![letter_of(kk)]);
                    assert(dmy_letters(piece_chars(items[0])) =~= seq![letter_of(kk)]);
                }
            },
            PatternPiece::Literal(c) => {
                assert(!is_dmy_letter(c));
                assert(piece_chars(items[0]) =~= seq![c]);
                assert(seq![c][0] == c);
                assert(seq![c].drop_first() =~= Seq::<char>::empty());
                assert(dmy_letters(Seq::<char>::empty()) =~= Seq::<char>::empty());
                assert(dmy_letters(seq![c]) =~= Seq::<char>::empty());
                assert(dmy_letters(piece_chars(items[0])) =~= Seq::<char>::empty());
            },
        }
        assert(dmy_letters(reduce_spec(items)) =~= field_letters(items));
    }
}

pub proof fn lemma_reduce_concat(a: Seq<PatternPiece>, b: Seq<PatternPiece>)
    ensures
        reduce_spec(a + b) == reduce_spec(a) + reduce_spec(b),
    decreases a.len(),
{
    if a.len() == 0 {
        assert(a + b =~= b);
        assert(reduce_spec(a) + reduce_spec(b) =~= reduce_spec(b));
    } else {
        assert((a + b).drop_first() =~= a.drop_first() + b);
        lemma_reduce_concat(a.drop_first(), b);
        assert(reduce_spec(a + b) =~= reduce_spec(a) + reduce_spec(b));
    }
}

/// A pattern with its unrecognized fields removed.
pub open spec fn without_other_fields(items: Seq<PatternPiece>) -> Seq<PatternPiece>
    decreases items.len(),
{
    if items.len() == 0 {
        Seq::empty()
    } else {
        (if items[0] == PatternPiece::Field(FieldKind::Other) {
            Seq::empty()
        } else {
            seq![items[0]]
        }) + without_other_fields(items.drop_first())
    }
}

/// Unknown field symbols are dropped silently: removing every
/// unrecognized field from the pattern leaves the reduced string
/// unchanged.
pub proof fn lemma_unknown_fields_dropped(items: Seq<PatternPiece>)
    ensures
        reduce_spec(without_other_fields(items)) == reduce_spec(items),
    decreases items.len(),
{
    if items.len() == 0 {
    } else {
        let rest = items.drop_first();
        lemma_unknown_fields_dropped(rest);
        if items[0] == PatternPiece::Field(FieldKind::Other) {
            assert(without_other_fields(items) =~= without_other_fields(rest));
            assert(reduce_spec(items) =~= reduce_spec(rest));
        } else {
            lemma_reduce_concat(seq![items[0]], without_other_fields(rest));
            assert(seq![items[0]][0] == items[0]);
            assert(seq![items[0]].drop_first() =~= Seq::<PatternPiece>::empty());
            assert(reduce_spec(Seq::<PatternPiece>::empty()) =~= Seq::<char>::empty());
            assert(reduce_spec(seq![items[0]]) =~= piece_chars(items[0]));
            assert(reduce_spec(without_other_fields(items)) =~= reduce_spec(items));
        }
    }
}

/// Literals pass through verbatim: a pattern of literals alone reduces to
/// exactly its characters, in order.
pub proof fn lemma_literals_preserved(items: Seq<PatternPiece>)
    requires
        forall|i: int| 0 <= i < items.len() ==> items[i] is Literal,
    ensures
        reduce_spec(items) == Seq::new(items.len(), |i: int| items[i]->Literal_0),
    decreases items.len(),
{
    if items.len() == 0 {
        assert(reduce_spec(items) =~= Seq::new(items.len(), |i: int| items[i]->Literal_0));
    } else {
        let rest = items.drop_first();
        assert(forall|i: int| 0 <= i < rest.len() ==> rest[i] == items[i + 1]);
        lemma_literals_preserved(rest);
        assert(items[0] is Literal);
        assert(piece_chars(items[0]) =~= seq![items[0]->Literal_0]);
        assert(reduce_spec(items) =~= Seq::new(items.len(), |i: int| items[i]->Literal_0));
    }
}

} // verus!

