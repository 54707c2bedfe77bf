//! Turning the star catalogue's answer into the eight text fields that the
//! window shows for a star.
//!
//! The catalogue answers with one JSON row, kept as text, such as
//! `[["* alf CMa",101.28,-16.71,379.21,"A0mA1Va",-1.46]]`.  The row is split
//! at every comma; its first five pieces become fields 2 to 6, and the two
//! leading bytes (`[[`) are taken off the first piece, which holds the name.
use vstd::prelude::*;

use vstd::utf8::{encode_utf8, is_char_boundary};

verus! {

/// The pieces of `text` between commas, like `str::split(',')`: an empty
/// text gives one empty piece, and consecutive commas give empty pieces.
pub open spec fn split_commas(text: Seq<char>) -> Seq<Seq<char>>
    decreases text.len(),
{
    if text.len() == 0 {
        seq![Seq::<char>::empty()]
    } else {
        let before = split_commas(text.drop_last());
        if text.last() == ',' {
            before.push(Seq::<char>::empty())
        } else {
            before.update(before.len() - 1, before.last().push(text.last()))
        }
    }
}

/// The row has at least five pieces, and its first piece can be cut after its
/// second byte (it holds two bytes or more, and the third begins a character).
pub open spec fn star_row_ok(row: Seq<char>) -> bool {
    let pieces = split_commas(row);
    &&& pieces.len() >= 5
    &&& is_char_boundary(encode_utf8(pieces[0]), 2)
}

pub proof fn lemma_split_commas_nonempty(text: Seq<char>)
    ensures
        split_commas(text).len() >= 1,
    decreases text.len(),
{
    if text.len() > 0 {
        lemma_split_commas_nonempty(text.drop_last());
    }
}

/// The pieces of `text` between commas, as strings.
pub fn comma_pieces(text: &str) -> (pieces: Vec<String>)
    ensures
        pieces@.map_values(|p: String| p@) == split_commas(text@),
{
    let n = text.unicode_len();
    let mut pieces: Vec<String> = Vec::new();
    let mut start: usize = 0;
    let mut i: usize = 0;
    proof {
        assert(text@.take(0) =~= Seq::<char>::empty());
        assert(pieces@.map_values(|p: String| p@).push(text@.subrange(0, 0)) =~= seq![
            Seq::<char>::empty(),
        ]);
    }
    while i < n
        invariant
            n == text@.len(),
            start <= i <= n,
            split_commas(text@.take(i as int)) == pieces@.map_values(|p: String| p@).push(
                text@.subrange(start as int, i as int),
            ),
        decreases n - i,
    {
        let c = text.get_char(i);
        proof {
            assert(text@.take(i + 1).drop_last() =~= text@.take(i as int));
            assert(text@.take(i + 1).last() == c);
        }
        if c == ',' {
            let piece = text.substring_char(start, i).to_owned();
            pieces.push(piece);
            start = i + 1;
            proof {
                assert(text@.subrange(start as int, (i + 1) as int) =~= Seq::<char>::empty());
            }
        } else {
            proof {
                assert(text@.subrange(start as int, i as int).push(c) =~= text@.subrange(
                    start as int,
                    (i + 1) as int,
                ));
            }
        }
        i = i + 1;
        proof {
            assert(split_commas(text@.take(i as int)) =~= pieces@.map_values(|p: String| p@).push(
                text@.subrange(start as int, i as int),
            ));
        }
    }
    let last = text.substring_char(start, n).to_owned();
    pieces.push(last);
    proof {
        assert(text@.take(n as int) =~= text@);
        assert(pieces@.map_values(|p: String| p@) =~= split_commas(text@));
    }
    pieces
}

/// The eight fields shown for a star: its magnitude and its distance from the
/// looked-up point as given, then the name (the first piece of the catalogue
/// row without its first two bytes), the next four pieces of the row, and an
/// empty last field.  `None` when the row has fewer than five pieces or its
/// first piece cannot be cut after two bytes.
pub fn star_summary(magnitude: String, distance: String, row: &str) -> (fields: Option<
    Vec<String>,
>)
    ensures
        fields is Some <==> star_row_ok(row@),
        fields matches Some(f) ==> {
            let pieces = split_commas(row@);
            &&& f.len() == 8
            &&& f[0]@ == magnitude@
            &&& f[1]@ == distance@
            &&& encode_utf8(f[2]@) == encode_utf8(pieces[0]).subrange(
                2,
                encode_utf8(pieces[0]).len() as int,
            )
            &&& forall|i: int| 3 <= i < 7 ==> #[trigger] f[i]@ == pieces[i - 2]
            &&& f[7]@ == Seq::<char>::empty()
        },
{
    let pieces = comma_pieces(row);
    proof {
        assert(pieces@.map_values(|p: String| p@).len() == pieces@.len());
    }
    if pieces.len() < 5 {
        return None;
    }
    let first = pieces[0].as_str();
    proof {
        assert(pieces@.map_values(|p: String| p@)[0] == pieces@[0]@);
    }
    if !first.is_char_boundary(2) {
        return None;
    }
    let (_, name) = first.split_at(2);
    let mut fields: Vec<String> = Vec::new();
    fields.push(magnitude);
    fields.push(distance);
    fields.push(name.to_owned());
    let mut k: usize = 1;
    while k < 5
        invariant
            1 <= k <= 5,
            pieces@.len() >= 5,
            pieces@.map_values(|p: String| p@) == split_commas(row@),
            fields@.len() == k + 2,
            forall|i: int| 3 <= i < k + 2 ==> #[trigger] fields@[i]@ == split_commas(row@)[i - 2],
            fields@[0]@ == magnitude@,
            fields@[1]@ == distance@,
            encode_utf8(fields@[2]@) == encode_utf8(split_commas(row@)[0]).subrange(
                2,
                encode_utf8(split_commas(row@)[0]).len() as int,
            ),
        decreases 5 - k,
    {
        let piece = pieces[k].clone();
        proof {
            assert(pieces@.map_values(|p: String| p@)[k as int] == pieces@[k as int]@);
        }
        fields.push(piece);
        k = k + 1;
    }
    fields.push(String::new());
    Some(fields)
}

/// The pieces written one after another with a comma between neighbours.
pub open spec fn join_commas(pieces: Seq<Seq<char>>) -> Seq<char>
    decreases pieces.len(),
{
    if pieces.len() == 0 {
        Seq::<char>::empty()
    } else if pieces.len() == 1 {
        pieces[0]
    } else {
        join_commas(pieces.drop_last()) + seq![','] + pieces.last()
    }
}

/// Law: splitting at commas loses nothing.  Joining the pieces with commas
/// gives the text back, and no piece holds a comma.
pub proof fn law_split_commas_rejoins(text: Seq<char>)
    ensures
        join_commas(split_commas(text)) == text,
        forall|i: int, j: int|
            0 <= i < split_commas(text).len() && 0 <= j < split_commas(text)[i].len()
                ==> split_commas(text)[i][j] != ',',
    decreases text.len(),
{
    if text.len() > 0 {
        let rest = text.drop_last();
        let c = text.last();
        let before = split_commas(rest);
        law_split_commas_rejoins(rest);
        lemma_split_commas_nonempty(rest);
        if c == ',' {
            assert(before.push(Seq::<char>::empty()).drop_last() =~= before);
            assert(join_commas(split_commas(text)) =~= text);
        } else {
            let grown = before.update(before.len() - 1, before.last().push(c));
            if before.len() == 1 {
                assert(join_commas(grown) =~= text);
            } else {
                assert(grown.drop_last() =~= before.drop_last());
                let head = join_commas(before.drop_last()) + seq![','];
                assert(join_commas(before) == head + before.last());
                assert(join_commas(grown) == head + before.last().push(c));
                assert(text =~= rest.push(c));
                assert(head + before.last().push(c) =~= (head + before.last()).push(c));
            }
            assert forall|i: int, j: int|
                0 <= i < grown.len() && 0 <= j < grown[i].len() implies grown[i][j] != ',' by {
                if i < before.len() - 1 {
                    assert(grown[i] == before[i]);
                } else if j < before.last().len() {
                    assert(grown[i][j] == before.last()[j]);
                }
            }
        }
    }
}

} // verus!
