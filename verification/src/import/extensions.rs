//! The list of file extensions that can be imported.
//!
//! The import engine gives the list as one string, the entries separated by
//! semicolons and each written as a pattern: `*.3ds;*.obj;*.dae`.

use vstd::prelude::*;
use vstd::string::StrSliceExecFns;

verus! {

/// The pieces of `text` between its semicolons. Text without a semicolon is
/// one piece, and so is the empty text; a semicolon at either end bounds an
/// empty piece.
pub open spec fn split_at_semicolons(text: Seq<char>) -> Seq<Seq<char>>
    decreases text.len(),
{
    if text.len() == 0 {
        seq![Seq::<char>::empty()]
    } else {
        let before = split_at_semicolons(text.drop_last());
        if text.last() == ';' {
            before.push(Seq::<char>::empty())
        } else {
            before.drop_last().push(before.last().push(text.last()))
        }
    }
}

/// `piece` without the `*.` that it starts with, however often it starts
/// with it.
pub open spec fn without_pattern_prefix(piece: Seq<char>) -> Seq<char>
    decreases piece.len(),
{
    if piece.len() >= 2 && piece[0] == '*' && piece[1] == '.' {
        without_pattern_prefix(piece.skip(2))
    } else {
        piece
    }
}

/// The extensions that `list` names: its pieces between semicolons, each
/// without its `*.` prefix.
pub open spec fn extension_list(list: Seq<char>) -> Seq<Seq<char>> {
    split_at_semicolons(list).map_values(|piece: Seq<char>| without_pattern_prefix(piece))
}

/// Splits the list of extensions that the engine gives into the extensions.
pub fn parse_extension_list(list: &str) -> (extensions: Vec<String>)
    ensures
        extensions.deep_view() == extension_list(list@),
        extensions.len() >= 1,
{
    let n = list.unicode_len();
    let mut extensions: Vec<String> = Vec::new();
    let ghost mut pieces: Seq<Seq<char>> = Seq::empty();
    let mut start: usize = 0;
    let mut i: usize = 0;
    proof {
        assert(list@.subrange(0, 0) =~= Seq::<char>::empty());
        assert(extensions.deep_view() =~= pieces.map_values(
            |piece: Seq<char>| without_pattern_prefix(piece),
        ));
    }
    while i < n
        invariant
            n == list@.len(),
            start <= i <= n,
            split_at_semicolons(list@.take(i as int)) == pieces.push(
                list@.subrange(start as int, i as int),
            ),
            extensions.deep_view() == pieces.map_values(
                |piece: Seq<char>| without_pattern_prefix(piece),
            ),
        decreases n - i,
    {
        let c = list.get_char(i);
        proof {
            let taken = list@.take(i + 1);
            assert(taken.drop_last() =~= list@.take(i as int));
        }
        if c == ';' {
            let extension = extension_of(list, start, i);
            let ghost piece = list@.subrange(start as int, i as int);
            let ghost before = extensions.deep_view();
            extensions.push(extension);
            proof {
                assert(extensions.deep_view() =~= before.push(without_pattern_prefix(piece)));
                pieces = pieces.push(piece);
                assert(extensions.deep_view() =~= pieces.map_values(
                    |piece: Seq<char>| without_pattern_prefix(piece),
                ));
                assert(list@.subrange(i + 1, i + 1) =~= Seq::<char>::empty());
            }
            start = i + 1;
        } else {
            proof {
                let whole = pieces.push(list@.subrange(start as int, i as int));
                assert(whole.last().push(c) =~= list@.subrange(start as int, i + 1));
            }
        }
        i += 1;
    }
    let extension = extension_of(list, start, n);
    let ghost piece = list@.subrange(start as int, n as int);
    let ghost before = extensions.deep_view();
    extensions.push(extension);
    proof {
        assert(extensions.deep_view() =~= before.push(without_pattern_prefix(piece)));
        assert(list@.take(n as int) =~= list@);
    }
    extensions
}

/// The extension written between the characters `from` and `to` of `list`.
fn extension_of(list: &str, from: usize, to: usize) -> (extension: String)
    requires
        from <= to <= list@.len(),
    ensures
        extension@ == without_pattern_prefix(list@.subrange(from as int, to as int)),
{
    let mut k: usize = from;
    while to - k >= 2 && list.get_char(k) == '*' && list.get_char(k + 1) == '.'
        invariant
            from <= k <= to <= list@.len(),
            without_pattern_prefix(list@.subrange(from as int, to as int))
                == without_pattern_prefix(list@.subrange(k as int, to as int)),
        decreases to - k,
    {
        proof {
            assert(list@.subrange(k as int, to as int).skip(2) =~= list@.subrange(
                k + 2,
                to as int,
            ));
        }
        k += 2;
    }
    list.substring_char(k, to).to_owned()
}

} // verus!
