//! Reading, editing and writing of Dyson Sphere Program blueprint strings.
//!
//! A blueprint string is a line of text that frames a compressed binary
//! payload and ends in a checksum. This crate decodes such a string into a
//! tree of plain values, offers a set of editing passes over that tree, and
//! encodes the tree again.
//!
//! The functions carry contracts, which Verus proves. A few are believed and
//! not proved: those of the functions in [`transform`] that call the crates
//! `base64`, `flate2` and `urlencoding`, with the names that they give to
//! what those crates return, and that of the function in [`text`] that adds
//! a character to a `String`. Each of them says so where it stands.

use crate::data::traits::{DSPEnum, TryFromUserString};
use crate::error::Error;
use crate::text::{chars_of, ranges_of, same_text, split, split_range, string_of};
use vstd::prelude::*;
use vstd::slice::slice_subrange;

pub mod blueprint;
pub mod data;
pub mod edit;
pub mod error;
pub mod frame_laws;
pub mod md5;
pub mod serialize;
pub mod stats;
pub mod text;
pub mod transform;

verus! {

/// The name of a file that an argument gives: an argument that is absent or
/// a lone dash stands for the standard stream, and gives none.
pub fn iof(arg: &Option<String>) -> (r: Option<&str>)
    ensures
        match r {
            Some(s) => arg matches Some(a) && a@ == s@ && s@ != "-"@,
            None => arg is None || arg->0@ == "-"@,
        },
{
    match arg {
        None => None,
        Some(a) => if same_text(a.as_str(), "-") {
            None
        } else {
            Some(a.as_str())
        },
    }
}

/// What the first `n` pieces of a list give: for each piece, the two names
/// that stand before and behind its colon. A piece that is not two names
/// with one colon between them makes the list fail, with that piece.
pub open spec fn pairs_of(pieces: Seq<Seq<char>>, n: nat) -> Result<
    Seq<(Seq<char>, Seq<char>)>,
    Seq<char>,
>
    decreases n,
{
    if n == 0 {
        Ok(Seq::empty())
    } else {
        match pairs_of(pieces, (n - 1) as nat) {
            Err(e) => Err(e),
            Ok(before) => {
                let names = split(pieces[n - 1], ':');
                if names.len() != 2 {
                    Err(pieces[n - 1])
                } else {
                    Ok(before.push((names[0], names[1])))
                }
            },
        }
    }
}

/// What a list of replacements gives: the pairs of names of its pieces,
/// which commas separate.
pub open spec fn comma_list(s: Seq<char>) -> Result<Seq<(Seq<char>, Seq<char>)>, Seq<char>> {
    pairs_of(split(s, ','), split(s, ',').len())
}

/// The pairs of texts of a vector as mathematical values.
pub open spec fn text_pairs(v: Seq<(String, String)>) -> Seq<(Seq<char>, Seq<char>)> {
    Seq::new(v.len(), |i: int| (v[i].0@, v[i].1@))
}

/// Takes a list of replacements apart: `A:B,C:D` gives the pairs of names
/// `(A, B)` and `(C, D)`.
pub fn parse_comma_list(s: &str) -> (r: Result<Vec<(String, String)>, Error>)
    ensures
        match r {
            Ok(v) => comma_list(s@) == Ok::<Seq<(Seq<char>, Seq<char>)>, Seq<char>>(
                text_pairs(v@),
            ),
            Err(e) => e matches Error::BadReplacement(piece) && comma_list(s@) == Err::<
                Seq<(Seq<char>, Seq<char>)>,
                Seq<char>,
            >(piece@),
        },
{
    let all = chars_of(s);
    let chars = all.as_slice();
    assert(chars@.subrange(0, chars@.len() as int) =~= s@);
    let pieces = split_range(chars, 0, chars.len(), ',');
    let ghost texts = split(s@, ',');
    let n = pieces.len();
    let mut out: Vec<(String, String)> = Vec::new();
    let mut i: usize = 0;
    assert(text_pairs(out@) =~= Seq::<(Seq<char>, Seq<char>)>::empty());
    while i < n
        invariant
            i <= n,
            n == pieces@.len(),
            texts == ranges_of(chars@, pieces@),
            texts == split(s@, ','),
            forall|k: int|
                0 <= k < pieces@.len() ==> (#[trigger] pieces@[k]).0 <= pieces@[k].1
                    <= chars@.len(),
            pairs_of(texts, i as nat) == Ok::<Seq<(Seq<char>, Seq<char>)>, Seq<char>>(
                text_pairs(out@),
            ),
        decreases n - i,
    {
        let (from, to) = pieces[i];
        let names = split_range(chars, from, to, ':');
        if names.len() != 2 {
            let piece = string_of(slice_subrange(chars, from, to));
            proof {
                assert(pairs_of(texts, (i + 1) as nat) == Err::<
                    Seq<(Seq<char>, Seq<char>)>,
                    Seq<char>,
                >(texts[i as int]));
                lemma_pairs_fail(texts, (i + 1) as nat, n as nat);
            }
            return Err(Error::BadReplacement(piece));
        }
        let ghost parts = split(texts[i as int], ':');
        assert(parts[0] == chars@.subrange(names@[0].0 as int, names@[0].1 as int));
        assert(parts[1] == chars@.subrange(names@[1].0 as int, names@[1].1 as int));
        let first = string_of(slice_subrange(chars, names[0].0, names[0].1));
        let second = string_of(slice_subrange(chars, names[1].0, names[1].1));
        let ghost before = text_pairs(out@);
        out.push((first, second));
        assert(text_pairs(out@) =~= before.push((parts[0], parts[1])));
        i += 1;
    }
    Ok(out)
}

/// A list that fails at one of its first pieces fails as a whole, with the
/// same piece.
proof fn lemma_pairs_fail(pieces: Seq<Seq<char>>, k: nat, n: nat)
    requires
        k <= n,
        pairs_of(pieces, k) is Err,
    ensures
        pairs_of(pieces, n) == pairs_of(pieces, k),
    decreases n - k,
{
    if k < n {
        lemma_pairs_fail(pieces, k, (n - 1) as nat);
    }
}

/// Whether a catalog holds a thing of a name.
pub open spec fn is_known<T: DSPEnum>(name: Seq<char>) -> bool {
    exists|x: T| x.title() == name
}

/// The first name among the first `n` pairs of names that a catalog does
/// not hold, if there is one. Within a pair, the first name comes first.
pub open spec fn first_unknown<T: DSPEnum>(names: Seq<(Seq<char>, Seq<char>)>, n: nat) -> Option<
    Seq<char>,
>
    decreases n,
{
    if n == 0 {
        None
    } else {
        match first_unknown::<T>(names, (n - 1) as nat) {
            Some(name) => Some(name),
            None => if !is_known::<T>(names[n - 1].0) {
                Some(names[n - 1].0)
            } else if !is_known::<T>(names[n - 1].1) {
                Some(names[n - 1].1)
            } else {
                None
            },
        }
    }
}

/// Where one of the first `k` pairs holds an unknown name, all the pairs
/// hold the same first unknown name.
proof fn lemma_first_unknown<T: DSPEnum>(names: Seq<(Seq<char>, Seq<char>)>, k: nat, n: nat)
    requires
        k <= n,
        first_unknown::<T>(names, k) is Some,
    ensures
        first_unknown::<T>(names, n) == first_unknown::<T>(names, k),
    decreases n - k,
{
    if k < n {
        lemma_first_unknown::<T>(names, k, (n - 1) as nat);
    }
}

/// Takes a list of replacements apart, and looks each name up in a catalog:
/// `A:B,C:D` gives the pairs of things that are named so. Fails with the
/// first piece that is no pair of names and, where each piece is one, with
/// the first name that the catalog does not hold.
pub fn parse_into_enum_map<T: DSPEnum>(s: &str) -> (r: Result<Vec<(T, T)>, Error>)
    ensures
        match r {
            Ok(v) => {
                &&& comma_list(s@) matches Ok(names)
                &&& first_unknown::<T>(names, names.len()) is None
                &&& v@.len() == names.len()
                &&& forall|i: int|
                    0 <= i < v@.len() ==> (#[trigger] v@[i]).0.title() == names[i].0
                        && v@[i].1.title() == names[i].1
            },
            Err(Error::BadReplacement(piece)) => comma_list(s@) == Err::<
                Seq<(Seq<char>, Seq<char>)>,
                Seq<char>,
            >(piece@),
            Err(Error::UnknownName(name, _)) => comma_list(s@) matches Ok(names) && first_unknown::<T>(
                names,
                names.len(),
            ) == Some(name@),
            Err(_) => false,
        },
{
    let l = parse_comma_list(s)?;
    let ghost names = text_pairs(l@);
    let n = l.len();
    let mut map: Vec<(T, T)> = Vec::new();
    let mut i: usize = 0;
    while i < n
        invariant
            i <= n,
            n == l@.len(),
            names == text_pairs(l@),
            comma_list(s@) == Ok::<Seq<(Seq<char>, Seq<char>)>, Seq<char>>(names),
            first_unknown::<T>(names, i as nat) is None,
            map@.len() == i,
            forall|k: int|
                0 <= k < i ==> (#[trigger] map@[k]).0.title() == names[k].0 && map@[k].1.title()
                    == names[k].1,
        decreases n - i,
    {
        let e1 = match T::try_from_user_string(l[i].0.as_str()) {
            Ok(x) => x,
            Err(e) => {
                proof {
                    assert(!is_known::<T>(names[i as int].0)) by {
                        if is_known::<T>(names[i as int].0) {
                            let x = choose|x: T| x.title() == names[i as int].0;
                            assert(!x.named(names[i as int].0));
                        }
                    }
                    lemma_first_unknown::<T>(names, (i + 1) as nat, n as nat);
                }
                return Err(e);
            },
        };
        let e2 = match T::try_from_user_string(l[i].1.as_str()) {
            Ok(x) => x,
            Err(e) => {
                proof {
                    assert(is_known::<T>(names[i as int].0));
                    assert(!is_known::<T>(names[i as int].1)) by {
                        if is_known::<T>(names[i as int].1) {
                            let x = choose|x: T| x.title() == names[i as int].1;
                            assert(!x.named(names[i as int].1));
                        }
                    }
                    lemma_first_unknown::<T>(names, (i + 1) as nat, n as nat);
                }
                return Err(e);
            },
        };
        proof {
            assert(is_known::<T>(names[i as int].0));
            assert(is_known::<T>(names[i as int].1));
        }
        map.push((e1, e2));
        i += 1;
    }
    Ok(map)
}

} // verus!
