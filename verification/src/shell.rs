//! Command-template substitution: a pure two-token find-and-replace that
//! resolves the placeholders for the test's source path and its input file.

use vstd::prelude::*;

use crate::text::{chars_string, exact_at_x, str_chars};

verus! {

broadcast use crate::text::lemma_vec_len_bound;

/// Every occurrence of `pat` in `s`, scanned left to right without overlap,
/// replaced by `to`.  Text holding no occurrence passes through unchanged.
pub open spec fn replace_all(s: Seq<char>, pat: Seq<char>, to: Seq<char>) -> Seq<char>
    decreases s.len(),
{
    if s.len() == 0 {
        s
    } else if 0 < pat.len() && pat.len() <= s.len() && s.take(pat.len() as int) == pat {
        to + replace_all(s.skip(pat.len() as int), pat, to)
    } else {
        seq![s[0]] + replace_all(s.skip(1), pat, to)
    }
}

/// The placeholder that stands for the test's materialized source path.
pub open spec fn path_token() -> Seq<char> {
    seq!['~', '{', 'p', 'a', 't', 'h', '}']
}

/// The placeholder that stands for the path of the serialized input file.
pub open spec fn input_token() -> Seq<char> {
    seq!['~', '{', 'i', 'n', 'p', 'u', 't', '}']
}

/// Replaces every occurrence of `pat` in `s` by `to`, left to right, without
/// overlap.
fn replace_all_x(s: &Vec<char>, pat: &Vec<char>, to: &Vec<char>) -> (r: Vec<char>)
    requires
        pat@.len() > 0,
    ensures
        r@ == replace_all(s@, pat@, to@),
{
    let mut out: Vec<char> = Vec::new();
    let mut i: usize = 0;
    proof {
        assert(s@.skip(0) =~= s@);
        assert(out@ + replace_all(s@, pat@, to@) =~= replace_all(s@, pat@, to@));
    }
    while i < s.len()
        invariant
            i <= s@.len(),
            pat@.len() > 0,
            replace_all(s@, pat@, to@) == out@ + replace_all(s@.skip(i as int), pat@, to@),
        decreases s@.len() - i,
    {
        let ghost prev = out@;
        if exact_at_x(s, i, pat) {
            proof {
                assert(s@.skip(i as int).take(pat@.len() as int) =~= pat@);
                assert(s@.skip(i as int).skip(pat@.len() as int) =~= s@.skip(
                    i + pat@.len(),
                ));
                assert(replace_all(s@.skip(i as int), pat@, to@) == to@ + replace_all(
                    s@.skip(i + pat@.len()),
                    pat@,
                    to@,
                ));
            }
            let mut k: usize = 0;
            while k < to.len()
                invariant
                    k <= to@.len(),
                    out@ == prev + to@.take(k as int),
                decreases to@.len() - k,
            {
                out.push(to[k]);
                assert(out@ =~= prev + to@.take(k + 1));
                k += 1;
            }
            proof {
                assert(out@ =~= prev + to@);
                assert(out@ + replace_all(s@.skip(i + pat@.len()), pat@, to@) =~= prev
                    + replace_all(s@.skip(i as int), pat@, to@));
            }
            i += pat.len();
        } else {
            proof {
                assert(s@.skip(i as int).len() > 0);
                assert(s@.skip(i as int)[0] == s@[i as int]);
                if pat@.len() <= s@.len() - i {
                    assert(s@.skip(i as int).take(pat@.len() as int) != pat@) by {
                        let k = choose|k: int|
                            0 <= k < pat@.len() && s@[i + k] != pat@[k];
                        assert(s@.skip(i as int).take(pat@.len() as int)[k] == s@[i + k]);
                    }
                }
                assert(s@.skip(i as int).skip(1) =~= s@.skip(i + 1));
                assert(replace_all(s@.skip(i as int), pat@, to@) == seq![s@[i as int]]
                    + replace_all(s@.skip(i + 1), pat@, to@));
            }
            out.push(s[i]);
            proof {
                assert(out@ =~= prev + seq![s@[i as int]]);
                assert(out@ + replace_all(s@.skip(i + 1), pat@, to@) =~= prev
                    + replace_all(s@.skip(i as int), pat@, to@));
            }
            i += 1;
        }
    }
    assert(s@.skip(i as int) =~= Seq::<char>::empty());
    assert(replace_all(s@.skip(i as int), pat@, to@) =~= Seq::<char>::empty());
    assert(replace_all(s@, pat@, to@) =~= out@);
    out
}

/// The executable form of [`path_token`].
fn path_token_x() -> (r: Vec<char>)
    ensures
        r@ == path_token(),
{
    let v = vec!['~', '{', 'p', 'a', 't', 'h', '}'];
    assert(v@ =~= path_token());
    v
}

/// The executable form of [`input_token`].
fn input_token_x() -> (r: Vec<char>)
    ensures
        r@ == input_token(),
{
    let v = vec!['~', '{', 'i', 'n', 'p', 'u', 't', '}'];
    assert(v@ =~= input_token());
    v
}

/// Resolves a command template: the source-path placeholder becomes `path`,
/// then the input placeholder becomes `input`; all other text passes through
/// unchanged.
pub fn substitute(command: &str, path: &str, input: &str) -> (r: String)
    ensures
        r@ == replace_all(
            replace_all(command@, path_token(), path@),
            input_token(),
            input@,
        ),
{
    let cmd = str_chars(command);
    let path_v = str_chars(path);
    let input_v = str_chars(input);
    let step1 = replace_all_x(&cmd, &path_token_x(), &path_v);
    let step2 = replace_all_x(&step1, &input_token_x(), &input_v);
    chars_string(&step2)
}

} // verus!
