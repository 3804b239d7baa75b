//! Small text helpers: string equality with a specified meaning, and the
//! whitespace tokenization used for configured shell commands.

use vstd::prelude::*;

verus! {

/// String equality, stated over the character sequences.
pub fn str_eq(a: &str, b: &str) -> (r: bool)
    ensures
        r == (a@ == b@),
{
    let sa = a.to_owned();
    let sb = b.to_owned();
    sa == sb
}

/// Splits `s` into space-separated tokens: `i` is the next character to
/// read, `cur` the token being collected, `acc` the finished tokens.
/// Empty tokens are dropped.
pub open spec fn split_tokens(
    s: Seq<char>,
    i: int,
    cur: Seq<char>,
    acc: Seq<Seq<char>>,
) -> Seq<Seq<char>>
    decreases s.len() - i,
{
    if i < 0 || i >= s.len() {
        if cur.len() > 0 {
            acc.push(cur)
        } else {
            acc
        }
    } else if s[i] == ' ' {
        split_tokens(s, i + 1, Seq::empty(), if cur.len() > 0 {
            acc.push(cur)
        } else {
            acc
        })
    } else {
        split_tokens(s, i + 1, cur.push(s[i]), acc)
    }
}

/// The tokens of a shell-style command string, split on spaces, with
/// empty tokens dropped. Quoting is not interpreted: this mirrors the
/// documented single-space tokenization of configured commands.
pub open spec fn tokens_of(s: Seq<char>) -> Seq<Seq<char>> {
    split_tokens(s, 0, Seq::empty(), Seq::empty())
}

/// Tokenizes a configured shell command on spaces. The first token is
/// the program, the rest are its arguments; runs of spaces yield no
/// empty tokens.
#[verifier::loop_isolation(false)]
pub fn tokenize(s: &str) -> (r: Vec<String>)
    ensures
        r@.map_values(|t: String| t@) == tokens_of(s@),
{
    let n = s.unicode_len();
    let mut out: Vec<String> = Vec::new();
    let mut tok_start: usize = 0;
    let mut in_token = false;
    let mut i: usize = 0;
    proof {
        assert(s@.subrange(0, 0) =~= Seq::<char>::empty());
        assert(out@.map_values(|t: String| t@) =~= Seq::<Seq<char>>::empty());
    }
    while i < n
        invariant
            n == s@.len(),
            i <= n,
            in_token ==> tok_start < i,
            !in_token ==> tok_start == i,
            split_tokens(
                s@,
                i as int,
                s@.subrange(tok_start as int, i as int),
                out@.map_values(|t: String| t@),
            ) == tokens_of(s@),
        decreases n - i,
    {
        let ghost cur0 = s@.subrange(tok_start as int, i as int);
        let ghost map0 = out@.map_values(|t: String| t@);
        let c = s.get_char(i);
        if c == ' ' {
            if in_token {
                let tok = s.substring_char(tok_start, i).to_owned();
                out.push(tok);
                proof {
                    assert(cur0.len() > 0);
                    assert(out@.map_values(|t: String| t@) =~= map0.push(cur0));
                }
                in_token = false;
            } else {
                proof {
                    assert(cur0 =~= Seq::<char>::empty());
                }
            }
            tok_start = i + 1;
            proof {
                assert(s@.subrange(i as int + 1, i as int + 1) =~= Seq::<char>::empty());
            }
        } else {
            if !in_token {
                in_token = true;
                tok_start = i;
                proof {
                    assert(cur0 =~= Seq::<char>::empty());
                }
            }
            proof {
                assert(s@.subrange(tok_start as int, i as int + 1) =~= s@.subrange(
                    tok_start as int,
                    i as int,
                ).push(s@[i as int]));
            }
        }
        i += 1;
    }
    if in_token {
        let ghost cur0 = s@.subrange(tok_start as int, i as int);
        let ghost map0 = out@.map_values(|t: String| t@);
        let tok = s.substring_char(tok_start, n).to_owned();
        out.push(tok);
        proof {
            assert(cur0.len() > 0);
            assert(out@.map_values(|t: String| t@) =~= map0.push(cur0));
        }
    }
    out
}

} // verus!
