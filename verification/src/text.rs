//! Character-level text helpers: decimal rendering of integers and
//! literal token replacement, both fully specified over `Seq<char>`.

use vstd::prelude::*;
use vstd::string::StringExecFns;

verus! {

/// The character that renders a single decimal digit.
pub open spec fn dec_digit(d: int) -> char {
    if d == 0 {
        '0'
    } else if d == 1 {
        '1'
    } else if d == 2 {
        '2'
    } else if d == 3 {
        '3'
    } else if d == 4 {
        '4'
    } else if d == 5 {
        '5'
    } else if d == 6 {
        '6'
    } else if d == 7 {
        '7'
    } else if d == 8 {
        '8'
    } else {
        '9'
    }
}

/// The usual decimal rendering of a non-negative integer: no sign, no
/// leading zeroes (except for the number zero itself).
pub open spec fn spec_dec(n: int) -> Seq<char>
    decreases n,
{
    if n < 10 {
        seq![dec_digit(n)]
    } else {
        spec_dec(n / 10).push(dec_digit(n % 10))
    }
}

fn digit_str(d: u8) -> (r: &'static str)
    requires
        d < 10,
    ensures
        r@ == seq![dec_digit(d as int)],
{
    let r: &'static str = match d {
        0 => "0",
        1 => "1",
        2 => "2",
        3 => "3",
        4 => "4",
        5 => "5",
        6 => "6",
        7 => "7",
        8 => "8",
        _ => "9",
    };
    proof {
        reveal_strlit("0");
        reveal_strlit("1");
        reveal_strlit("2");
        reveal_strlit("3");
        reveal_strlit("4");
        reveal_strlit("5");
        reveal_strlit("6");
        reveal_strlit("7");
        reveal_strlit("8");
        reveal_strlit("9");
        assert(r@ =~= seq![dec_digit(d as int)]);
    }
    r
}

/// Render `n` in decimal, exactly as `spec_dec` describes.
pub fn u64_dec_string(n: u64) -> (r: String)
    ensures
        r@ == spec_dec(n as int),
    decreases n,
{
    if n < 10 {
        String::from_str(digit_str(n as u8))
    } else {
        let mut r = u64_dec_string(n / 10);
        r.append(digit_str((n % 10) as u8));
        proof {
            assert(r@ =~= spec_dec(n as int));
        }
        r
    }
}

/// The diagnostic line reported when an external tool exits nonzero:
/// the tool, its exit status, both captured output streams, and the
/// offending source path.
pub open spec fn spec_diagnostic_message(
    tool: Seq<char>,
    status: Seq<char>,
    stdout: Seq<char>,
    stderr: Seq<char>,
    source: Seq<char>,
) -> Seq<char> {
    tool + " command exited with error "@ + status + ", stdout: "@ + stdout + ", stderr: "@
        + stderr + " on file "@ + source
}

/// Render the diagnostic message for a failed external tool invocation.
pub fn diagnostic_message(
    tool: &str,
    status: &str,
    stdout: &str,
    stderr: &str,
    source: &str,
) -> (r: String)
    ensures
        r@ == spec_diagnostic_message(tool@, status@, stdout@, stderr@, source@),
{
    let mut s = String::from_str(tool);
    s.append(" command exited with error ");
    s.append(status);
    s.append(", stdout: ");
    s.append(stdout);
    s.append(", stderr: ");
    s.append(stderr);
    s.append(" on file ");
    s.append(source);
    s
}

/// True when `tok` occurs in `s` starting at index `i`.
pub open spec fn matches_at(s: Seq<char>, tok: Seq<char>, i: int) -> bool {
    0 <= i && i + tok.len() <= s.len() && s.subrange(i, i + tok.len()) == tok
}

/// True when `tok` occurs somewhere in `s`.
pub open spec fn occurs_in(s: Seq<char>, tok: Seq<char>) -> bool {
    exists|i: int| matches_at(s, tok, i)
}

/// Replacement of every occurrence of `tok` in `s` by `rep`: leftmost
/// first, non-overlapping, and never rescanning text that `rep` brought in.
pub open spec fn spec_replace(s: Seq<char>, tok: Seq<char>, rep: Seq<char>) -> Seq<char>
    decreases s.len(),
{
    if s.len() == 0 {
        s
    } else if 0 < tok.len() <= s.len() && s.subrange(0, tok.len() as int) == tok {
        rep + spec_replace(s.skip(tok.len() as int), tok, rep)
    } else {
        seq![s[0]] + spec_replace(s.skip(1), tok, rep)
    }
}

proof fn lemma_replace_unfold_match(s: Seq<char>, tok: Seq<char>, rep: Seq<char>, i: int)
    requires
        0 < tok.len(),
        matches_at(s, tok, i),
    ensures
        spec_replace(s.skip(i), tok, rep) == rep + spec_replace(s.skip(i + tok.len()), tok, rep),
{
    let t = s.skip(i);
    assert(t.subrange(0, tok.len() as int) =~= s.subrange(i, i + tok.len()));
    assert(t.skip(tok.len() as int) =~= s.skip(i + tok.len()));
}

proof fn lemma_replace_unfold_nomatch(s: Seq<char>, tok: Seq<char>, rep: Seq<char>, i: int)
    requires
        0 < tok.len(),
        0 <= i < s.len(),
        !matches_at(s, tok, i),
    ensures
        spec_replace(s.skip(i), tok, rep) == seq![s[i]] + spec_replace(s.skip(i + 1), tok, rep),
{
    let t = s.skip(i);
    if tok.len() <= t.len() {
        assert(t.subrange(0, tok.len() as int) =~= s.subrange(i, i + tok.len()));
    }
    assert(t.skip(1) =~= s.skip(i + 1));
    assert(seq![t[0]] =~= seq![s[i]]);
}

/// Text with no occurrence of the token passes through replacement
/// unchanged.
pub proof fn lemma_replace_absent(s: Seq<char>, tok: Seq<char>, rep: Seq<char>)
    requires
        0 < tok.len(),
        !occurs_in(s, tok),
    ensures
        spec_replace(s, tok, rep) == s,
    decreases s.len(),
{
    if s.len() == 0 {
    } else {
        assert(!matches_at(s, tok, 0));
        assert forall|i: int| !matches_at(s.skip(1), tok, i) by {
            if matches_at(s.skip(1), tok, i) {
                assert(s.skip(1).subrange(i, i + tok.len()) =~= s.subrange(
                    i + 1,
                    i + 1 + tok.len(),
                ));
                assert(matches_at(s, tok, i + 1));
            }
        }
        lemma_replace_absent(s.skip(1), tok, rep);
        assert(seq![s[0]] + s.skip(1) =~= s);
    }
}

pub(crate) fn token_matches_at(s: &str, tok: &str, i: usize, slen: usize, tlen: usize) -> (r: bool)
    requires
        slen == s@.len(),
        tlen == tok@.len(),
        i + tlen <= slen,
    ensures
        r == matches_at(s@, tok@, i as int),
{
    let mut j: usize = 0;
    while j < tlen
        invariant
            j <= tlen,
            i + tlen <= slen,
            slen == s@.len(),
            tlen == tok@.len(),
            forall|k: int| 0 <= k < j ==> s@[i + k] == tok@[k],
        decreases tlen - j,
    {
        if s.get_char(i + j) != tok.get_char(j) {
            proof {
                if matches_at(s@, tok@, i as int) {
                    assert(s@.subrange(i as int, i + tok@.len())[j as int] == tok@[j as int]);
                }
            }
            return false;
        }
        j = j + 1;
    }
    proof {
        assert(s@.subrange(i as int, i + tok@.len()) =~= tok@);
    }
    true
}

/// Replace every occurrence of the token `tok` in `s` by `rep`, exactly as
/// `spec_replace` describes.
pub fn replace_all(s: &str, tok: &str, rep: &str) -> (r: String)
    requires
        tok@.len() > 0,
    ensures
        r@ == spec_replace(s@, tok@, rep@),
{
    let slen = s.unicode_len();
    let tlen = tok.unicode_len();
    let mut out = String::new();
    let mut i: usize = 0;
    proof {
        assert(s@.skip(0) =~= s@);
        assert(out@ + spec_replace(s@, tok@, rep@) =~= spec_replace(s@, tok@, rep@));
    }
    while i < slen
        invariant
            i <= slen,
            slen == s@.len(),
            tlen == tok@.len(),
            tlen > 0,
            spec_replace(s@, tok@, rep@) == out@ + spec_replace(s@.skip(i as int), tok@, rep@),
        decreases slen - i,
    {
        if tlen <= slen - i && token_matches_at(s, tok, i, slen, tlen) {
            out.append(rep);
            proof {
                lemma_replace_unfold_match(s@, tok@, rep@, i as int);
            }
            i = i + tlen;
        } else {
            out.append(s.substring_char(i, i + 1));
            proof {
                lemma_replace_unfold_nomatch(s@, tok@, rep@, i as int);
                assert(s@.subrange(i as int, i + 1) =~= seq![s@[i as int]]);
            }
            i = i + 1;
        }
    }
    proof {
        assert(s@.skip(slen as int).len() == 0);
        assert(out@ + spec_replace(s@.skip(slen as int), tok@, rep@) =~= out@);
    }
    out
}

} // verus!
