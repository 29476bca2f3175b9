//! Terminal metrics and the operations that depend on them: the
//! full-width horizontal rule, and centering against the live terminal
//! width. The width query itself is the one environment-dependent call
//! of the library; everything computed from its result is verified.

use vstd::prelude::*;

use crate::ansi::centered_seq;
use crate::ansi::rule_seq;
use crate::styles::center_of_width;

verus! {

/// Relies on `termsize::get` of the termsize crate: the column count of
/// the attached terminal, or `None` when none is attached or its size
/// cannot be read. The result depends on the live environment, so
/// nothing is promised of the value.
#[verifier::external_body]
pub fn term_cols() -> (r: Option<u16>) {
    termsize::get().map(|size| size.cols)
}

/// A horizontal rule of exactly `cols` box-drawing line characters.
pub fn rule_of_width(cols: u16) -> (r: String)
    ensures
        r@ == rule_seq(cols as nat),
        r@.len() == cols,
{
    let mut out = String::new();
    proof {
        assert(out@ =~= rule_seq(0));
    }
    let mut i: usize = 0;
    while i < cols as usize
        invariant
            i <= cols as usize,
            out@ == rule_seq(i as nat),
        decreases cols as usize - i,
    {
        proof {
            reveal_strlit("\u{2500}");
        }
        out.append("\u{2500}");
        i = i + 1;
        proof {
            assert(rule_seq((i - 1) as nat) + "\u{2500}"@ =~= rule_seq(i as nat));
        }
    }
    out
}

/// A rule of width `n` has exactly `n` characters, every one of them the
/// box-drawing horizontal line.
pub proof fn lemma_rule_solid(n: nat)
    ensures
        rule_seq(n).len() == n,
        forall|i: int| 0 <= i < n ==> rule_seq(n)[i] == crate::ansi::rule_char(),
{
}

/// A horizontal rule as wide as the attached terminal, or `None` when no
/// terminal size can be determined.
pub fn horizline() -> (r: Option<String>)
    ensures
        r matches Option::Some(line) ==> exists|c: u16| line@ == rule_seq(c as nat),
{
    match term_cols() {
        Option::Some(c) => {
            let line = rule_of_width(c);
            proof {
                assert(line@ == rule_seq(c as nat));
            }
            Option::Some(line)
        },
        Option::None => Option::None,
    }
}

/// Centers `text` against the attached terminal's live width, or returns
/// `None` when no terminal size can be determined.
pub fn centered_in_terminal(text: &str) -> (r: Option<String>)
    ensures
        r matches Option::Some(s) ==> exists|c: u16| s@ == centered_seq(text@, c as nat),
{
    match term_cols() {
        Option::Some(c) => {
            let s = center_of_width(text, c);
            proof {
                assert(s@ == centered_seq(text@, c as nat));
            }
            Option::Some(s)
        },
        Option::None => Option::None,
    }
}

} // verus!
