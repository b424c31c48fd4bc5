//! Verified recognition of the one supported interactive command.
//!
//! A command line is split on whitespace and its first token is matched as a
//! case-sensitive prefix of the literal command name `continue`, so `c`,
//! `co`, ..., `continue` all select the resume command. A line without a
//! token, or whose first token is not such a prefix, selects nothing.

use vstd::prelude::*;

verus! {

/// Whitespace that separates command tokens.
pub open spec fn is_space_char(c: char) -> bool {
    c == ' ' || c == '\t' || c == '\n' || c == '\r'
}

/// Index of the first non-whitespace character at or after `i`, or the
/// length of `s` when everything from `i` on is whitespace.
pub open spec fn token_start(s: Seq<char>, i: int) -> int
    decreases s.len() - i,
{
    if i < 0 || i >= s.len() {
        s.len() as int
    } else if is_space_char(s[i]) {
        token_start(s, i + 1)
    } else {
        i
    }
}

/// Index just past the run of non-whitespace characters starting at `i`.
pub open spec fn token_end(s: Seq<char>, i: int) -> int
    decreases s.len() - i,
{
    if i < 0 || i >= s.len() || is_space_char(s[i]) {
        i
    } else {
        token_end(s, i + 1)
    }
}

/// The line's first token exists and is a prefix of the literal `continue`.
pub open spec fn is_continue_command(s: Seq<char>) -> bool {
    let a = token_start(s, 0);
    let b = token_end(s, a);
    a < b && b - a <= "continue"@.len() && (forall|k: int|
        0 <= k < b - a ==> s[a + k] == "continue"@[k])
}

proof fn lemma_token_start_props(s: Seq<char>, i: int)
    requires
        0 <= i <= s.len(),
    ensures
        i <= token_start(s, i) <= s.len(),
        forall|j: int| i <= j < token_start(s, i) ==> is_space_char(s[j]),
        token_start(s, i) < s.len() ==> !is_space_char(s[token_start(s, i)]),
    decreases s.len() - i,
{
    if i < s.len() && is_space_char(s[i]) {
        lemma_token_start_props(s, i + 1);
    }
}

proof fn lemma_token_end_props(s: Seq<char>, i: int)
    requires
        0 <= i <= s.len(),
    ensures
        i <= token_end(s, i) <= s.len(),
        forall|j: int| i <= j < token_end(s, i) ==> !is_space_char(s[j]),
        token_end(s, i) < s.len() ==> is_space_char(s[token_end(s, i)]),
    decreases s.len() - i,
{
    if i < s.len() && !is_space_char(s[i]) {
        lemma_token_end_props(s, i + 1);
    }
}

/// The prefix rule on concrete inputs: `c`, `cont` and `continue` each
/// select the resume command, while `cx` and a blank line select nothing.
pub proof fn lemma_continue_prefix_examples()
    ensures
        is_continue_command("c"@),
        is_continue_command("cont"@),
        is_continue_command("continue"@),
        !is_continue_command("cx"@),
        !is_continue_command(""@),
{
    reveal_strlit("c");
    reveal_strlit("cont");
    reveal_strlit("continue");
    reveal_strlit("cx");
    reveal_strlit("");
    reveal_with_fuel(token_start, 2);
    reveal_with_fuel(token_end, 10);
    assert(token_start("c"@, 0) == 0);
    assert(token_end("c"@, 0) == 1);
    assert(token_start("cont"@, 0) == 0);
    assert(token_end("cont"@, 0) == 4);
    assert(token_start("continue"@, 0) == 0);
    assert(token_end("continue"@, 0) == 8);
    assert(token_start("cx"@, 0) == 0);
    assert(token_end("cx"@, 0) == 2);
    assert("cx"@[1] != "continue"@[1]);
    assert(!is_continue_command("cx"@));
    assert(token_start(""@, 0) == 0);
    assert(token_end(""@, 0) == 0);
}

/// Character-for-character string equality, decided executably.
pub fn str_eq(a: &str, b: &str) -> (r: bool)
    ensures
        r == (a@ == b@),
{
    let na = a.unicode_len();
    let nb = b.unicode_len();
    if na != nb {
        return false;
    }
    let mut i: usize = 0;
    while i < na
        invariant
            0 <= i <= na,
            na == a@.len(),
            nb == b@.len(),
            na == nb,
            forall|j: int| 0 <= j < i ==> a@[j] == b@[j],
        decreases na - i,
    {
        if a.get_char(i) != b.get_char(i) {
            return false;
        }
        i = i + 1;
    }
    proof {
        assert(a@ =~= b@);
    }
    true
}

/// Whitespace test on one character, mirroring `is_space_char`.
fn is_space(c: char) -> (r: bool)
    ensures
        r == is_space_char(c),
{
    c == ' ' || c == '\t' || c == '\n' || c == '\r'
}

/// Decides whether the line's first token selects the resume command, by
/// prefix match against the literal name `continue`.
pub fn command_is_continue(command: &str) -> (r: bool)
    ensures
        r == is_continue_command(command@),
{
    proof {
        reveal_strlit("continue");
        lemma_token_start_props(command@, 0);
    }
    let n = command.unicode_len();
    let mut i: usize = 0;
    while i < n && is_space(command.get_char(i))
        invariant
            0 <= i <= n,
            n == command@.len(),
            token_start(command@, 0) == token_start(command@, i as int),
            forall|j: int| 0 <= j < i ==> is_space_char(command@[j]),
        decreases n - i,
    {
        i = i + 1;
    }
    proof {
        assert(token_start(command@, 0) == i as int);
        lemma_token_end_props(command@, i as int);
    }
    if i == n {
        // blank line: no token at all
        return false;
    }
    let ghost a: int = i as int;
    let ghost b: int = token_end(command@, a);
    let mut k: usize = 0;
    while i < n && !is_space(command.get_char(i))
        invariant
            a <= i <= n,
            n == command@.len(),
            i as int == a + k,
            a == token_start(command@, 0),
            b == token_end(command@, a),
            a <= i as int <= b,
            k as int <= "continue"@.len(),
            forall|j: int| 0 <= j < k ==> command@[a + j] == "continue"@[j],
        decreases n - i,
    {
        proof {
            reveal_strlit("continue");
            lemma_token_end_props(command@, a);
            assert(i < b);
        }
        if k >= 8 {
            // token longer than the whole command name: no prefix match
            proof {
                reveal_strlit("continue");
                assert(!is_continue_command(command@)) by {
                    assert(b - a > 8);
                }
            }
            return false;
        }
        let lit = "continue";
        let c = command.get_char(i);
        if c != lit.get_char(k) {
            proof {
                reveal_strlit("continue");
                assert(!is_continue_command(command@)) by {
                    assert(a + k < b);
                    assert(command@[a + k] != "continue"@[k as int]);
                }
            }
            return false;
        }
        i = i + 1;
        k = k + 1;
    }
    proof {
        lemma_token_end_props(command@, a);
        assert(i as int == b);
    }
    true
}

} // verus!
