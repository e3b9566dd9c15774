//! Scripts as text: the one-character code table, and the bracket padding
//! that makes every submitted script well nested.
use crate::action::ScriptCommand;
use vstd::prelude::*;
use vstd::string::StrSliceExecFns;

verus! {

/// The command that a character of the code table stands for (either case).
pub open spec fn char_command(c: char) -> Option<ScriptCommand> {
    if c == 'w' || c == 'W' {
        Some(ScriptCommand::Walk)
    } else if c == 'c' || c == 'C' {
        Some(ScriptCommand::Climb)
    } else if c == 'd' || c == 'D' {
        Some(ScriptCommand::Drop)
    } else if c == 'i' || c == 'I' {
        Some(ScriptCommand::Idle)
    } else if c == 't' || c == 'T' {
        Some(ScriptCommand::Turn)
    } else if c == 'j' || c == 'J' {
        Some(ScriptCommand::Jump)
    } else if c == '(' {
        Some(ScriptCommand::OpenBracket)
    } else if c == ')' {
        Some(ScriptCommand::CloseBracket)
    } else {
        None
    }
}

/// The commands of a text, in order, without the characters outside the table.
pub open spec fn parsed(s: Seq<char>) -> Seq<ScriptCommand>
    decreases s.len(),
{
    if s.len() == 0 {
        Seq::empty()
    } else {
        let rest = parsed(s.drop_last());
        match char_command(s.last()) {
            Some(c) => rest.push(c),
            None => rest,
        }
    }
}

/// The command a character stands for, if any.
pub fn command_from_char(c: char) -> (r: Option<ScriptCommand>)
    ensures
        r == char_command(c),
{
    match c {
        'w' | 'W' => Some(ScriptCommand::Walk),
        'c' | 'C' => Some(ScriptCommand::Climb),
        'd' | 'D' => Some(ScriptCommand::Drop),
        'i' | 'I' => Some(ScriptCommand::Idle),
        't' | 'T' => Some(ScriptCommand::Turn),
        'j' | 'J' => Some(ScriptCommand::Jump),
        '(' => Some(ScriptCommand::OpenBracket),
        ')' => Some(ScriptCommand::CloseBracket),
        _ => None,
    }
}

/// The character of the code table that stands for a command, in lower case.
pub fn command_char(c: ScriptCommand) -> (r: char)
    ensures
        char_command(r) == Some(c),
        !('A' <= r <= 'Z'),
{
    match c {
        ScriptCommand::Walk => 'w',
        ScriptCommand::Climb => 'c',
        ScriptCommand::Drop => 'd',
        ScriptCommand::Idle => 'i',
        ScriptCommand::Turn => 't',
        ScriptCommand::Jump => 'j',
        ScriptCommand::OpenBracket => '(',
        ScriptCommand::CloseBracket => ')',
    }
}

/// The commands of a text: each character of the code table, in order;
/// every other character is dropped.
pub fn parse_script(text: &str) -> (r: Vec<ScriptCommand>)
    ensures
        r@ == parsed(text@),
{
    let n = text.unicode_len();
    let mut r: Vec<ScriptCommand> = Vec::new();
    let mut i: usize = 0;
    while i < n
        invariant
            n == text@.len(),
            i <= n,
            r@ == parsed(text@.subrange(0, i as int)),
        decreases n - i,
    {
        let c = text.get_char(i);
        proof {
            let s = text@.subrange(0, i + 1);
            assert(s.drop_last() =~= text@.subrange(0, i as int));
            assert(s.last() == c);
        }
        match command_from_char(c) {
            Some(cmd) => r.push(cmd),
            None => {},
        }
        i = i + 1;
    }
    assert(text@.subrange(0, n as int) =~= text@);
    r
}

/// How a command moves the bracket depth.
pub open spec fn bracket_delta(c: ScriptCommand) -> int {
    match c {
        ScriptCommand::OpenBracket => 1,
        ScriptCommand::CloseBracket => -1,
        _ => 0,
    }
}

/// Opening brackets minus closing brackets.
pub open spec fn balance(s: Seq<ScriptCommand>) -> int
    decreases s.len(),
{
    if s.len() == 0 {
        0
    } else {
        balance(s.drop_last()) + bracket_delta(s.last())
    }
}

/// The lowest running balance over all prefixes, the empty one included.
pub open spec fn lowest(s: Seq<ScriptCommand>) -> int
    decreases s.len(),
{
    if s.len() == 0 {
        0
    } else {
        let l = lowest(s.drop_last());
        let b = balance(s);
        if b < l {
            b
        } else {
            l
        }
    }
}

/// The running balance never drops below zero and ends at zero.
pub open spec fn well_nested(s: Seq<ScriptCommand>) -> bool {
    &&& forall|i: int| 0 <= i <= s.len() ==> balance(#[trigger] s.take(i)) >= 0
    &&& balance(s) == 0
}

/// `k` copies of a command.
pub open spec fn repeated(c: ScriptCommand, k: nat) -> Seq<ScriptCommand> {
    Seq::new(k, |_i: int| c)
}

/// The script with the fewest brackets added at its ends that makes it well
/// nested: an opening bracket in front for each unmatched closing one, a
/// closing bracket behind for each unmatched opening one.
pub open spec fn padded(s: Seq<ScriptCommand>) -> Seq<ScriptCommand> {
    repeated(ScriptCommand::OpenBracket, (-lowest(s)) as nat) + s + repeated(
        ScriptCommand::CloseBracket,
        (balance(s) - lowest(s)) as nat,
    )
}

/// The balance of a concatenation is the sum of the balances.
pub proof fn lemma_balance_concat(a: Seq<ScriptCommand>, b: Seq<ScriptCommand>)
    ensures
        balance(a + b) == balance(a) + balance(b),
    decreases b.len(),
{
    if b.len() > 0 {
        assert((a + b).drop_last() =~= a + b.drop_last());
        assert((a + b).last() == b.last());
        lemma_balance_concat(a, b.drop_last());
    } else {
        assert(a + b =~= a);
    }
}

/// `k` copies of a bracket have a balance of `k` or `-k`.
pub proof fn lemma_balance_repeated(c: ScriptCommand, k: nat)
    ensures
        c is OpenBracket ==> balance(repeated(c, k)) == k,
        c is CloseBracket ==> balance(repeated(c, k)) == -k,
    decreases k,
{
    if k > 0 {
        assert(repeated(c, k).drop_last() =~= repeated(c, (k - 1) as nat));
        lemma_balance_repeated(c, (k - 1) as nat);
    }
}

/// The lowest running balance is at most zero and at most every prefix's balance.
pub proof fn lemma_lowest_bounds(s: Seq<ScriptCommand>, i: int)
    requires
        0 <= i <= s.len(),
    ensures
        lowest(s) <= 0,
        lowest(s) <= balance(s.take(i)),
    decreases s.len(),
{
    if s.len() == 0 {
        assert(s.take(i) =~= s);
    } else if i == s.len() {
        assert(s.take(i) =~= s);
        lemma_lowest_bounds(s.drop_last(), 0);
    } else {
        assert(s.take(i) =~= s.drop_last().take(i));
        lemma_lowest_bounds(s.drop_last(), i);
    }
}

/// Padding any script gives a well-nested one: its running balance never
/// drops below zero and ends at zero.
pub proof fn lemma_padded_well_nested(s: Seq<ScriptCommand>)
    ensures
        well_nested(padded(s)),
{
    let k = (-lowest(s)) as nat;
    let m = (balance(s) - lowest(s)) as nat;
    let n = s.len() as int;
    let opens = repeated(ScriptCommand::OpenBracket, k);
    let p = padded(s);
    lemma_lowest_bounds(s, n);
    assert(s.take(n) =~= s);
    lemma_balance_repeated(ScriptCommand::OpenBracket, k);
    assert forall|i: int| 0 <= i <= p.len() implies balance(#[trigger] p.take(i)) >= 0 by {
        if i <= k {
            assert(p.take(i) =~= repeated(ScriptCommand::OpenBracket, i as nat));
            lemma_balance_repeated(ScriptCommand::OpenBracket, i as nat);
        } else if i <= k + n {
            assert(p.take(i) =~= opens + s.take(i - k));
            lemma_balance_concat(opens, s.take(i - k));
            lemma_lowest_bounds(s, i - k);
        } else {
            let closes = repeated(ScriptCommand::CloseBracket, (i - k - n) as nat);
            assert(p.take(i) =~= (opens + s) + closes);
            lemma_balance_concat(opens + s, closes);
            lemma_balance_concat(opens, s);
            lemma_balance_repeated(ScriptCommand::CloseBracket, (i - k - n) as nat);
        }
    }
    let closes = repeated(ScriptCommand::CloseBracket, m);
    lemma_balance_concat(opens + s, closes);
    lemma_balance_concat(opens, s);
    lemma_balance_repeated(ScriptCommand::CloseBracket, m);
}

/// How many opening brackets go in front and closing brackets behind to make
/// the script well nested.
pub fn bracket_padding(script: &Vec<ScriptCommand>) -> (r: (usize, usize))
    ensures
        r.0 + r.1 <= script@.len(),
        r.0 == -lowest(script@),
        r.1 == balance(script@) - lowest(script@),
{
    let ghost s = script@;
    let mut front: usize = 0;
    let mut depth: usize = 0;
    let mut i: usize = 0;
    while i < script.len()
        invariant
            i <= s.len(),
            s == script@,
            front + depth <= i,
            front == -lowest(s.take(i as int)),
            depth == balance(s.take(i as int)) - lowest(s.take(i as int)),
        decreases s.len() - i,
    {
        proof {
            assert(s.take(i + 1).drop_last() =~= s.take(i as int));
            assert(s.take(i + 1).last() == s[i as int]);
        }
        match script[i] {
            ScriptCommand::OpenBracket => {
                depth = depth + 1;
            },
            ScriptCommand::CloseBracket => {
                if depth == 0 {
                    front = front + 1;
                } else {
                    depth = depth - 1;
                }
            },
            _ => {},
        }
        i = i + 1;
    }
    assert(s.take(s.len() as int) =~= s);
    (front, depth)
}

/// The script padded with the fewest brackets that make it well nested.
pub fn balance_script(script: &Vec<ScriptCommand>) -> (r: Vec<ScriptCommand>)
    requires
        script@.len() + (-lowest(script@)) + (balance(script@) - lowest(script@)) <= usize::MAX,
    ensures
        r@ == padded(script@),
{
    let (front, back) = bracket_padding(script);
    let mut r: Vec<ScriptCommand> = Vec::new();
    let mut i: usize = 0;
    while i < front
        invariant
            i <= front,
            r@ == repeated(ScriptCommand::OpenBracket, i as nat),
        decreases front - i,
    {
        r.push(ScriptCommand::OpenBracket);
        i = i + 1;
        assert(r@ =~= repeated(ScriptCommand::OpenBracket, i as nat));
    }
    let mut j: usize = 0;
    while j < script.len()
        invariant
            j <= script@.len(),
            r@ == repeated(ScriptCommand::OpenBracket, front as nat) + script@.take(j as int),
        decreases script@.len() - j,
    {
        r.push(script[j]);
        j = j + 1;
        assert(r@ =~= repeated(ScriptCommand::OpenBracket, front as nat) + script@.take(j as int));
    }
    let mut k: usize = 0;
    while k < back
        invariant
            k <= back,
            r@ == repeated(ScriptCommand::OpenBracket, front as nat) + script@ + repeated(
                ScriptCommand::CloseBracket,
                k as nat,
            ),
        decreases back - k,
    {
        r.push(ScriptCommand::CloseBracket);
        k = k + 1;
        assert(r@ =~= repeated(ScriptCommand::OpenBracket, front as nat) + script@ + repeated(
            ScriptCommand::CloseBracket,
            k as nat,
        ));
    }
    r
}

} // verus!
