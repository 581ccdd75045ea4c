//! Texts shown on the status screen, and decimal rendering of counts.

use vstd::prelude::*;
use vstd::string::*;

verus! {

/// The character of one decimal digit.
pub open spec fn digit(d: nat) -> char {
    if d == 0 {
        '0'
    } else if d == 1 {
        '1'
    } else if d == 2 {
        '2'
    } else if d == 3 {
        '3'
    } else if d == 4 {
        '4'
    } else if d == 5 {
        '5'
    } else if d == 6 {
        '6'
    } else if d == 7 {
        '7'
    } else if d == 8 {
        '8'
    } else {
        '9'
    }
}

/// The decimal numeral of `n`, most significant digit first, without
/// leading zeros.
pub open spec fn decimal(n: nat) -> Seq<char>
    decreases n,
{
    if n < 10 {
        seq![digit(n)]
    } else {
        decimal(n / 10).push(digit(n % 10))
    }
}

/// `"Rebasing {head_name} onto {onto}"`.
pub open spec fn rebase_text(head_name: Seq<char>, onto: Seq<char>) -> Seq<char> {
    "Rebasing "@ + head_name + " onto "@ + onto
}

/// `"Merging {head}"`.
pub open spec fn merge_text(head: Seq<char>) -> Seq<char> {
    "Merging "@ + head
}

/// `"On branch {local}"`.
pub open spec fn on_branch_text(local: Seq<char>) -> Seq<char> {
    "On branch "@ + local
}

/// The sentence that relates a branch to the remote it tracks. The word
/// "commit" stays singular whatever the count.
pub open spec fn tracking_text(remote: Seq<char>, ahead: nat, behind: nat) -> Seq<char> {
    if ahead == 0 && behind == 0 {
        "Your branch is up to date with '"@ + remote + "'."@
    } else if behind == 0 {
        "Your branch is ahead of '"@ + remote + "' by "@ + decimal(ahead) + " commit."@
    } else if ahead == 0 {
        "Your branch is behind '"@ + remote + "' by "@ + decimal(behind) + " commit."@
    } else {
        "Your branch and '"@ + remote + "' have diverged,\nand have "@ + decimal(ahead)
            + " and "@ + decimal(behind) + " different commits each, respectively."@
    }
}

/// `"{label} ({count})"`.
pub open spec fn counted_text(label: Seq<char>, count: nat) -> Seq<char> {
    label + " ("@ + decimal(count) + ")"@
}

fn digit_str(d: u64) -> (s: &'static str)
    requires
        d < 10,
    ensures
        s@ == seq![digit(d as nat)],
{
    proof {
        reveal_strlit("0");
        reveal_strlit("1");
        reveal_strlit("2");
        reveal_strlit("3");
        reveal_strlit("4");
        reveal_strlit("5");
        reveal_strlit("6");
        reveal_strlit("7");
        reveal_strlit("8");
        reveal_strlit("9");
    }
    let s = if d == 0 {
        "0"
    } else if d == 1 {
        "1"
    } else if d == 2 {
        "2"
    } else if d == 3 {
        "3"
    } else if d == 4 {
        "4"
    } else if d == 5 {
        "5"
    } else if d == 6 {
        "6"
    } else if d == 7 {
        "7"
    } else if d == 8 {
        "8"
    } else {
        "9"
    };
    assert(s@ =~= seq![digit(d as nat)]);
    s
}

/// Renders `n` in decimal.
pub fn decimal_string(n: u64) -> (s: String)
    ensures
        s@ == decimal(n as nat),
    decreases n,
{
    if n < 10 {
        String::from_str(digit_str(n))
    } else {
        let mut s = decimal_string(n / 10);
        s.append(digit_str(n % 10));
        assert(s@ =~= decimal(n as nat));
        s
    }
}

/// Builds `"Rebasing {head_name} onto {onto}"`.
pub fn rebase_message(head_name: &str, onto: &str) -> (s: String)
    ensures
        s@ == rebase_text(head_name@, onto@),
{
    let mut s = String::from_str("Rebasing ");
    s.append(head_name);
    s.append(" onto ");
    s.append(onto);
    s
}

/// Builds `"Merging {head}"`.
pub fn merge_message(head: &str) -> (s: String)
    ensures
        s@ == merge_text(head@),
{
    let mut s = String::from_str("Merging ");
    s.append(head);
    s
}

/// Builds `"On branch {local}"`.
pub fn on_branch_message(local: &str) -> (s: String)
    ensures
        s@ == on_branch_text(local@),
{
    let mut s = String::from_str("On branch ");
    s.append(local);
    s
}

/// Builds the sentence that relates a branch to the remote it tracks.
pub fn tracking_message(remote: &str, ahead: u32, behind: u32) -> (s: String)
    ensures
        s@ == tracking_text(remote@, ahead as nat, behind as nat),
{
    if ahead == 0 && behind == 0 {
        let mut s = String::from_str("Your branch is up to date with '");
        s.append(remote);
        s.append("'.");
        s
    } else if behind == 0 {
        let count = decimal_string(ahead as u64);
        let mut s = String::from_str("Your branch is ahead of '");
        s.append(remote);
        s.append("' by ");
        s.append(count.as_str());
        s.append(" commit.");
        s
    } else if ahead == 0 {
        let count = decimal_string(behind as u64);
        let mut s = String::from_str("Your branch is behind '");
        s.append(remote);
        s.append("' by ");
        s.append(count.as_str());
        s.append(" commit.");
        s
    } else {
        let ours = decimal_string(ahead as u64);
        let theirs = decimal_string(behind as u64);
        let mut s = String::from_str("Your branch and '");
        s.append(remote);
        s.append("' have diverged,\nand have ");
        s.append(ours.as_str());
        s.append(" and ");
        s.append(theirs.as_str());
        s.append(" different commits each, respectively.");
        s
    }
}

/// Builds `"{label} ({count})"`.
pub fn counted_message(label: &str, count: usize) -> (s: String)
    ensures
        s@ == counted_text(label@, count as nat),
{
    let digits = decimal_string(count as u64);
    let mut s = String::from_str(label);
    s.append(" (");
    s.append(digits.as_str());
    s.append(")");
    s
}

} // verus!
