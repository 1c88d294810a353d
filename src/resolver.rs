//! Conflict resolution at the destination folder.

use vstd::prelude::*;
use vstd::set_lib::{lemma_int_range, lemma_len_subset, lemma_map_size, set_int_range};
use vstd::string::*;
use crate::classifier::ConflictStrategy;

verus! {

/// The decimal digits of `n`, most significant first.
pub open spec fn decimal(n: nat) -> Seq<char>
    decreases n,
{
    if n < 10 {
        seq![digit_char(n)]
    } else {
        decimal(n / 10).push(digit_char(n % 10))
    }
}

/// The character of a digit below ten.
pub open spec fn digit_char(d: nat) -> char {
    if d == 0 { '0' }
    else if d == 1 { '1' }
    else if d == 2 { '2' }
    else if d == 3 { '3' }
    else if d == 4 { '4' }
    else if d == 5 { '5' }
    else if d == 6 { '6' }
    else if d == 7 { '7' }
    else if d == 8 { '8' }
    else { '9' }
}

/// The `k`-th alternative name: `stem (k).ext`, or `stem (k)` without an
/// extension (`ext` is given without its dot).
pub open spec fn numbered_name(stem: Seq<char>, k: nat, ext: Seq<char>) -> Seq<char> {
    if ext.len() == 0 {
        stem + seq![' ', '('] + decimal(k) + seq![')']
    } else {
        stem + seq![' ', '('] + decimal(k) + seq![')', '.'] + ext
    }
}

/// `name` is one of the names taken in the destination folder.
pub open spec fn is_taken(taken: Seq<String>, name: Seq<char>) -> bool {
    exists|j: int| 0 <= j < taken.len() && #[trigger] taken[j]@ == name
}

/// `k` is the smallest positive number whose alternative name is free.
pub open spec fn is_first_free(taken: Seq<String>, stem: Seq<char>, ext: Seq<char>, k: nat) -> bool {
    &&& 1 <= k
    &&& !is_taken(taken, numbered_name(stem, k, ext))
    &&& forall|m: nat| 1 <= m < k ==> is_taken(taken, #[trigger] numbered_name(stem, m, ext))
}

/// The outcome of resolving a destination name.
#[derive(Clone, Debug)]
pub enum Resolution {
    /// Move the file under this name; nothing is there.
    Proceed { name: String },
    /// A file is there: remove it, then move the file under this name.
    Replace { name: String },
    /// Leave the source file where it is.
    Skip,
}

/// What resolution yields for `filename` (whose stem and extension without
/// its dot are `stem` and `ext`) when the folder already holds `taken`.
pub open spec fn resolves_to(
    r: Resolution,
    taken: Seq<String>,
    filename: Seq<char>,
    stem: Seq<char>,
    ext: Seq<char>,
    strategy: ConflictStrategy,
) -> bool {
    if !is_taken(taken, filename) {
        r matches Resolution::Proceed { name } && name@ == filename
    } else {
        match strategy {
            ConflictStrategy::Skip => r is Skip,
            ConflictStrategy::Overwrite => r matches Resolution::Replace { name } && name@ == filename,
            ConflictStrategy::Rename => exists|k: nat|
                k <= taken.len() + 1 && #[trigger] is_first_free(taken, stem, ext, k) && (
                r matches Resolution::Proceed { name } && name@ == numbered_name(stem, k, ext)),
        }
    }
}

proof fn lemma_decimal_len(n: nat)
    ensures
        decimal(n).len() >= 1,
        n >= 10 ==> decimal(n).len() >= 2,
    decreases n,
{
    if n >= 10 {
        lemma_decimal_len(n / 10);
    }
}

/// Distinct numbers have distinct decimal texts.
proof fn lemma_decimal_injective(a: nat, b: nat)
    requires
        decimal(a) == decimal(b),
    ensures
        a == b,
    decreases a,
{
    lemma_decimal_len(a);
    lemma_decimal_len(b);
    if a < 10 && b < 10 {
        assert(decimal(a)[0] == digit_char(a));
        assert(decimal(b)[0] == digit_char(b));
    } else if a >= 10 && b >= 10 {
        assert(decimal(a).last() == digit_char(a % 10));
        assert(decimal(b).last() == digit_char(b % 10));
        assert(decimal(a).drop_last() =~= decimal(a / 10));
        assert(decimal(b).drop_last() =~= decimal(b / 10));
        lemma_decimal_injective(a / 10, b / 10);
    }
}

/// Distinct numbers give distinct alternative names.
proof fn lemma_numbered_injective(stem: Seq<char>, ext: Seq<char>, a: nat, b: nat)
    requires
        numbered_name(stem, a, ext) == numbered_name(stem, b, ext),
    ensures
        a == b,
{
    let p: int = stem.len() as int + 2;
    let s = numbered_name(stem, a, ext);
    let t = numbered_name(stem, b, ext);
    let tail: int = if ext.len() == 0 { 1 } else { 2 + ext.len() as int };
    assert(s.len() == p + decimal(a).len() + tail);
    assert(t.len() == p + decimal(b).len() + tail);
    assert(s.subrange(p, p + decimal(a).len() as int) =~= decimal(a));
    assert(s.subrange(p, p + decimal(b).len() as int) =~= decimal(b));
    lemma_decimal_injective(a, b);
}

/// Among the first `taken.len() + 1` alternative names one is free: the
/// names are pairwise distinct and `taken` holds fewer of them.
proof fn lemma_some_alternative_free(taken: Seq<String>, stem: Seq<char>, ext: Seq<char>)
    ensures
        exists|k: nat|
            1 <= k <= taken.len() + 1 && !is_taken(taken, #[trigger] numbered_name(stem, k, ext)),
{
    let n: int = taken.len() as int;
    if forall|k: nat| 1 <= k <= n + 1 ==> is_taken(taken, #[trigger] numbered_name(stem, k, ext)) {
        let f = |k: int| choose|j: int| 0 <= j < n && #[trigger] taken[j]@ == numbered_name(stem, k as nat, ext);
        let x = set_int_range(1, n + 2);
        lemma_int_range(1, n + 2);
        assert forall|k: int| x.contains(k) implies 0 <= #[trigger] f(k) < n
            && taken[f(k)]@ == numbered_name(stem, k as nat, ext) by {
            assert(is_taken(taken, numbered_name(stem, k as nat, ext)));
        }
        assert forall|a: int, b: int| x.contains(a) && x.contains(b) && #[trigger] f(a) == #[trigger] f(b) implies a == b by {
            lemma_numbered_injective(stem, ext, a as nat, b as nat);
        }
        let y = x.map(f);
        lemma_map_size(x, y, f);
        assert(y.subset_of(set_int_range(0, n)));
        lemma_int_range(0, n);
        lemma_len_subset(y, set_int_range(0, n));
    }
}

fn digit_text(d: u128) -> (r: &'static str)
    requires
        d < 10,
    ensures
        r@ == seq![digit_char(d as nat)],
{
    proof {
        reveal_strlit("0");
        reveal_strlit("1");
        reveal_strlit("2");
        reveal_strlit("3");
        reveal_strlit("4");
        reveal_strlit("5");
        reveal_strlit("6");
        reveal_strlit("7");
        reveal_strlit("8");
        reveal_strlit("9");
    }
    if d == 0 { "0" }
    else if d == 1 { "1" }
    else if d == 2 { "2" }
    else if d == 3 { "3" }
    else if d == 4 { "4" }
    else if d == 5 { "5" }
    else if d == 6 { "6" }
    else if d == 7 { "7" }
    else if d == 8 { "8" }
    else { "9" }
}

/// Appends the decimal digits of `n`.
fn append_decimal(out: &mut String, n: u128)
    ensures
        final(out)@ == old(out)@ + decimal(n as nat),
    decreases n,
{
    if n >= 10 {
        append_decimal(out, n / 10);
    }
    out.append(digit_text(n % 10));
    assert(final(out)@ =~= old(out)@ + decimal(n as nat));
}

/// Builds the `k`-th alternative name for a file.
pub fn alternative_name(stem: &str, k: u128, ext: &str) -> (r: String)
    ensures
        r@ == numbered_name(stem@, k as nat, ext@),
{
    let mut out = String::from_str(stem);
    proof {
        reveal_strlit(" (");
        reveal_strlit(")");
        reveal_strlit(").");
    }
    out.append(" (");
    append_decimal(&mut out, k);
    if ext.unicode_len() == 0 {
        out.append(")");
    } else {
        out.append(").");
        out.append(ext);
    }
    assert(out@ =~= numbered_name(stem@, k as nat, ext@));
    out
}

/// Whether `name` is among `taken`.
pub fn name_taken(taken: &Vec<String>, name: &str) -> (r: bool)
    ensures
        r == is_taken(taken@, name@),
{
    let mut j: usize = 0;
    while j < taken.len()
        invariant
            j <= taken@.len(),
            forall|m: int| 0 <= m < j ==> #[trigger] taken@[m]@ != name@,
        decreases taken@.len() - j,
    {
        if crate::text::same_text(taken[j].as_str(), name) {
            return true;
        }
        j += 1;
    }
    false
}

/// Decides where a file named `filename` (stem `stem`, extension `ext`
/// without its dot) lands in a folder that already holds the names `taken`.
/// A free name always proceeds. A taken one is skipped, replaced, or, under
/// `Rename`, exchanged for the first free `stem (k).ext`, `k = 1, 2, ...`;
/// such a name is always found among the first `taken.len() + 1`.
pub fn resolve(
    taken: &Vec<String>,
    filename: &str,
    stem: &str,
    ext: &str,
    strategy: ConflictStrategy,
) -> (r: Resolution)
    ensures
        resolves_to(r, taken@, filename@, stem@, ext@, strategy),
{
    if !name_taken(taken, filename) {
        return Resolution::Proceed { name: String::from_str(filename) };
    }
    match strategy {
        ConflictStrategy::Skip => Resolution::Skip,
        ConflictStrategy::Overwrite => Resolution::Replace { name: String::from_str(filename) },
        ConflictStrategy::Rename => {
            let limit: u128 = taken.len() as u128 + 1;
            let mut k: u128 = 1;
            proof {
                lemma_some_alternative_free(taken@, stem@, ext@);
            }
            loop
                invariant
                    1 <= k <= limit,
                    limit == taken@.len() + 1,
                    is_taken(taken@, filename@),
                    strategy == ConflictStrategy::Rename,
                    forall|m: nat| 1 <= m < k ==> is_taken(taken@, #[trigger] numbered_name(stem@, m, ext@)),
                    exists|m: nat|
                        1 <= m <= taken@.len() + 1 && !is_taken(taken@, #[trigger] numbered_name(stem@, m, ext@)),
                decreases limit - k,
            {
                let candidate = alternative_name(stem, k, ext);
                if !name_taken(taken, candidate.as_str()) {
                    assert(is_first_free(taken@, stem@, ext@, k as nat));
                    return Resolution::Proceed { name: candidate };
                }
                proof {
                    if k == limit {
                        let m = choose|m: nat|
                            1 <= m <= taken@.len() + 1 && !is_taken(taken@, #[trigger] numbered_name(stem@, m, ext@));
                        assert(is_taken(taken@, numbered_name(stem@, m, ext@)));
                    }
                }
                k += 1;
            }
        },
    }
}

} // verus!
