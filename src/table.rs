use vstd::prelude::*;

verus! {

/// `n!` over the naturals.
pub open spec fn factorial(n: nat) -> nat
    decreases n,
{
    if n == 0 {
        1
    } else {
        n * factorial((n - 1) as nat)
    }
}

/// The largest `n` whose factorial fits in an `i64` (`21!` does not).
pub const MAX_FACTORIAL_INPUT: i32 = 20;

/// `n!` for every `n` in `0..=20`, indexed by `n`.
pub const FACTORIALS: [i64; 21] = [
    1,
    1,
    2,
    6,
    24,
    120,
    720,
    5040,
    40320,
    362880,
    3628800,
    39916800,
    479001600,
    6227020800,
    87178291200,
    1307674368000,
    20922789888000,
    355687428096000,
    6402373705728000,
    121645100408832000,
    2432902008176640000,
];

/// Whether `v` lies in the domain on which the factorial is defined here.
pub open spec fn in_domain(v: int) -> bool {
    0 <= v <= MAX_FACTORIAL_INPUT
}

/// The result of the function on one optional input: present exactly when
/// the input is present and in the domain, and then its factorial.
pub open spec fn factorial_of(num: Option<i32>) -> Option<i64> {
    match num {
        Some(v) => if in_domain(v as int) {
            Some(factorial(v as nat) as i64)
        } else {
            None
        },
        None => None,
    }
}

/// The values of `factorial` up to 20, each step one unfolding.
proof fn lemma_factorial_values()
    ensures
        factorial(0) == 1,
        factorial(1) == 1,
        factorial(2) == 2,
        factorial(3) == 6,
        factorial(4) == 24,
        factorial(5) == 120,
        factorial(6) == 720,
        factorial(7) == 5040,
        factorial(8) == 40320,
        factorial(9) == 362880,
        factorial(10) == 3628800,
        factorial(11) == 39916800,
        factorial(12) == 479001600,
        factorial(13) == 6227020800,
        factorial(14) == 87178291200,
        factorial(15) == 1307674368000,
        factorial(16) == 20922789888000,
        factorial(17) == 355687428096000,
        factorial(18) == 6402373705728000,
        factorial(19) == 121645100408832000,
        factorial(20) == 2432902008176640000,
{
    assert(factorial(0) == 1);
    assert(factorial(1) == 1);
    assert(factorial(2) == 2);
    assert(factorial(3) == 6);
    assert(factorial(4) == 24);
    assert(factorial(5) == 120);
    assert(factorial(6) == 720);
    assert(factorial(7) == 5040);
    assert(factorial(8) == 40320);
    assert(factorial(9) == 362880);
    assert(factorial(10) == 3628800);
    assert(factorial(11) == 39916800);
    assert(factorial(12) == 479001600);
    assert(factorial(13) == 6227020800);
    assert(factorial(14) == 87178291200);
    assert(factorial(15) == 1307674368000);
    assert(factorial(16) == 20922789888000);
    assert(factorial(17) == 355687428096000);
    assert(factorial(18) == 6402373705728000);
    assert(factorial(19) == 121645100408832000);
    assert(factorial(20) == 2432902008176640000);
}

/// Every entry of the table is the factorial of its index.
pub proof fn lemma_table_matches_factorial(i: int)
    requires
        in_domain(i),
    ensures
        FACTORIALS@[i] as int == factorial(i as nat),
{
    lemma_factorial_values();
    assert(FACTORIALS@ =~= seq![
        1i64, 1, 2, 6, 24, 120, 720, 5040, 40320, 362880, 3628800, 39916800, 479001600,
        6227020800, 87178291200, 1307674368000, 20922789888000, 355687428096000,
        6402373705728000, 121645100408832000, 2432902008176640000,
    ]);
}

/// The factorial of one optional input: `None` for a missing input and for
/// one outside `0..=20`, else the exact factorial.
pub fn compute_factorial(num: Option<i32>) -> (r: Option<i64>)
    ensures
        r == factorial_of(num),
{
    match num {
        Some(v) => {
            if 0 <= v && v <= MAX_FACTORIAL_INPUT {
                proof {
                    lemma_table_matches_factorial(v as int);
                }
                Some(FACTORIALS[v as usize])
            } else {
                None
            }
        },
        None => None,
    }
}

/// Inside `0..=20` a present input gives the table's entry, which is the
/// exact factorial.
pub proof fn lemma_present_in_domain(v: i32)
    requires
        in_domain(v as int),
    ensures
        factorial_of(Some(v)) == Some(FACTORIALS@[v as int]),
        FACTORIALS@[v as int] as int == factorial(v as nat),
{
    lemma_table_matches_factorial(v as int);
}

/// A present input below 0 or above 20 gives no result.
pub proof fn lemma_present_out_of_domain(v: i32)
    requires
        v < 0 || v > MAX_FACTORIAL_INPUT,
    ensures
        factorial_of(Some(v)) is None,
{
}

/// A missing input gives no result.
pub proof fn lemma_absent_gives_absent()
    ensures
        factorial_of(None) is None,
{
}

/// Whether `t` holds `i!` at each index `i` in `0..=20`, and nothing else.
pub open spec fn is_factorial_table(t: Seq<i64>) -> bool {
    &&& t.len() == 21
    &&& forall|i: int| in_domain(i) ==> #[trigger] t[i] as int == factorial(i as nat)
}

/// A fresh copy of the domain table.
pub fn factorial_table() -> (t: [i64; 21])
    ensures
        is_factorial_table(t@),
{
    let t = FACTORIALS;
    assert forall|i: int| in_domain(i) implies #[trigger] t@[i] as int == factorial(i as nat) by {
        lemma_table_matches_factorial(i);
    }
    t
}

/// Building the domain table twice gives the same values: the table is fixed
/// by the factorial alone.
pub proof fn lemma_table_rebuild_identical(a: Seq<i64>, b: Seq<i64>)
    requires
        is_factorial_table(a),
        is_factorial_table(b),
    ensures
        a == b,
{
    assert forall|i: int| 0 <= i < a.len() implies a[i] == b[i] by {
        assert(in_domain(i));
    }
    assert(a =~= b);
}

} // verus!
