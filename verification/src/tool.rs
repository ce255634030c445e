use rand::Rng;
use vstd::prelude::*;
use vstd::string::StrSliceExecFns;
use vstd::string::StringExecFns;

verus! {

/// The characters a verification code is drawn from.
pub const CHARSET: &'static str = "ABCDEFGHIJKLMNOPQRSTUVWXYZabcdefghijklmnopqrstuvwxyz0123456789";

/// How many characters a verification code has.
pub const CODE_LEN: usize = 8;

/// The code spelled by `indices` into `CHARSET`.
pub open spec fn code_text(indices: Seq<usize>) -> Seq<char> {
    Seq::new(indices.len(), |i: int| CHARSET@[indices[i] as int])
}

/// `Rng::random_range(0..bound)` on `rand::rng()`, the thread's generator.
/// Trusted: the number drawn lies in `0..bound`; which one is chance. The
/// call panics on an empty range, which `requires` rules out.
#[verifier::external_body]
fn random_below(bound: usize) -> (r: usize)
    requires
        bound > 0,
    ensures
        r < bound,
{
    rand::rng().random_range(0..bound)
}

/// Spells the code whose characters are `CHARSET[i]` for each `i` of
/// `indices`.
pub fn code_from_indices(indices: &[usize]) -> (code: String)
    requires
        forall|i: int| 0 <= i < indices@.len() ==> #[trigger] indices@[i] < 62,
    ensures
        code@ == code_text(indices@),
{
    proof {
        reveal_strlit("ABCDEFGHIJKLMNOPQRSTUVWXYZabcdefghijklmnopqrstuvwxyz0123456789");
    }
    let mut code = String::new();
    let mut k: usize = 0;
    while k < indices.len()
        invariant
            k <= indices@.len(),
            CHARSET@.len() == 62,
            forall|i: int| 0 <= i < indices@.len() ==> #[trigger] indices@[i] < 62,
            code@ =~= code_text(indices@.subrange(0, k as int)),
        decreases indices@.len() - k,
    {
        let idx = indices[k];
        let c = CHARSET.substring_char(idx, idx + 1);
        code.append(c);
        k = k + 1;
        assert(code@ =~= code_text(indices@.subrange(0, k as int)));
    }
    assert(indices@.subrange(0, k as int) =~= indices@);
    code
}

/// A fresh verification code: eight characters, each drawn at random from
/// `CHARSET`.
pub fn random_code() -> (code: String)
    ensures
        code@.len() == CODE_LEN,
        forall|i: int| 0 <= i < code@.len() ==> CHARSET@.contains(#[trigger] code@[i]),
{
    proof {
        reveal_strlit("ABCDEFGHIJKLMNOPQRSTUVWXYZabcdefghijklmnopqrstuvwxyz0123456789");
    }
    let mut indices: Vec<usize> = Vec::new();
    let mut k: usize = 0;
    while k < CODE_LEN
        invariant
            k <= CODE_LEN,
            indices@.len() == k,
            CHARSET@.len() == 62,
            forall|i: int| 0 <= i < indices@.len() ==> #[trigger] indices@[i] < 62,
        decreases CODE_LEN - k,
    {
        let idx = random_below(CHARSET.unicode_len());
        indices.push(idx);
        k = k + 1;
    }
    let code = code_from_indices(indices.as_slice());
    assert forall|i: int| 0 <= i < code@.len() implies CHARSET@.contains(#[trigger] code@[i]) by {
        assert(CHARSET@[indices@[i] as int] == code@[i]);
    }
    code
}

} // verus!
