use vstd::prelude::*;

verus! {

/// How many endings the reply can have.
pub const MATTHIAS_ENDINGS: usize = 3;

/// The reply with ending number `choice`.
pub open spec fn matthias_text(choice: int) -> Seq<char> {
    let middle = if choice == 0 {
        "Go "@
    } else if choice == 1 {
        "Big "@
    } else {
        ""@
    };
    "<:phoenix:900483319039402014> | "@ + middle + "slay!"@
}

/// Relies on `rand::Rng::gen_range` over `rand::thread_rng()`: a number in
/// `0..n`, which must not be empty.
#[verifier::external_body]
fn random_below(n: usize) -> (r: usize)
    requires
        n > 0,
    ensures
        r < n,
{
    rand::Rng::gen_range(&mut rand::thread_rng(), 0..n)
}

/// The reply with ending number `choice`.
pub fn matthias_line(choice: usize) -> (r: String)
    requires
        choice < MATTHIAS_ENDINGS,
    ensures
        r@ == matthias_text(choice as int),
{
    let middle: &str = if choice == 0 {
        "Go "
    } else if choice == 1 {
        "Big "
    } else {
        ""
    };
    let mut s = String::from_str("<:phoenix:900483319039402014> | ");
    s.append(middle);
    s.append("slay!");
    s
}

/// The reply with an ending picked at random.
pub fn build_matthias() -> (r: String)
    ensures
        exists|i: int| 0 <= i < MATTHIAS_ENDINGS && r@ == matthias_text(i),
{
    let choice = random_below(MATTHIAS_ENDINGS);
    matthias_line(choice)
}

} // verus!
