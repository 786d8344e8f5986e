use vstd::prelude::*;

verus! {

/// The number of letters that an alias is made of: the small letters, then
/// the capital letters.
pub const letterCount: u32 = 52;

/// The bits of a draw that pick its letter.
pub const letterIdxMask: u32 = 32;

/// The number of letters after which fresh bits are drawn.
pub const letterIdxMax: u32 = 10;

/// The letter at index `i`: `a` to `z` at 0 to 25, `A` to `Z` at 26 to 51.
pub open spec fn letter_at(i: int) -> u8
    recommends
        0 <= i < 52,
{
    if i < 26 {
        (97 + i) as u8
    } else {
        (65 + i - 26) as u8
    }
}

/// The letter that a draw of random bits picks: the one at the index that the
/// masked bits give, and none where that index is beyond the letters.
pub open spec fn letter_of(draw: u32) -> Option<u8> {
    let index = draw & letterIdxMask;
    if index < letterCount {
        Some(letter_at(index as int))
    } else {
        None
    }
}

/// The letters that a run of draws picks, in order: one for each draw that
/// picks one.
pub open spec fn alias_of(draws: Seq<u32>) -> Seq<u8>
    decreases draws.len(),
{
    if draws.len() == 0 {
        Seq::empty()
    } else {
        match letter_of(draws.last()) {
            Some(letter) => alias_of(draws.drop_last()).push(letter),
            None => alias_of(draws.drop_last()),
        }
    }
}

/// The letter that a draw of random bits picks, if it picks one.
pub fn alias_letter(draw: u32) -> (r: Option<u8>)
    ensures
        r == letter_of(draw),
{
    let index: u32 = draw & letterIdxMask;
    if index < letterCount {
        if index < 26 {
            Some((97 + index) as u8)
        } else {
            Some((65 + (index - 26)) as u8)
        }
    } else {
        None
    }
}

/// The bytes of the alias that a run of draws gives: the letters that the
/// draws pick, in order. They are letters of ASCII, so the alias is text.
pub fn generate_alias(draws: &Vec<u32>) -> (r: Vec<u8>)
    ensures
        r@ == alias_of(draws@),
        forall|i: int|
            0 <= i < r@.len() ==> (97 <= #[trigger] r@[i] <= 122 || 65 <= r@[i] <= 90),
{
    let mut letters: Vec<u8> = Vec::new();
    let mut i: usize = 0;
    while i < draws.len()
        invariant
            i <= draws@.len(),
            letters@ == alias_of(draws@.take(i as int)),
            forall|k: int|
                0 <= k < letters@.len() ==> (97 <= #[trigger] letters@[k] <= 122 || 65
                    <= letters@[k] <= 90),
        decreases draws@.len() - i,
    {
        assert(draws@.take(i + 1).drop_last() =~= draws@.take(i as int));
        match alias_letter(draws[i]) {
            Some(letter) => {
                letters.push(letter);
            },
            None => {},
        }
        i += 1;
    }
    assert(draws@.take(i as int) =~= draws@);
    letters
}

} // verus!
