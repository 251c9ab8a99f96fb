//! The record builder: pairs attribute-name tokens with value tokens by
//! position and fills the requirements.

use vstd::prelude::*;
use crate::record::{PageError, Requirements, Stat};

verus! {

/// The attribute a three-letter token names, if any.
pub open spec fn stat_of(t: Seq<char>) -> Option<Stat> {
    if t == seq!['s', 't', 'r'] {
        Some(Stat::Strength)
    } else if t == seq!['d', 'e', 'x'] {
        Some(Stat::Dexterity)
    } else if t == seq!['i', 'n', 't'] {
        Some(Stat::Intelligence)
    } else if t == seq!['f', 'a', 'i'] {
        Some(Stat::Faith)
    } else if t == seq!['a', 'r', 'c'] {
        Some(Stat::Arcane)
    } else {
        None
    }
}

/// The value paired with the name token at position `i`: the value token
/// at the same position, or zero where there is none.
pub open spec fn paired_value(values: Seq<u8>, i: int) -> u8 {
    if 0 <= i < values.len() {
        values[i]
    } else {
        0
    }
}

/// Whether every name token names an attribute.
pub open spec fn all_known(names: Seq<Seq<char>>) -> bool {
    forall|i: int| 0 <= i < names.len() ==> (#[trigger] stat_of(names[i])) is Some
}

/// Whether `t` is the first name token that names no attribute.
pub open spec fn first_unknown(names: Seq<Seq<char>>, t: Seq<char>) -> bool {
    exists|i: int|
        0 <= i < names.len() && names[i] == t && stat_of(t) is None
            && all_known(#[trigger] names.subrange(0, i))
}

/// The requirements after the first `n` pairs are applied, in order, to
/// all-zero requirements.
pub open spec fn paired(names: Seq<Seq<char>>, values: Seq<u8>, n: nat) -> Requirements
    decreases n,
{
    if n == 0 {
        Requirements::spec_zero()
    } else {
        let before = paired(names, values, (n - 1) as nat);
        match stat_of(names[n - 1]) {
            Some(s) => before.with(s, paired_value(values, n - 1)),
            None => before,
        }
    }
}

/// The attribute that a token names.
pub fn stat_of_token(t: &str) -> (r: Option<Stat>)
    ensures
        r == stat_of(t@),
{
    if t.unicode_len() != 3 {
        assert(t@ != seq!['s', 't', 'r']);
        assert(t@ != seq!['d', 'e', 'x']);
        assert(t@ != seq!['i', 'n', 't']);
        assert(t@ != seq!['f', 'a', 'i']);
        assert(t@ != seq!['a', 'r', 'c']);
        return None;
    }
    let a = t.get_char(0);
    let b = t.get_char(1);
    let c = t.get_char(2);
    let ghost v = seq![a, b, c];
    assert(t@ =~= v);
    if a == 's' && b == 't' && c == 'r' {
        Some(Stat::Strength)
    } else if a == 'd' && b == 'e' && c == 'x' {
        Some(Stat::Dexterity)
    } else if a == 'i' && b == 'n' && c == 't' {
        Some(Stat::Intelligence)
    } else if a == 'f' && b == 'a' && c == 'i' {
        Some(Stat::Faith)
    } else if a == 'a' && b == 'r' && c == 'c' {
        Some(Stat::Arcane)
    } else {
        assert(v != seq!['s', 't', 'r'] ==> v[0] != 's' || v[1] != 't' || v[2] != 'r');
        None
    }
}

/// Pairs the name tokens with the value tokens by position: the value of
/// name `i` is value `i`, or zero where there are fewer values, and a later
/// name of the same attribute overrides an earlier one. A name token that
/// names no attribute is an error that carries the first such token.
pub fn build_requirements(names: &Vec<String>, values: &Vec<u8>) -> (r: Result<Requirements, PageError>)
    ensures
        r is Ok <==> all_known(names.deep_view()),
        r matches Ok(q) ==> q == paired(names.deep_view(), values@, names.len() as nat),
        r matches Err(e) ==> e matches PageError::UnknownStat(t) && first_unknown(names.deep_view(), t@),
{
    let ghost ns = names.deep_view();
    let mut q = Requirements::zero();
    let mut i: usize = 0;
    while i < names.len()
        invariant
            i <= names.len(),
            ns == names.deep_view(),
            all_known(ns.subrange(0, i as int)),
            q == paired(ns, values@, i as nat),
        decreases names.len() - i,
    {
        let v: u8 = if i < values.len() { values[i] } else { 0 };
        match stat_of_token(names[i].as_str()) {
            Some(s) => {
                q.set(s, v);
                assert(all_known(ns.subrange(0, i + 1))) by {
                    assert(forall|j: int| 0 <= j < i + 1 ==> ns.subrange(0, i + 1)[j] == ns[j]);
                    assert(forall|j: int| 0 <= j < i ==> ns.subrange(0, i as int)[j] == ns[j]);
                }
            },
            None => {
                assert(ns[i as int] == names[i as int]@);
                assert(stat_of(ns[i as int]) is None);
                assert(!all_known(ns));
                assert(first_unknown(ns, names[i as int]@));
                return Err(PageError::UnknownStat(names[i].clone()));
            },
        }
        i = i + 1;
    }
    assert(ns.subrange(0, i as int) =~= ns);
    Ok(q)
}

} // verus!
