use vstd::prelude::*;

use crate::rng::{rand_below, shuffle_chars};

verus! {

/// Uppercase letters offered for passwords; the easily confused `I` and `O`
/// are left out.
pub open spec fn spec_upper_chars() -> Seq<char> {
    "ABCDEFGHJKLMNPQRSTUVWXYZ"@
}

/// Lowercase letters offered for passwords; the easily confused `l` is left
/// out.
pub open spec fn spec_lower_chars() -> Seq<char> {
    "abcdefghijkmnopqrstuvwxyz"@
}

/// Digits offered for passwords; the easily confused `0` is left out.
pub open spec fn spec_number_chars() -> Seq<char> {
    "123456789"@
}

/// Symbols offered for passwords.
pub open spec fn spec_symbol_chars() -> Seq<char> {
    "!@#$^&*_"@
}

/// A character may appear in the password exactly when it belongs to one of
/// the selected character classes.
pub open spec fn spec_char_allowed(
    c: char,
    uppercase: bool,
    lowercase: bool,
    number: bool,
    symbol: bool,
) -> bool {
    ||| (uppercase && spec_upper_chars().contains(c))
    ||| (lowercase && spec_lower_chars().contains(c))
    ||| (number && spec_number_chars().contains(c))
    ||| (symbol && spec_symbol_chars().contains(c))
}

/// Some character of `class` appears in `s`.
pub open spec fn spec_has_char_of(s: Seq<char>, class: Seq<char>) -> bool {
    exists|i: int| 0 <= i < s.len() && class.contains(#[trigger] s[i])
}

/// How many character classes are selected.
pub open spec fn spec_class_count(
    uppercase: bool,
    lowercase: bool,
    number: bool,
    symbol: bool,
) -> int {
    (if uppercase {
        1int
    } else {
        0int
    }) + (if lowercase {
        1int
    } else {
        0int
    }) + (if number {
        1int
    } else {
        0int
    }) + (if symbol {
        1int
    } else {
        0int
    })
}

proof fn lemma_has_char_of_push_keep(s: Seq<char>, class: Seq<char>, c: char)
    requires
        spec_has_char_of(s, class),
    ensures
        spec_has_char_of(s.push(c), class),
{
    let i = choose|i: int| 0 <= i < s.len() && class.contains(#[trigger] s[i]);
    assert(s.push(c)[i] == s[i]);
    assert(class.contains(s.push(c)[i]));
}

proof fn lemma_has_char_of_push_new(s: Seq<char>, class: Seq<char>, c: char)
    requires
        class.contains(c),
    ensures
        spec_has_char_of(s.push(c), class),
{
    assert(s.push(c)[s.len() as int] == c);
    assert(class.contains(s.push(c)[s.len() as int]));
}

proof fn lemma_has_char_of_reorder(s1: Seq<char>, s2: Seq<char>, class: Seq<char>)
    requires
        s1.to_multiset() == s2.to_multiset(),
        spec_has_char_of(s1, class),
    ensures
        spec_has_char_of(s2, class),
{
    broadcast use vstd::seq_lib::group_to_multiset_ensures;

    let i = choose|i: int| 0 <= i < s1.len() && class.contains(#[trigger] s1[i]);
    let c = s1[i];
    assert(s1.contains(c));
    assert(s1.to_multiset().count(c) > 0);
    assert(s2.contains(c));
    let j = choose|j: int| 0 <= j < s2.len() && s2[j] == c;
    assert(class.contains(s2[j]));
}

/// The characters of a string, in order.
fn str_chars(s: &str) -> (v: Vec<char>)
    ensures
        v@ == s@,
{
    let n = s.unicode_len();
    let mut v: Vec<char> = Vec::new();
    let mut i: usize = 0;
    while i < n
        invariant
            n as nat == s@.len(),
            i <= n,
            v@ == s@.subrange(0, i as int),
        decreases n - i,
    {
        let c = s.get_char(i);
        v.push(c);
        proof {
            assert(s@.subrange(0, i + 1 as int) =~= s@.subrange(0, i as int).push(s@[i as int]));
        }
        i += 1;
    }
    proof {
        assert(s@.subrange(0, s@.len() as int) =~= s@);
    }
    v
}

/// Relies on `String::from_iter`: collects the characters into a string, in
/// order.
#[verifier::external_body]
fn string_from_chars(v: &Vec<char>) -> (r: String)
    ensures
        r@ == v@,
{
    v.iter().collect()
}

/// Generates a random password of exactly `length` characters, each drawn
/// from the selected character classes, with at least one character of every
/// selected class; the order is random.
///
/// A length below the number of selected classes cannot honour the per-class
/// guarantee, and a positive length needs at least one class to draw from;
/// such inputs are left out.
pub fn process_gen_pass(
    length: u8,
    uppercase: bool,
    lowercase: bool,
    number: bool,
    symbol: bool,
) -> (password: String)
    requires
        spec_class_count(uppercase, lowercase, number, symbol) <= length as int,
        length > 0 ==> (uppercase || lowercase || number || symbol),
    ensures
        password@.len() == length as nat,
        forall|i: int|
            0 <= i < password@.len() ==> spec_char_allowed(
                #[trigger] password@[i],
                uppercase,
                lowercase,
                number,
                symbol,
            ),
        uppercase ==> spec_has_char_of(password@, spec_upper_chars()),
        lowercase ==> spec_has_char_of(password@, spec_lower_chars()),
        number ==> spec_has_char_of(password@, spec_number_chars()),
        symbol ==> spec_has_char_of(password@, spec_symbol_chars()),
{
    let mut pool: Vec<char> = Vec::new();
    let mut picked: Vec<char> = Vec::new();

    if uppercase {
        let mut cs = str_chars("ABCDEFGHJKLMNPQRSTUVWXYZ");
        proof {
            reveal_strlit("ABCDEFGHJKLMNPQRSTUVWXYZ");
        }
        let ghost pre = picked@;
        let k = rand_below(cs.len());
        let c = cs[k];
        picked.push(c);
        pool.append(&mut cs);
        proof {
            assert(spec_upper_chars().contains(c));
            lemma_has_char_of_push_new(pre, spec_upper_chars(), c);
        }
    }
    if lowercase {
        let mut cs = str_chars("abcdefghijkmnopqrstuvwxyz");
        proof {
            reveal_strlit("abcdefghijkmnopqrstuvwxyz");
        }
        let ghost pre = picked@;
        let k = rand_below(cs.len());
        let c = cs[k];
        picked.push(c);
        pool.append(&mut cs);
        proof {
            assert(spec_lower_chars().contains(c));
            lemma_has_char_of_push_new(pre, spec_lower_chars(), c);
            if uppercase {
                lemma_has_char_of_push_keep(pre, spec_upper_chars(), c);
            }
        }
    }
    if number {
        let mut cs = str_chars("123456789");
        proof {
            reveal_strlit("123456789");
        }
        let ghost pre = picked@;
        let k = rand_below(cs.len());
        let c = cs[k];
        picked.push(c);
        pool.append(&mut cs);
        proof {
            assert(spec_number_chars().contains(c));
            lemma_has_char_of_push_new(pre, spec_number_chars(), c);
            if uppercase {
                lemma_has_char_of_push_keep(pre, spec_upper_chars(), c);
            }
            if lowercase {
                lemma_has_char_of_push_keep(pre, spec_lower_chars(), c);
            }
        }
    }
    if symbol {
        let mut cs = str_chars("!@#$^&*_");
        proof {
            reveal_strlit("!@#$^&*_");
        }
        let ghost pre = picked@;
        let k = rand_below(cs.len());
        let c = cs[k];
        picked.push(c);
        pool.append(&mut cs);
        proof {
            assert(spec_symbol_chars().contains(c));
            lemma_has_char_of_push_new(pre, spec_symbol_chars(), c);
            if uppercase {
                lemma_has_char_of_push_keep(pre, spec_upper_chars(), c);
            }
            if lowercase {
                lemma_has_char_of_push_keep(pre, spec_lower_chars(), c);
            }
            if number {
                lemma_has_char_of_push_keep(pre, spec_number_chars(), c);
            }
        }
    }

    while picked.len() < length as usize
        invariant
            length > 0 ==> (uppercase || lowercase || number || symbol),
            (uppercase || lowercase || number || symbol) ==> pool@.len() > 0,
            picked@.len() <= length as nat,
            forall|i: int|
                0 <= i < pool@.len() ==> spec_char_allowed(
                    #[trigger] pool@[i],
                    uppercase,
                    lowercase,
                    number,
                    symbol,
                ),
            forall|i: int|
                0 <= i < picked@.len() ==> spec_char_allowed(
                    #[trigger] picked@[i],
                    uppercase,
                    lowercase,
                    number,
                    symbol,
                ),
            uppercase ==> spec_has_char_of(picked@, spec_upper_chars()),
            lowercase ==> spec_has_char_of(picked@, spec_lower_chars()),
            number ==> spec_has_char_of(picked@, spec_number_chars()),
            symbol ==> spec_has_char_of(picked@, spec_symbol_chars()),
        decreases length as int - picked@.len(),
    {
        let ghost pre = picked@;
        let k = rand_below(pool.len());
        let c = pool[k];
        picked.push(c);
        proof {
            if uppercase {
                lemma_has_char_of_push_keep(pre, spec_upper_chars(), c);
            }
            if lowercase {
                lemma_has_char_of_push_keep(pre, spec_lower_chars(), c);
            }
            if number {
                lemma_has_char_of_push_keep(pre, spec_number_chars(), c);
            }
            if symbol {
                lemma_has_char_of_push_keep(pre, spec_symbol_chars(), c);
            }
        }
    }

    let ghost before = picked@;
    shuffle_chars(&mut picked);

    proof {
        broadcast use vstd::seq_lib::group_to_multiset_ensures;

        assert forall|i: int| 0 <= i < picked@.len() implies spec_char_allowed(
            #[trigger] picked@[i],
            uppercase,
            lowercase,
            number,
            symbol,
        ) by {
            let c = picked@[i];
            assert(picked@.contains(c));
            assert(before.to_multiset().count(c) > 0);
            assert(before.contains(c));
            let j = choose|j: int| 0 <= j < before.len() && before[j] == c;
            assert(spec_char_allowed(before[j], uppercase, lowercase, number, symbol));
        }
        if uppercase {
            lemma_has_char_of_reorder(before, picked@, spec_upper_chars());
        }
        if lowercase {
            lemma_has_char_of_reorder(before, picked@, spec_lower_chars());
        }
        if number {
            lemma_has_char_of_reorder(before, picked@, spec_number_chars());
        }
        if symbol {
            lemma_has_char_of_reorder(before, picked@, spec_symbol_chars());
        }
    }
    string_from_chars(&picked)
}

} // verus!
