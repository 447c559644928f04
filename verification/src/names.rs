//! The names that a palette derives from the name a colour was declared
//! with: a constant name in upper snake case, an accessor name in lower snake
//! case, and the key under which the colour is looked up.

use vstd::prelude::*;
use crate::text::{ascii_lower, ascii_upper, char_is_alphanumeric, char_is_uppercase, chars_of};

verus! {

/// Whether a new word starts at place `i` of `name`: the character there is
/// upper case, is not the first, and does not follow an upper-case character.
pub open spec fn starts_word(name: Seq<char>, i: int) -> bool {
    i > 0 && char_is_uppercase(name[i]) && !char_is_uppercase(name[i - 1])
}

/// What the character at place `i` becomes in upper snake case: itself in
/// ASCII upper case, after a `_` where a word starts.
pub open spec fn upper_piece(name: Seq<char>, i: int) -> Seq<char> {
    if starts_word(name, i) {
        seq!['_', ascii_upper(name[i])]
    } else {
        seq![ascii_upper(name[i])]
    }
}

/// What the character at place `i` becomes in lower snake case: an upper-case
/// character is put in ASCII lower case, after a `_` where a word starts; any
/// other character stays as it is.
pub open spec fn lower_piece(name: Seq<char>, i: int) -> Seq<char> {
    if starts_word(name, i) {
        seq!['_', ascii_lower(name[i])]
    } else if char_is_uppercase(name[i]) {
        seq![ascii_lower(name[i])]
    } else {
        seq![name[i]]
    }
}

/// The first `n` characters of `name` in upper snake case.
pub open spec fn upper_pieces(name: Seq<char>, n: nat) -> Seq<Seq<char>> {
    Seq::new(n, |i: int| upper_piece(name, i))
}

/// The first `n` characters of `name` in lower snake case.
pub open spec fn lower_pieces(name: Seq<char>, n: nat) -> Seq<Seq<char>> {
    Seq::new(n, |i: int| lower_piece(name, i))
}

/// `name` in upper snake case, as for a constant: `customColor` becomes
/// `CUSTOM_COLOR`. A run of upper-case characters starts one word only, so
/// `HTMLColor` becomes `HTMLCOLOR`.
pub open spec fn upper_snake(name: Seq<char>) -> Seq<char> {
    upper_pieces(name, name.len()).flatten()
}

/// `name` in lower snake case, as for an accessor: `customColor` becomes
/// `custom_color`.
pub open spec fn lower_snake(name: Seq<char>) -> Seq<char> {
    lower_pieces(name, name.len()).flatten()
}

/// The key under which `name` is looked up: its letters and numbers, in ASCII
/// lower case.
pub open spec fn lookup_key(name: Seq<char>) -> Seq<char> {
    name.filter(|c: char| char_is_alphanumeric(c)).map_values(|c: char| ascii_lower(c))
}

/// A character that is neither a letter nor a number makes no difference to
/// the key of a name, wherever it stands.
pub proof fn lemma_key_ignores_punctuation(head: Seq<char>, c: char, tail: Seq<char>)
    requires
        !char_is_alphanumeric(c),
    ensures
        lookup_key(head + seq![c] + tail) == lookup_key(head + tail),
{
    let kept = |c: char| char_is_alphanumeric(c);
    Seq::filter_distributes_over_add(head + seq![c], tail, kept);
    Seq::filter_distributes_over_add(head, seq![c], kept);
    Seq::filter_distributes_over_add(head, tail, kept);
    assert(seq![c].filter(kept) =~= Seq::<char>::empty()) by {
        reveal_with_fuel(Seq::filter, 2);
        assert(seq![c].drop_last() =~= Seq::<char>::empty());
    }
    assert((head + seq![c] + tail).filter(kept) =~= (head + tail).filter(kept));
}

/// Two names of one length have the same key if at each place their
/// characters are the same but for ASCII case, and are both letters or
/// numbers or both not.
pub proof fn lemma_key_ignores_case(a: Seq<char>, b: Seq<char>)
    requires
        a.len() == b.len(),
        forall|i: int|
            0 <= i < a.len() ==> ascii_lower(#[trigger] a[i]) == ascii_lower(b[i])
                && char_is_alphanumeric(a[i]) == char_is_alphanumeric(b[i]),
    ensures
        lookup_key(a) == lookup_key(b),
    decreases a.len(),
{
    let kept = |c: char| char_is_alphanumeric(c);
    reveal_with_fuel(Seq::filter, 2);
    if a.len() > 0 {
        let last = a.len() - 1;
        assert(ascii_lower(a[last]) == ascii_lower(b[last]));
        assert forall|i: int| 0 <= i < a.drop_last().len() implies ascii_lower(
            #[trigger] a.drop_last()[i],
        ) == ascii_lower(b.drop_last()[i]) && char_is_alphanumeric(a.drop_last()[i])
            == char_is_alphanumeric(b.drop_last()[i]) by {
            assert(ascii_lower(a[i]) == ascii_lower(b[i]));
        }
        lemma_key_ignores_case(a.drop_last(), b.drop_last());
        let ka = a.drop_last().filter(kept);
        let kb = b.drop_last().filter(kept);
        assert(lookup_key(a.drop_last()) == lookup_key(b.drop_last()));
        if char_is_alphanumeric(a[last]) {
            assert(a.filter(kept) == ka.push(a.last()));
            assert(b.filter(kept) == kb.push(b.last()));
            assert(lookup_key(a) =~= lookup_key(a.drop_last()).push(ascii_lower(a[last])));
            assert(lookup_key(b) =~= lookup_key(b.drop_last()).push(ascii_lower(b[last])));
        } else {
            assert(a.filter(kept) == ka);
            assert(b.filter(kept) == kb);
        }
    } else {
        assert(a =~= b);
    }
}

/// `s` in upper snake case.
pub fn to_upper_snake_case(s: &str) -> (out: String)
    ensures
        out@ == upper_snake(s@),
{
    let chars = chars_of(s);
    let mut out = String::new();
    let mut after_upper = false;
    let mut i: usize = 0;
    while i < chars.len()
        invariant
            i <= chars.len(),
            chars@ == s@,
            out@ == upper_pieces(s@, i as nat).flatten(),
            i > 0 ==> after_upper == char_is_uppercase(s@[i - 1]),
        decreases chars.len() - i,
    {
        let c = chars[i];
        let upper = c.is_uppercase();
        if upper && i > 0 && !after_upper {
            out.push('_');
        }
        out.push(c.to_ascii_uppercase());
        proof {
            let before = upper_pieces(s@, i as nat);
            assert(upper_pieces(s@, (i + 1) as nat) =~= before.push(upper_piece(s@, i as int)));
            before.lemma_flatten_push(upper_piece(s@, i as int));
        }
        after_upper = upper;
        i += 1;
    }
    out
}

/// `s` in lower snake case.
pub fn to_lower_snake_case(s: &str) -> (out: String)
    ensures
        out@ == lower_snake(s@),
{
    let chars = chars_of(s);
    let mut out = String::new();
    let mut after_upper = false;
    let mut i: usize = 0;
    while i < chars.len()
        invariant
            i <= chars.len(),
            chars@ == s@,
            out@ == lower_pieces(s@, i as nat).flatten(),
            i > 0 ==> after_upper == char_is_uppercase(s@[i - 1]),
        decreases chars.len() - i,
    {
        let c = chars[i];
        let upper = c.is_uppercase();
        if upper {
            if i > 0 && !after_upper {
                out.push('_');
            }
            out.push(c.to_ascii_lowercase());
        } else {
            out.push(c);
        }
        proof {
            let before = lower_pieces(s@, i as nat);
            assert(lower_pieces(s@, (i + 1) as nat) =~= before.push(lower_piece(s@, i as int)));
            before.lemma_flatten_push(lower_piece(s@, i as int));
        }
        after_upper = upper;
        i += 1;
    }
    out
}

/// The key under which `s` is looked up.
pub fn normalize_color_name(s: &str) -> (key: String)
    ensures
        key@ == lookup_key(s@),
{
    let chars = chars_of(s);
    let mut key = String::new();
    let mut i: usize = 0;
    while i < chars.len()
        invariant
            i <= chars.len(),
            chars@ == s@,
            key@ == lookup_key(s@.take(i as int)),
        decreases chars.len() - i,
    {
        let c = chars[i];
        if c.is_alphanumeric() {
            key.push(c.to_ascii_lowercase());
        }
        proof {
            let before = s@.take(i as int);
            assert(s@.take(i + 1) =~= before.push(c));
            before.lemma_filter_push(c, |c: char| char_is_alphanumeric(c));
            assert(key@ =~= lookup_key(s@.take(i + 1)));
        }
        i += 1;
    }
    proof {
        assert(s@.take(i as int) =~= s@);
    }
    key
}

} // verus!
