use vstd::prelude::*;
use vstd::string::StrSliceExecFns;

verus! {

/// The ASCII-uppercase counterpart of `c`: an ASCII lowercase letter maps to
/// its uppercase letter, every other character is unchanged.
pub open spec fn ascii_upper(c: char) -> char {
    if 'a' <= c && c <= 'z' {
        (c as int - 32) as char
    } else {
        c
    }
}

/// The ASCII-lowercase counterpart of `c`: an ASCII uppercase letter maps to
/// its lowercase letter, every other character is unchanged.
pub open spec fn ascii_lower(c: char) -> char {
    if 'A' <= c && c <= 'Z' {
        (c as int + 32) as char
    } else {
        c
    }
}

/// Whether `c` has the Unicode derived property `Uppercase`, as
/// `char::is_uppercase` decides it.
pub uninterp spec fn is_unicode_uppercase(c: char) -> bool;

/// Whether `c` counts as an uppercase character: among ASCII exactly the
/// letters 'A' to 'Z', beyond ASCII whatever has the Unicode derived
/// property `Uppercase`.
pub open spec fn uppercase_char(c: char) -> bool {
    if (c as int) < 128 {
        'A' <= c && c <= 'Z'
    } else {
        is_unicode_uppercase(c)
    }
}

/// Relies on char::to_ascii_uppercase: an ASCII lowercase letter becomes its
/// uppercase counterpart, any other character is returned unchanged.
pub assume_specification[ char::to_ascii_uppercase ](c: &char) -> (r: char)
    ensures
        r == ascii_upper(*c),
;

/// Relies on char::to_ascii_lowercase: an ASCII uppercase letter becomes its
/// lowercase counterpart, any other character is returned unchanged.
pub assume_specification[ char::to_ascii_lowercase ](c: &char) -> (r: char)
    ensures
        r == ascii_lower(*c),
;

/// Relies on char::is_uppercase: whether the character has the Unicode
/// derived property `Uppercase`; among ASCII characters, exactly the letters
/// 'A' to 'Z' have it.
pub assume_specification[ char::is_uppercase ](c: char) -> (r: bool)
    ensures
        r == is_unicode_uppercase(c),
        (c as int) < 128 ==> r == ('A' <= c && c <= 'Z'),
;

/// Relies on String::push: appends one character to the end of the string.
pub assume_specification[ String::push ](s: &mut String, c: char)
    ensures
        final(s)@ == old(s)@.push(c),
;

/// `s` rewritten in dromedar case: underscores are dropped, and the first
/// character of each underscore-separated word is ASCII-uppercased.
pub open spec fn dromedar_case_of(s: Seq<char>) -> Seq<char>
    decreases s.len(),
{
    if s.len() == 0 {
        Seq::<char>::empty()
    } else {
        dromedar_case_of(s.drop_last()) + (if s.last() == '_' {
            Seq::<char>::empty()
        } else if s.len() == 1 || s[s.len() - 2] == '_' {
            seq![ascii_upper(s.last())]
        } else {
            seq![s.last()]
        })
    }
}

/// `s` rewritten in snake case: an underscore is inserted before every
/// uppercase character except a leading one, and every character is
/// ASCII-lowercased.
pub open spec fn snake_case_of(s: Seq<char>) -> Seq<char>
    decreases s.len(),
{
    if s.len() == 0 {
        Seq::<char>::empty()
    } else {
        snake_case_of(s.drop_last()) + (if uppercase_char(s.last()) && s.len() != 1 {
            seq!['_', ascii_lower(s.last())]
        } else {
            seq![ascii_lower(s.last())]
        })
    }
}

/// `s` rewritten in upper snake case: snake case, then every character
/// ASCII-uppercased.
pub open spec fn upper_snake_case_of(s: Seq<char>) -> Seq<char> {
    snake_case_of(s).map_values(|c: char| ascii_upper(c))
}

/// An ASCII lowercase letter.
pub open spec fn is_ascii_lower(c: char) -> bool {
    'a' <= c && c <= 'z'
}

/// An ASCII digit.
pub open spec fn is_ascii_digit(c: char) -> bool {
    '0' <= c && c <= '9'
}

/// A snake-case identifier: non-empty words of ASCII lowercase letters and
/// digits, each word starting with a letter, joined by single underscores.
pub open spec fn snake_identifier(s: Seq<char>) -> bool {
    &&& s.len() > 0
    &&& is_ascii_lower(s[0])
    &&& forall|i: int|
        0 <= i < s.len() ==> is_ascii_lower(#[trigger] s[i]) || is_ascii_digit(s[i]) || s[i]
            == '_'
    &&& forall|i: int|
        0 <= i < s.len() && (#[trigger] s[i]) == '_' ==> i + 1 < s.len() && is_ascii_lower(
            s[i + 1],
        )
}

/// Law: rewriting a snake-case identifier in dromedar case and back in
/// snake case is the identity. Every underscore dropped by the first
/// rewriting is reinserted by the second, in front of the uppercased word
/// start, and every character comes back in its original case.
pub proof fn lemma_snake_dromedar_round_trip(s: Seq<char>)
    requires
        snake_identifier(s),
    ensures
        snake_case_of(dromedar_case_of(s)) == s,
    decreases s.len(),
{
    reveal_with_fuel(dromedar_case_of, 2);
    reveal_with_fuel(snake_case_of, 2);
    let c = s.last();
    assert(is_ascii_lower(c) || is_ascii_digit(c) || c == '_');
    assert(c != '_');
    if s.len() == 1 {
        // A single letter: the word start is uppercased and lowercased back.
        let u = ascii_upper(c);
        assert(s.drop_last() =~= Seq::<char>::empty());
        assert(dromedar_case_of(s) =~= seq![u]);
        assert(seq![u].drop_last() =~= Seq::<char>::empty());
        assert(snake_case_of(seq![u]) =~= seq![ascii_lower(u)]);
        assert(ascii_lower(u) == c);
        assert(snake_case_of(dromedar_case_of(s)) =~= s);
    } else if s[s.len() - 2] == '_' {
        // A word start: the underscore is dropped on the way to dromedar
        // case and reinserted, in front of the lowercased letter, on the way
        // back.
        assert(is_ascii_lower(c));
        assert(s[0] != '_');
        assert(s.len() >= 3);
        let s2 = s.drop_last().drop_last();
        assert(snake_identifier(s2)) by {
            assert(s2[0] == s[0]);
            assert forall|i: int|
                0 <= i < s2.len() implies is_ascii_lower(#[trigger] s2[i]) || is_ascii_digit(
                s2[i],
            ) || s2[i] == '_' by {
                assert(s2[i] == s[i]);
            }
            assert forall|i: int|
                0 <= i < s2.len() && (#[trigger] s2[i]) == '_' implies i + 1 < s2.len()
                && is_ascii_lower(s2[i + 1]) by {
                assert(s[i] == '_');
                assert(is_ascii_lower(s[i + 1]));
                assert(i + 1 != s.len() - 2);
                assert(s2[i + 1] == s[i + 1]);
            }
        }
        lemma_snake_dromedar_round_trip(s2);
        let d2 = dromedar_case_of(s2);
        assert(s.drop_last().last() == '_');
        assert(s.drop_last().drop_last() =~= s2);
        assert(dromedar_case_of(s.drop_last()) =~= d2);
        let u = ascii_upper(c);
        assert(dromedar_case_of(s) =~= d2.push(u)) by {
            assert(dromedar_case_of(s) =~= dromedar_case_of(s.drop_last()) + seq![u]);
        }
        // The shorter identifier rewrites back to the non-empty s2, so its
        // dromedar form is itself non-empty and the word start is not the
        // leading character.
        assert(d2.len() > 0) by {
            if d2.len() == 0 {
                assert(d2 =~= Seq::<char>::empty());
                assert(snake_case_of(d2).len() == 0);
            }
        }
        assert(d2.push(u).drop_last() =~= d2);
        assert(d2.push(u).last() == u);
        assert(uppercase_char(u));
        assert(d2.push(u).len() != 1);
        assert(snake_case_of(d2.push(u)) =~= snake_case_of(d2) + seq!['_', ascii_lower(u)]);
        assert(ascii_lower(u) == c);
        assert(snake_case_of(dromedar_case_of(s)) =~= s2 + seq!['_', c]);
        assert(s2 + seq!['_', c] =~= s);
    } else {
        // An ordinary character: it passes through both rewritings
        // unchanged.
        let s1 = s.drop_last();
        assert(snake_identifier(s1)) by {
            assert(s1[0] == s[0]);
            assert forall|i: int|
                0 <= i < s1.len() implies is_ascii_lower(#[trigger] s1[i]) || is_ascii_digit(
                s1[i],
            ) || s1[i] == '_' by {
                assert(s1[i] == s[i]);
            }
            assert forall|i: int|
                0 <= i < s1.len() && (#[trigger] s1[i]) == '_' implies i + 1 < s1.len()
                && is_ascii_lower(s1[i + 1]) by {
                assert(s[i] == '_');
                assert(is_ascii_lower(s[i + 1]));
                assert(i != s.len() - 2);
                assert(s1[i + 1] == s[i + 1]);
            }
        }
        lemma_snake_dromedar_round_trip(s1);
        let d1 = dromedar_case_of(s1);
        assert(dromedar_case_of(s) =~= d1.push(c)) by {
            assert(dromedar_case_of(s) =~= dromedar_case_of(s.drop_last()) + seq![c]);
        }
        assert(d1.push(c).drop_last() =~= d1);
        assert(d1.push(c).last() == c);
        assert(!uppercase_char(c));
        assert(snake_case_of(d1.push(c)) =~= snake_case_of(d1) + seq![ascii_lower(c)]);
        assert(ascii_lower(c) == c);
        assert(snake_case_of(dromedar_case_of(s)) =~= s1 + seq![c]);
        assert(s1 + seq![c] =~= s);
    }
}

/// Rewrite an underscore-separated identifier in dromedar case: underscores
/// dropped, each word's first character uppercased.
pub fn to_dromedar_case(s: &str) -> (r: String)
    ensures
        r@ == dromedar_case_of(s@),
{
    let mut result = String::new();
    let len = s.unicode_len();
    let mut i: usize = 0;
    while i < len
        invariant
            i <= len,
            len == s@.len(),
            result@ == dromedar_case_of(s@.take(i as int)),
        decreases len - i,
    {
        let ch = s.get_char(i);
        if !(ch == '_') {
            if i == 0 || s.get_char(i - 1) == '_' {
                result.push(ch.to_ascii_uppercase());
            } else {
                result.push(ch);
            }
        }
        proof {
            assert(s@.take(i as int + 1).drop_last() =~= s@.take(i as int));
            assert(s@.take(i as int + 1).last() == s@[i as int]);
            assert(result@ =~= dromedar_case_of(s@.take(i as int + 1)));
        }
        i = i + 1;
    }
    proof {
        assert(s@.take(len as int) =~= s@);
    }
    result
}

/// Rewrite a dromedar-case identifier in snake case: an underscore before
/// every non-leading uppercase character, everything lowercased.
pub fn to_snake_case(s: &str) -> (r: String)
    ensures
        r@ == snake_case_of(s@),
{
    let mut result = String::new();
    let len = s.unicode_len();
    let mut i: usize = 0;
    while i < len
        invariant
            i <= len,
            len == s@.len(),
            result@ == snake_case_of(s@.take(i as int)),
        decreases len - i,
    {
        let ch = s.get_char(i);
        if ch.is_uppercase() && i != 0 {
            result.push('_');
        }
        result.push(ch.to_ascii_lowercase());
        proof {
            assert(s@.take(i as int + 1).drop_last() =~= s@.take(i as int));
            assert(s@.take(i as int + 1).last() == s@[i as int]);
            assert(result@ =~= snake_case_of(s@.take(i as int + 1)));
        }
        i = i + 1;
    }
    proof {
        assert(s@.take(len as int) =~= s@);
    }
    result
}

/// Rewrite a dromedar-case identifier in upper snake case.
pub fn to_upper_snake_case(s: &str) -> (r: String)
    ensures
        r@ == upper_snake_case_of(s@),
{
    let snake = to_snake_case(s);
    let mut result = String::new();
    let len = snake.as_str().unicode_len();
    let mut i: usize = 0;
    while i < len
        invariant
            i <= len,
            len == snake@.len(),
            result@ == snake@.take(i as int).map_values(|c: char| ascii_upper(c)),
        decreases len - i,
    {
        let ch = snake.as_str().get_char(i);
        result.push(ch.to_ascii_uppercase());
        proof {
            assert(result@ =~= snake@.take(i as int + 1).map_values(
                |c: char| ascii_upper(c),
            ));
        }
        i = i + 1;
    }
    proof {
        assert(snake@.take(len as int) =~= snake@);
    }
    result
}

} // verus!
