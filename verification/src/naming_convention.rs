//! Plain string case conversion between snake case and camel case,
//! used when mapping struct field names to store field names.
use vstd::prelude::*;
use vstd::string::StrSliceExecFns;

use crate::render::push_char;

verus! {

/// The uppercase form of an ASCII lowercase letter; every other
/// character is unchanged.
pub open spec fn spec_to_ascii_upper(c: char) -> char {
    if 'a' <= c && c <= 'z' {
        ((c as u8) - 32) as char
    } else {
        c
    }
}

/// The lowercase form of an ASCII uppercase letter; every other
/// character is unchanged.
pub open spec fn spec_to_ascii_lower(c: char) -> char {
    if 'A' <= c && c <= 'Z' {
        ((c as u8) + 32) as char
    } else {
        c
    }
}

/// Snake case to camel case: an underscore is dropped and capitalizes
/// the character after it. `capitalize` says whether the next
/// character starts a new word.
pub open spec fn spec_snake_to_camel(s: Seq<char>, capitalize: bool) -> Seq<char>
    decreases s.len(),
{
    if s.len() == 0 {
        Seq::empty()
    } else if s[0] == '_' {
        spec_snake_to_camel(s.drop_first(), true)
    } else if capitalize {
        seq![spec_to_ascii_upper(s[0])] + spec_snake_to_camel(s.drop_first(), false)
    } else {
        seq![s[0]] + spec_snake_to_camel(s.drop_first(), false)
    }
}

/// Camel case to snake case: an ASCII uppercase letter is lowered, and
/// preceded by an underscore everywhere but at the very front. `first`
/// says whether the next character is the very first one.
pub open spec fn spec_camel_to_snake(s: Seq<char>, first: bool) -> Seq<char>
    decreases s.len(),
{
    if s.len() == 0 {
        Seq::empty()
    } else {
        (if 'A' <= s[0] && s[0] <= 'Z' {
            (if first {
                Seq::empty()
            } else {
                seq!['_']
            }) + seq![spec_to_ascii_lower(s[0])]
        } else {
            seq![s[0]]
        }) + spec_camel_to_snake(s.drop_first(), false)
    }
}

/// Converts a snake-case name to its camel-case form.
pub fn snake_case_to_camel(var_name: &str) -> (r: String)
    ensures
        r@ == spec_snake_to_camel(var_name@, false),
{
    let n = var_name.unicode_len();
    let mut result = String::new();
    let mut capitalize_next = false;
    let mut i: usize = 0;
    proof {
        assert(var_name@.skip(0) =~= var_name@);
    }
    while i < n
        invariant
            n == var_name@.len(),
            i <= n,
            spec_snake_to_camel(var_name@, false) == result@ + spec_snake_to_camel(
                var_name@.skip(i as int),
                capitalize_next,
            ),
        decreases n - i,
    {
        let c = var_name.get_char(i);
        proof {
            assert(var_name@.skip(i as int)[0] == var_name@[i as int]);
            assert(var_name@.skip(i as int).drop_first() =~= var_name@.skip(i + 1));
        }
        if c == '_' {
            capitalize_next = true;
        } else if capitalize_next {
            let upper = if 'a' <= c && c <= 'z' {
                ((c as u8) - 32) as char
            } else {
                c
            };
            push_char(&mut result, upper);
            capitalize_next = false;
        } else {
            push_char(&mut result, c);
        }
        proof {
            assert(spec_snake_to_camel(var_name@, false) =~= result@ + spec_snake_to_camel(
                var_name@.skip(i + 1),
                capitalize_next,
            ));
        }
        i = i + 1;
    }
    proof {
        assert(spec_snake_to_camel(var_name@.skip(n as int), capitalize_next)
            =~= Seq::<char>::empty());
        assert(spec_snake_to_camel(var_name@, false) =~= result@);
    }
    result
}

/// Converts a camel-case name to its snake-case form.
pub fn camel_to_snake_case(var_name: &str) -> (r: String)
    ensures
        r@ == spec_camel_to_snake(var_name@, true),
{
    let n = var_name.unicode_len();
    let mut result = String::new();
    let mut i: usize = 0;
    proof {
        assert(var_name@.skip(0) =~= var_name@);
    }
    while i < n
        invariant
            n == var_name@.len(),
            i <= n,
            spec_camel_to_snake(var_name@, true) == result@ + spec_camel_to_snake(
                var_name@.skip(i as int),
                i == 0,
            ),
        decreases n - i,
    {
        let c = var_name.get_char(i);
        proof {
            assert(var_name@.skip(i as int)[0] == var_name@[i as int]);
            assert(var_name@.skip(i as int).drop_first() =~= var_name@.skip(i + 1));
        }
        if 'A' <= c && c <= 'Z' {
            if i > 0 {
                push_char(&mut result, '_');
            }
            let lower = ((c as u8) + 32) as char;
            push_char(&mut result, lower);
        } else {
            push_char(&mut result, c);
        }
        proof {
            assert(spec_camel_to_snake(var_name@, true) =~= result@ + spec_camel_to_snake(
                var_name@.skip(i + 1),
                false,
            ));
        }
        i = i + 1;
    }
    proof {
        assert(spec_camel_to_snake(var_name@.skip(n as int), n == 0) =~= Seq::<char>::empty());
        assert(spec_camel_to_snake(var_name@, true) =~= result@);
    }
    result
}

} // verus!
