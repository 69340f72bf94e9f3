//! Runtime substitution of positional arguments into a template.
//!
//! A template is scanned left to right; each occurrence of the
//! placeholder `{}` takes the next argument, every other character is
//! copied verbatim. Rendering succeeds exactly when the number of
//! placeholders equals the number of arguments, so a mismatch is
//! visible to the caller instead of producing mis-formatted output.

use vstd::prelude::*;

verus! {

/// How many placeholders a template holds, counted by the same left
/// to right scan that rendering uses: at `{}` the scan consumes both
/// characters, anywhere else it moves on by one.
pub open spec fn template_arity(t: Seq<char>) -> nat
    decreases t.len(),
{
    if t.len() >= 2 && t[0] == '{' && t[1] == '}' {
        1 + template_arity(t.skip(2))
    } else if t.len() > 0 {
        template_arity(t.skip(1))
    } else {
        0
    }
}

/// The text a template renders to: each placeholder `{}` replaced, in
/// order, by the next argument, every other character kept verbatim.
/// Meaningful when the arguments number exactly `template_arity(t)`.
pub open spec fn rendered(t: Seq<char>, args: Seq<Seq<char>>) -> Seq<char>
    decreases t.len(),
{
    if t.len() >= 2 && t[0] == '{' && t[1] == '}' {
        args[0] + rendered(t.skip(2), args.skip(1))
    } else if t.len() > 0 {
        seq![t[0]] + rendered(t.skip(1), args)
    } else {
        Seq::empty()
    }
}

/// Substitute the arguments into the template. Returns the rendered
/// text exactly when the argument count matches the placeholder
/// count, and `None` on any mismatch.
pub fn render_template(template: &str, args: &Vec<String>) -> (r: Option<String>)
    ensures
        r is Some <==> template_arity(template@) == args@.len(),
        r matches Some(out) ==> out@ == rendered(
            template@,
            args@.map_values(|a: String| a@),
        ),
{
    let ghost sargs: Seq<Seq<char>> = args@.map_values(|a: String| a@);
    let len = template.unicode_len();
    let mut out = String::new();
    let mut i: usize = 0;
    let mut j: usize = 0;
    proof {
        assert(template@.skip(0) =~= template@);
        assert(sargs.skip(0) =~= sargs);
        assert(out@ + rendered(template@, sargs) =~= rendered(template@, sargs));
    }
    while i < len
        invariant
            len == template@.len(),
            i <= len,
            j <= args.len(),
            sargs == args@.map_values(|a: String| a@),
            sargs.len() == args@.len(),
            template_arity(template@) == j + template_arity(template@.skip(i as int)),
            rendered(template@, sargs) == out@ + rendered(
                template@.skip(i as int),
                sargs.skip(j as int),
            ),
        decreases len - i,
    {
        let ghost rest = template@.skip(i as int);
        let c = template.get_char(i);
        proof {
            assert(rest[0] == template@[i as int]);
        }
        if c == '{' && i + 1 < len && template.get_char(i + 1) == '}' {
            proof {
                assert(rest[1] == template@[i as int + 1]);
                assert(rest.len() >= 2 && rest[0] == '{' && rest[1] == '}');
                assert(rest.skip(2) =~= template@.skip(i as int + 2));
            }
            if j < args.len() {
                proof {
                    assert(sargs.skip(j as int)[0] == sargs[j as int]);
                    assert(sargs.skip(j as int).skip(1) =~= sargs.skip(j as int + 1));
                }
                let arg = &args[j];
                out.append(arg.as_str());
                j = j + 1;
            } else {
                proof {
                    assert(template_arity(rest) >= 1);
                }
                return None;
            }
            i = i + 2;
        } else {
            proof {
                assert(!(rest.len() >= 2 && rest[0] == '{' && rest[1] == '}'));
                assert(rest.skip(1) =~= template@.skip(i as int + 1));
                assert(seq![rest[0]] =~= template@.subrange(i as int, i as int + 1));
            }
            let piece = template.substring_char(i, i + 1);
            out.append(piece);
            i = i + 1;
        }
    }
    proof {
        assert(template@.skip(len as int) =~= Seq::<char>::empty());
    }
    if j == args.len() {
        proof {
            assert(out@ =~= rendered(template@, sargs));
        }
        Some(out)
    } else {
        None
    }
}

} // verus!
