//! The yes/no answer rules behind the confirmation helper: which texts count
//! as an answer at all, and which of them count as a yes.

use vstd::prelude::*;
use vstd::string::StrSliceExecFns;

use crate::builder::Input;
use crate::builder::prompt;
use crate::text::trim_text;
use crate::text::trimmed;

verus! {

pub open spec fn ci_y(c: char) -> bool {
    c == 'y' || c == 'Y'
}

pub open spec fn ci_e(c: char) -> bool {
    c == 'e' || c == 'E'
}

pub open spec fn ci_s(c: char) -> bool {
    c == 's' || c == 'S'
}

pub open spec fn ci_n(c: char) -> bool {
    c == 'n' || c == 'N'
}

pub open spec fn ci_o(c: char) -> bool {
    c == 'o' || c == 'O'
}

/// `s` reads as a yes: `y` or `yes`, in any casing.
pub open spec fn yes_text(s: Seq<char>) -> bool {
    ||| (s.len() == 1 && ci_y(s[0]))
    ||| (s.len() == 3 && ci_y(s[0]) && ci_e(s[1]) && ci_s(s[2]))
}

/// `s` reads as a no: `n` or `no`, in any casing.
pub open spec fn no_text(s: Seq<char>) -> bool {
    ||| (s.len() == 1 && ci_n(s[0]))
    ||| (s.len() == 2 && ci_n(s[0]) && ci_o(s[1]))
}

/// `s`, once trimmed, reads as an answer either way: one of `y`, `yes`,
/// `n`, `no`, in any casing.
pub open spec fn yes_no_answer(s: Seq<char>) -> bool {
    yes_text(trimmed(s)) || no_text(trimmed(s))
}

/// Decides whether `s` reads as a yes, as `yes_text` describes.
pub fn is_yes(s: &str) -> (b: bool)
    ensures
        b == yes_text(s@),
{
    let n: usize = s.unicode_len();
    if n == 1 {
        let c0 = s.get_char(0);
        c0 == 'y' || c0 == 'Y'
    } else if n == 3 {
        let c0 = s.get_char(0);
        let c1 = s.get_char(1);
        let c2 = s.get_char(2);
        (c0 == 'y' || c0 == 'Y') && (c1 == 'e' || c1 == 'E') && (c2 == 's' || c2 == 'S')
    } else {
        false
    }
}

/// Decides whether `s`, once trimmed, reads as an answer either way, as
/// `yes_no_answer` describes.
pub fn is_yes_or_no(s: &str) -> (b: bool)
    ensures
        b == yes_no_answer(s@),
{
    let t = trim_text(s);
    if is_yes(t) {
        true
    } else {
        let n: usize = t.unicode_len();
        if n == 1 {
            let c0 = t.get_char(0);
            c0 == 'n' || c0 == 'N'
        } else if n == 2 {
            let c0 = t.get_char(0);
            let c1 = t.get_char(1);
            (c0 == 'n' || c0 == 'N') && (c1 == 'o' || c1 == 'O')
        } else {
            false
        }
    }
}

fn answer_in_range(s: &String) -> (b: bool)
    ensures
        b == yes_no_answer(s@),
{
    is_yes_or_no(s.as_str())
}

/// The configuration the confirmation helper asks with: the given prompt
/// text, a ` [y/N] ` suffix, a default answer of `n` for an empty line, and
/// a validator that only lets a yes or a no through.
pub fn confirm_config(text: &str) -> (r: Input<String, impl Fn(&String) -> bool>)
    ensures
        r.prompt matches Some(p) && p@ == text@,
        r.prefix is None,
        r.suffix matches Some(s) && s@ == " [y/N] "@,
        r.default matches Some(d) && d@ == "n"@,
        r.validator is Some,
        forall|v: &String| #[trigger] call_requires(r.validator->0, (v,)),
        forall|v: &String, b: bool|
            #[trigger] call_ensures(r.validator->0, (v,), b) ==> b == yes_no_answer(v@),
{
    prompt::<String>(text).suffix(" [y/N] ").default("n".to_owned()).matches(answer_in_range)
}

} // verus!
