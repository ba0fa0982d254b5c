//! The input builder: a configuration of prompt text, decorations, an
//! optional default value and an optional validator, accumulated through
//! consuming setters.

use vstd::prelude::*;
use vstd::string::StringExecFns;

verus! {

/// An input builder.
///
/// The configuration for one acquisition: what to show, what to fall back to
/// when the user submits an empty line, and which parsed values to accept.
/// `F` is the type of the validator; a builder made by [`input`] or
/// [`prompt`] carries none.
pub struct Input<T, F> {
    pub prompt: Option<String>,
    pub prefix: Option<String>,
    pub suffix: Option<String>,
    pub default: Option<T>,
    pub validator: Option<F>,
}

/// The characters of an optional text, nothing for an absent one.
pub open spec fn opt_text(o: Option<String>) -> Seq<char> {
    match o {
        Option::Some(s) => s@,
        Option::None => Seq::empty(),
    }
}

impl<T, F> Input<T, F> {
    /// The prompt actually shown: prefix, prompt and suffix joined, and
    /// nothing at all while no prompt text is set.
    pub open spec fn composed(&self) -> Option<Seq<char>> {
        match self.prompt {
            Option::Some(p) => Option::Some(opt_text(self.prefix) + p@ + opt_text(self.suffix)),
            Option::None => Option::None,
        }
    }

    /// Construct a new empty `Input`.
    pub fn new() -> (r: Self)
        ensures
            r.prompt is None,
            r.prefix is None,
            r.suffix is None,
            r.default is None,
            r.validator is None,
    {
        Input { prompt: None, prefix: None, suffix: None, default: None, validator: None }
    }

    /// Set the prompt to display before waiting for user input, replacing any
    /// prior one.
    pub fn prompt(self, text: &str) -> (r: Self)
        ensures
            r.prompt matches Some(p) && p@ == text@,
            r.prefix == self.prefix,
            r.suffix == self.suffix,
            r.default == self.default,
            r.validator == self.validator,
    {
        Input { prompt: Some(text.to_owned()), ..self }
    }

    /// Set the prompt prefix, replacing any prior one.
    pub fn prefix(self, text: &str) -> (r: Self)
        ensures
            r.prefix matches Some(p) && p@ == text@,
            r.prompt == self.prompt,
            r.suffix == self.suffix,
            r.default == self.default,
            r.validator == self.validator,
    {
        Input { prefix: Some(text.to_owned()), ..self }
    }

    /// Set the prompt suffix, replacing any prior one.
    pub fn suffix(self, text: &str) -> (r: Self)
        ensures
            r.suffix matches Some(p) && p@ == text@,
            r.prompt == self.prompt,
            r.prefix == self.prefix,
            r.default == self.default,
            r.validator == self.validator,
    {
        Input { suffix: Some(text.to_owned()), ..self }
    }

    /// Set the default value, returned when the user submits an empty line.
    pub fn default(self, value: T) -> (r: Self)
        ensures
            r.default == Some(value),
            r.prompt == self.prompt,
            r.prefix == self.prefix,
            r.suffix == self.suffix,
            r.validator == self.validator,
    {
        Input { default: Some(value), ..self }
    }

    /// Attach a validator, discarding any prior one: a parsed value is only
    /// returned once the validator accepts it.
    pub fn matches<G>(self, validator: G) -> (r: Input<T, G>)
        ensures
            r.validator == Some(validator),
            r.prompt == self.prompt,
            r.prefix == self.prefix,
            r.suffix == self.suffix,
            r.default == self.default,
    {
        Input {
            prompt: self.prompt,
            prefix: self.prefix,
            suffix: self.suffix,
            default: self.default,
            validator: Some(validator),
        }
    }

    /// The composed prompt text: prefix, prompt and suffix in that order, and
    /// none while no prompt text is configured.
    pub fn composed_prompt(&self) -> (r: Option<String>)
        ensures
            match r {
                Option::Some(c) => self.composed() == Option::Some(c@),
                Option::None => self.composed() is None,
            },
    {
        match &self.prompt {
            None => None,
            Some(p) => {
                let mut out = String::new();
                if let Some(pre) = &self.prefix {
                    out.append(pre.as_str());
                }
                out.append(p.as_str());
                if let Some(suf) = &self.suffix {
                    out.append(suf.as_str());
                }
                proof {
                    assert(out@ =~= opt_text(self.prefix) + self.prompt->0@ + opt_text(
                        self.suffix,
                    ));
                }
                Some(out)
            },
        }
    }
}

// Never stored: it only pins the validator slot's type in `input`.
fn accept_any<T>(_value: &T) -> (b: bool)
    ensures
        b,
{
    true
}

/// Returns a new empty `Input`, with the validator slot typed but empty.
pub fn input<T>() -> (r: Input<T, impl Fn(&T) -> bool>)
    ensures
        r.prompt is None,
        r.prefix is None,
        r.suffix is None,
        r.default is None,
        r.validator is None,
{
    let mut cfg = Input {
        prompt: None,
        prefix: None,
        suffix: None,
        default: None,
        validator: Some(accept_any::<T>),
    };
    cfg.validator = None;
    cfg
}

/// Returns an `Input` that shows the given prompt text.
pub fn prompt<T>(text: &str) -> (r: Input<T, impl Fn(&T) -> bool>)
    ensures
        r.prompt matches Some(p) && p@ == text@,
        r.prefix is None,
        r.suffix is None,
        r.default is None,
        r.validator is None,
{
    input::<T>().prompt(text)
}

} // verus!
