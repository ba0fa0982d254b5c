//! Resolving lines of input against a configuration: trim, fall back to the
//! default on an empty line, parse, validate, and describe the advisory
//! message of every rejected attempt.
//!
//! Parsing is the caller's: a parser is any function from the trimmed text
//! to either a value or the text of a parse failure, and every outcome here
//! is tied to what that parser can return.

use vstd::prelude::*;
use vstd::string::StringExecFns;

use crate::builder::Input;
use crate::text::all_space;
use crate::text::lemma_all_space_trims_empty;
use crate::text::lemma_trim_of_padded;
use crate::text::trim_text;
use crate::text::trimmed;

verus! {

/// Why a line was not resolved: an empty line with no default to fall back
/// to retries silently; a line that failed to parse or was rejected by the
/// validator retries with an advisory message.
pub enum Feedback {
    Silent,
    BadParse(String),
    BadValue,
}

/// What one line of input resolves to: a value, or the configuration handed
/// back for another attempt together with the feedback on this one.
pub enum Outcome<T, F> {
    Done(T),
    Retry(Input<T, F>, Feedback),
}

/// What a finite queue of input lines resolves to: a value after `used`
/// lines, or the configuration handed back once every line was consumed.
/// Either way, `notes` holds the advisory error lines in order.
pub enum ScriptEnd<T, F> {
    Resolved { value: T, used: usize, notes: Vec<String> },
    Exhausted { pending: Input<T, F>, notes: Vec<String> },
}

/// The validator, if one is attached, can be asked about every value.
pub open spec fn validator_callable<T, F: Fn(&T) -> bool>(cfg: Input<T, F>) -> bool {
    cfg.validator matches Some(f) ==> forall|v: &T| #[trigger] call_requires(f, (v,))
}

/// The attached validator can accept `v`: it either is absent or may return
/// true on `v`.
pub open spec fn accepts<T, F: Fn(&T) -> bool>(cfg: Input<T, F>, v: T) -> bool {
    match cfg.validator {
        Option::Some(f) => call_ensures(f, (&v,), true),
        Option::None => true,
    }
}

/// The attached validator may reject the value `v`.
pub open spec fn rejects<T, F: Fn(&T) -> bool>(cfg: Input<T, F>, v: T) -> bool {
    cfg.validator matches Some(f) && call_ensures(f, (&v,), false)
}

/// `value` is a result the configuration admits for the given line: the
/// default for a blank line, otherwise a value the parser can return for the
/// trimmed text and the validator (if any) accepts.
pub open spec fn done_step<T, F: Fn(&T) -> bool, P: Fn(&str) -> Result<T, String>>(
    cfg: Input<T, F>,
    parser: P,
    line: Seq<char>,
    value: T,
) -> bool {
    if trimmed(line).len() == 0 {
        cfg.default == Option::Some(value)
    } else {
        &&& (exists|t: &str|
            t@ == trimmed(line) && #[trigger] call_ensures(
                parser,
                (t,),
                Result::<T, String>::Ok(value),
            ))
        &&& accepts(cfg, value)
    }
}

/// `fb` is a rejection the configuration admits for the given line: a blank
/// line retries silently, and only when there is no default; a line with
/// visible text retries only when the parser can fail on it with the
/// reported message, or can yield a value the validator rejects.
pub open spec fn retry_step<T, F: Fn(&T) -> bool, P: Fn(&str) -> Result<T, String>>(
    cfg: Input<T, F>,
    parser: P,
    line: Seq<char>,
    fb: Feedback,
) -> bool {
    if trimmed(line).len() == 0 {
        cfg.default is None && fb == Feedback::Silent
    } else {
        ||| (exists|t: &str, e: String|
            t@ == trimmed(line) && #[trigger] call_ensures(
                parser,
                (t,),
                Result::<T, String>::Err(e),
            ) && fb == Feedback::BadParse(e))
        ||| ((exists|t: &str, v: T|
            t@ == trimmed(line) && #[trigger] call_ensures(parser, (t,), Result::<T, String>::Ok(v))
                && rejects(cfg, v)) && fb == Feedback::BadValue)
    }
}

/// Everything one call of `advance` promises of its result.
pub open spec fn advance_post<T, F: Fn(&T) -> bool, P: Fn(&str) -> Result<T, String>>(
    cfg: Input<T, F>,
    parser: P,
    line: Seq<char>,
    r: Outcome<T, F>,
) -> bool {
    match r {
        Outcome::Done(value) => done_step(cfg, parser, line, value),
        Outcome::Retry(back, fb) => back == cfg && retry_step(cfg, parser, line, fb),
    }
}

/// The advisory line printed for a piece of feedback, if any.
pub open spec fn spec_message(fb: Feedback) -> Option<Seq<char>> {
    match fb {
        Feedback::Silent => Option::None,
        Feedback::BadParse(e) => Option::Some("Error: "@ + e@),
        Feedback::BadValue => Option::Some("Error: invalid input"@),
    }
}

/// The advisory lines of a sequence of feedback, in order, silent retries
/// contributing none.
pub open spec fn spec_messages(fbs: Seq<Feedback>) -> Seq<Seq<char>>
    decreases fbs.len(),
{
    if fbs.len() == 0 {
        Seq::empty()
    } else {
        match spec_message(fbs.last()) {
            Option::None => spec_messages(fbs.drop_last()),
            Option::Some(m) => spec_messages(fbs.drop_last()).push(m),
        }
    }
}

/// The first `count` lines were each rejected as `fbs` records, and `notes`
/// holds exactly the advisory lines of those rejections.
pub open spec fn trace_matches<T, F: Fn(&T) -> bool, P: Fn(&str) -> Result<T, String>>(
    cfg: Input<T, F>,
    parser: P,
    lines: Seq<Seq<char>>,
    count: int,
    notes: Seq<Seq<char>>,
    fbs: Seq<Feedback>,
) -> bool {
    &&& fbs.len() == count
    &&& (forall|j: int| 0 <= j < count ==> retry_step(cfg, parser, lines[j], fbs[j]))
    &&& notes == spec_messages(fbs)
}

/// Some record of rejections ties the first `count` lines to `notes`.
pub open spec fn retries_noted<T, F: Fn(&T) -> bool, P: Fn(&str) -> Result<T, String>>(
    cfg: Input<T, F>,
    parser: P,
    lines: Seq<Seq<char>>,
    count: int,
    notes: Seq<Seq<char>>,
) -> bool {
    exists|fbs: Seq<Feedback>| trace_matches(cfg, parser, lines, count, notes, fbs)
}

/// The advisory line to print for a piece of feedback: none for a silent
/// retry, `Error: <parse failure>` for a failed parse, and the literal
/// `Error: invalid input` for a rejected value.
pub fn feedback_message(fb: &Feedback) -> (r: Option<String>)
    ensures
        match spec_message(*fb) {
            Option::Some(m) => r matches Some(s) && s@ == m,
            Option::None => r is None,
        },
{
    match fb {
        Feedback::Silent => None,
        Feedback::BadParse(e) => Some("Error: ".to_owned().concat(e.as_str())),
        Feedback::BadValue => Some("Error: invalid input".to_owned()),
    }
}

impl<T, F: Fn(&T) -> bool> Input<T, F> {
    /// Resolve the outcome of a parse attempt on a line with visible text:
    /// a parse failure retries with its message, a parsed value is returned
    /// once the validator (if any) accepts it and retries otherwise.
    pub fn resolve_parsed(self, parsed: Result<T, String>) -> (r: Outcome<T, F>)
        requires
            parsed matches Ok(v) ==> (self.validator matches Some(f) ==> call_requires(
                f,
                (&v,),
            )),
        ensures
            parsed matches Err(e) ==> r == Outcome::<T, F>::Retry(self, Feedback::BadParse(e)),
            parsed matches Ok(v) ==> match self.validator {
                Option::None => r == Outcome::<T, F>::Done(v),
                Option::Some(f) => {
                    ||| (call_ensures(f, (&v,), true) && r == Outcome::<T, F>::Done(v))
                    ||| (call_ensures(f, (&v,), false) && r == Outcome::<T, F>::Retry(
                        self,
                        Feedback::BadValue,
                    ))
                },
            },
    {
        match parsed {
            Err(e) => Outcome::Retry(self, Feedback::BadParse(e)),
            Ok(v) => {
                let ok = match &self.validator {
                    Some(f) => f(&v),
                    None => true,
                };
                if ok {
                    Outcome::Done(v)
                } else {
                    Outcome::Retry(self, Feedback::BadValue)
                }
            },
        }
    }

    /// Resolve one line of input: trim it, return the default on a blank
    /// line (the validator is not consulted), otherwise parse the trimmed
    /// text with the given parser and validate what it yields.
    pub fn advance<P: Fn(&str) -> Result<T, String>>(self, line: &str, parser: &P) -> (r: Outcome<
        T,
        F,
    >)
        requires
            validator_callable(self),
            forall|s: &str| #[trigger] call_requires(*parser, (s,)),
        ensures
            advance_post(self, *parser, line@, r),
    {
        let t = trim_text(line);
        if t.is_empty() {
            if self.default.is_some() {
                let d = self.default.unwrap();
                Outcome::Done(d)
            } else {
                Outcome::Retry(self, Feedback::Silent)
            }
        } else {
            let parsed = parser(t);
            let r = self.resolve_parsed(parsed);
            proof {
                if parsed is Ok {
                    let v = parsed->Ok_0;
                    if self.validator is Some && r == Outcome::<T, F>::Retry(
                        self,
                        Feedback::BadValue,
                    ) {
                        assert(t@ == trimmed(line@) && call_ensures(
                            *parser,
                            (t,),
                            Result::<T, String>::Ok(v),
                        ) && rejects(self, v));
                    } else {
                        assert(t@ == trimmed(line@) && call_ensures(
                            *parser,
                            (t,),
                            Result::<T, String>::Ok(v),
                        ));
                    }
                } else {
                    let e = parsed->Err_0;
                    assert(t@ == trimmed(line@) && call_ensures(
                        *parser,
                        (t,),
                        Result::<T, String>::Err(e),
                    ) && r == Outcome::<T, F>::Retry(self, Feedback::BadParse(e)));
                }
            }
            r
        }
    }

    /// Resolve a finite queue of lines in order, recording every advisory
    /// error line on the way, until one line yields a value or the queue is
    /// exhausted.
    pub fn resolve_script<P: Fn(&str) -> Result<T, String>>(
        self,
        lines: &Vec<String>,
        parser: &P,
    ) -> (r: ScriptEnd<T, F>)
        requires
            validator_callable(self),
            forall|s: &str| #[trigger] call_requires(*parser, (s,)),
        ensures
            match r {
                ScriptEnd::Resolved { value, used, notes } => {
                    &&& 1 <= used <= lines@.len()
                    &&& done_step(self, *parser, lines.deep_view()[used - 1], value)
                    &&& retries_noted(self, *parser, lines.deep_view(), used - 1, notes.deep_view())
                },
                ScriptEnd::Exhausted { pending, notes } => {
                    &&& pending == self
                    &&& retries_noted(
                        self,
                        *parser,
                        lines.deep_view(),
                        lines@.len() as int,
                        notes.deep_view(),
                    )
                },
            },
    {
        let mut cfg = self;
        let mut notes: Vec<String> = Vec::new();
        let ghost mut fbs: Seq<Feedback> = Seq::empty();
        let mut i: usize = 0;
        while i < lines.len()
            invariant
                cfg == self,
                validator_callable(self),
                forall|s: &str| #[trigger] call_requires(*parser, (s,)),
                i <= lines@.len(),
                fbs.len() == i as int,
                forall|j: int| 0 <= j < i ==> retry_step(self, *parser, lines.deep_view()[j], fbs[j]),
                notes.deep_view() == spec_messages(fbs),
            decreases lines@.len() - i,
        {
            let line: &String = &lines[i];
            match cfg.advance(line.as_str(), parser) {
                Outcome::Done(value) => {
                    proof {
                        assert(lines.deep_view()[i as int] == line@);
                        assert(trace_matches(
                            self,
                            *parser,
                            lines.deep_view(),
                            i as int,
                            notes.deep_view(),
                            fbs,
                        ));
                    }
                    return ScriptEnd::Resolved { value, used: i + 1, notes };
                },
                Outcome::Retry(back, fb) => {
                    cfg = back;
                    let ghost prev_notes = notes.deep_view();
                    let note = feedback_message(&fb);
                    if let Some(m) = note {
                        notes.push(m);
                    }
                    proof {
                        assert(lines.deep_view()[i as int] == line@);
                        lemma_messages_push(fbs, fb);
                        if spec_message(fb) is Some {
                            assert(notes.deep_view() =~= prev_notes.push(spec_message(fb)->0));
                        }
                        fbs = fbs.push(fb);
                        assert(forall|j: int|
                            0 <= j < i + 1 ==> retry_step(
                                self,
                                *parser,
                                lines.deep_view()[j],
                                fbs[j],
                            ));
                    }
                    i = i + 1;
                },
            }
        }
        proof {
            assert(trace_matches(
                self,
                *parser,
                lines.deep_view(),
                lines@.len() as int,
                notes.deep_view(),
                fbs,
            ));
        }
        ScriptEnd::Exhausted { pending: cfg, notes }
    }
}

proof fn lemma_messages_push(fbs: Seq<Feedback>, fb: Feedback)
    ensures
        spec_messages(fbs.push(fb)) == (match spec_message(fb) {
            Option::None => spec_messages(fbs),
            Option::Some(m) => spec_messages(fbs).push(m),
        }),
{
    let p = fbs.push(fb);
    assert(p.last() == fb);
    assert(p.drop_last() =~= fbs);
}

/// A line of nothing but whitespace, with a default configured, always
/// resolves to that default, whatever validator is attached: the default is
/// never put before the validator.
pub proof fn lemma_blank_line_takes_default<T, F: Fn(&T) -> bool, P: Fn(&str) -> Result<T, String>>(
    cfg: Input<T, F>,
    parser: P,
    line: Seq<char>,
    r: Outcome<T, F>,
)
    requires
        cfg.default is Some,
        all_space(line),
        advance_post(cfg, parser, line, r),
    ensures
        r == Outcome::<T, F>::Done(cfg.default->0),
{
    lemma_all_space_trims_empty(line);
}

/// Whitespace around a line never matters: a padded line admits exactly the
/// outcomes of the line itself.
pub proof fn lemma_padding_immaterial<T, F: Fn(&T) -> bool, P: Fn(&str) -> Result<T, String>>(
    cfg: Input<T, F>,
    parser: P,
    pad_front: Seq<char>,
    line: Seq<char>,
    pad_back: Seq<char>,
    r: Outcome<T, F>,
)
    requires
        all_space(pad_front),
        all_space(pad_back),
    ensures
        advance_post(cfg, parser, pad_front + line + pad_back, r) == advance_post(
            cfg,
            parser,
            line,
            r,
        ),
{
    lemma_trim_of_padded(pad_front, line, pad_back);
}

/// A well-formed line must resolve to its value: when the parser reads the
/// trimmed text of a line only as `v`, and the validator (if any) never
/// answers no about `v`, the line resolves to `v` and nothing else.
pub proof fn lemma_readable_line_yields_value<
    T,
    F: Fn(&T) -> bool,
    P: Fn(&str) -> Result<T, String>,
>(cfg: Input<T, F>, parser: P, line: Seq<char>, v: T, r: Outcome<T, F>)
    requires
        trimmed(line).len() > 0,
        advance_post(cfg, parser, line, r),
        forall|t: &str, out: Result<T, String>|
            t@ == trimmed(line) && #[trigger] call_ensures(parser, (t,), out) ==> out == Result::<
                T,
                String,
            >::Ok(v),
        cfg.validator matches Some(f) ==> forall|u: &T, b: bool|
            #[trigger] call_ensures(f, (u,), b) && *u == v ==> b,
    ensures
        r == Outcome::<T, F>::Done(v),
{
    match r {
        Outcome::Done(w) => {
            let t = choose|t: &str|
                t@ == trimmed(line) && #[trigger] call_ensures(
                    parser,
                    (t,),
                    Result::<T, String>::Ok(w),
                );
            assert(Result::<T, String>::Ok(w) == Result::<T, String>::Ok(v));
        },
        Outcome::Retry(back, fb) => {
            if exists|t: &str, e: String|
                t@ == trimmed(line) && #[trigger] call_ensures(
                    parser,
                    (t,),
                    Result::<T, String>::Err(e),
                ) && fb == Feedback::BadParse(e) {
                let (t, e) = choose|t: &str, e: String|
                    t@ == trimmed(line) && #[trigger] call_ensures(
                        parser,
                        (t,),
                        Result::<T, String>::Err(e),
                    ) && fb == Feedback::BadParse(e);
                assert(Result::<T, String>::Err(e) == Result::<T, String>::Ok(v));
                assert(false);
            } else {
                let (t, u) = choose|t: &str, u: T|
                    t@ == trimmed(line) && #[trigger] call_ensures(
                        parser,
                        (t,),
                        Result::<T, String>::Ok(u),
                    ) && rejects(cfg, u);
                assert(Result::<T, String>::Ok(u) == Result::<T, String>::Ok(v));
                let f = cfg.validator->0;
                assert(call_ensures(f, (&u,), false) && u == v);
                assert(false);
            }
        },
    }
}

/// A retry hands the configuration back untouched, so the composed prompt
/// shown on the next attempt is the same text, verbatim.
pub proof fn lemma_retry_keeps_prompt<T, F: Fn(&T) -> bool, P: Fn(&str) -> Result<T, String>>(
    cfg: Input<T, F>,
    parser: P,
    line: Seq<char>,
    back: Input<T, F>,
    fb: Feedback,
)
    requires
        advance_post(cfg, parser, line, Outcome::<T, F>::Retry(back, fb)),
    ensures
        back == cfg,
        back.composed() == cfg.composed(),
{
}

/// Every rejected attempt on a line with visible text leaves exactly one
/// advisory line: when each of the `count` rejected lines trimmed to visible
/// text, `notes` holds exactly `count` messages.
pub proof fn lemma_note_per_rejection<T, F: Fn(&T) -> bool, P: Fn(&str) -> Result<T, String>>(
    cfg: Input<T, F>,
    parser: P,
    lines: Seq<Seq<char>>,
    count: int,
    notes: Seq<Seq<char>>,
)
    requires
        retries_noted(cfg, parser, lines, count, notes),
        forall|j: int| 0 <= j < count ==> trimmed(#[trigger] lines[j]).len() > 0,
    ensures
        notes.len() == count,
{
    let fbs = choose|fbs: Seq<Feedback>|
        trace_matches(cfg, parser, lines, count, notes, fbs);
    assert forall|j: int| 0 <= j < count implies spec_message(#[trigger] fbs[j]) is Some by {
        assert(retry_step(cfg, parser, lines[j], fbs[j]));
    }
    lemma_messages_all_present(fbs);
}

proof fn lemma_messages_all_present(fbs: Seq<Feedback>)
    requires
        forall|j: int| 0 <= j < fbs.len() ==> spec_message(#[trigger] fbs[j]) is Some,
    ensures
        spec_messages(fbs).len() == fbs.len(),
    decreases fbs.len(),
{
    if fbs.len() > 0 {
        assert(forall|j: int|
            0 <= j < fbs.drop_last().len() ==> spec_message(#[trigger] fbs.drop_last()[j]) is Some);
        lemma_messages_all_present(fbs.drop_last());
        assert(spec_message(fbs.last()) is Some);
    }
}

} // verus!
