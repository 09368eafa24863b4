//! `{{variable}}` template compilation.

use vstd::prelude::*;

use crate::chars::{
    append_chars, append_str, chars_of, find_in, find_pattern, lemma_find_pattern_bounds,
    owned, string_from_chars, trim_range, trim_spec,
};
use crate::error::LangfuseError;
use crate::store::KeyedStore;

verus! {

broadcast use vstd::string::group_string_axioms;

/// The variables that a template is compiled with: a map from variable names
/// to their values.
pub struct TemplateVariables {
    store: KeyedStore<String>,
}

impl View for TemplateVariables {
    type V = Map<Seq<char>, Seq<char>>;

    closed spec fn view(&self) -> Map<Seq<char>, Seq<char>> {
        self.store@.map_values(|v: String| v@)
    }
}

impl TemplateVariables {
    /// No variables.
    pub fn new() -> (r: TemplateVariables)
        ensures
            r@ == Map::<Seq<char>, Seq<char>>::empty(),
    {
        let r = TemplateVariables { store: KeyedStore::new() };
        assert(r@ =~= Map::<Seq<char>, Seq<char>>::empty());
        r
    }

    /// The number of variables.
    pub fn len(&self) -> (r: usize)
        ensures
            self@.dom().finite(),
            r == self@.dom().len(),
    {
        let r = self.store.len();
        assert(self@.dom() =~= self.store@.dom());
        r
    }

    /// Sets `name` to `value`, replacing any earlier value of `name`.
    pub fn insert(&mut self, name: String, value: String)
        ensures
            final(self)@ == old(self)@.insert(name@, value@),
    {
        let ghost k = name@;
        let ghost v = value@;
        self.store.insert(name, value);
        assert(self@ =~= old(self)@.insert(k, v));
    }

    /// The value of `name`, if it is set.
    pub fn get(&self, name: &str) -> (r: Option<&String>)
        ensures
            match r {
                Some(v) => self@.contains_key(name@) && v@ == self@[name@],
                None => !self@.contains_key(name@),
            },
    {
        self.store.get(name)
    }
}

/// Why a template does not compile.
pub enum TemplateError {
    /// A `{{` has no `}}` after it.
    Unclosed,
    /// A placeholder names a variable that is not set.
    MissingVariable(Seq<char>),
}

/// The result of compiling `t` with `vars`: scanning from the left, each
/// `{{name}}` (name trimmed of surrounding whitespace) is replaced by the
/// value of `name`; text outside placeholders is kept as it is.
pub open spec fn compile_spec(t: Seq<char>, vars: Map<Seq<char>, Seq<char>>) -> Result<
    Seq<char>,
    TemplateError,
>
    decreases t.len(),
{
    match find_pattern(t, seq!['{', '{']) {
        None => Ok(t),
        Some(start) => {
            let after = t.subrange(start + seq!['{', '{'].len(), t.len() as int);
            match find_pattern(after, seq!['}', '}']) {
                None => Err(TemplateError::Unclosed),
                Some(end) => {
                    let name = trim_spec(after.subrange(0, end));
                    if vars.contains_key(name) {
                        proof {
                            lemma_find_pattern_bounds(t, seq!['{', '{']);
                            lemma_find_pattern_bounds(after, seq!['}', '}']);
                        }
                        match compile_spec(
                            after.subrange(end + seq!['}', '}'].len(), after.len() as int),
                            vars,
                        ) {
                            Ok(rest) => Ok(t.subrange(0, start) + vars[name] + rest),
                            Err(e) => Err(e),
                        }
                    } else {
                        Err(TemplateError::MissingVariable(name))
                    }
                },
            }
        },
    }
}

/// `prefix` put in front of the text of a successful compilation.
pub open spec fn prefixed(prefix: Seq<char>, r: Result<Seq<char>, TemplateError>) -> Result<
    Seq<char>,
    TemplateError,
> {
    match r {
        Ok(s) => Ok(prefix + s),
        Err(e) => Err(e),
    }
}

/// The executable result `r` is what `spec` describes.
pub open spec fn compiled_as(
    r: Result<String, LangfuseError>,
    spec: Result<Seq<char>, TemplateError>,
) -> bool {
    match spec {
        Ok(s) => r matches Ok(out) && out@ == s,
        Err(TemplateError::Unclosed) => r matches Err(LangfuseError::PromptCompilation { variable })
            && variable@ == "unclosed {{"@,
        Err(TemplateError::MissingVariable(name)) => r matches Err(
            LangfuseError::PromptCompilation { variable },
        ) && variable@ == name,
    }
}

/// Shared template compilation logic.
///
/// Scans `template` for `{{name}}` patterns and replaces each with the
/// corresponding value from `variables`. Whitespace inside the braces is
/// trimmed so `{{ name }}` works identically to `{{name}}`.
pub fn compile_template(template: &str, variables: &TemplateVariables) -> (r: Result<
    String,
    LangfuseError,
>)
    ensures
        compiled_as(r, compile_spec(template@, variables@)),
{
    let chars = chars_of(template);
    let open = vec!['{', '{'];
    let close = vec!['}', '}'];
    let n = chars.len();
    let mut out = String::new();
    let mut pos: usize = 0;
    assert(chars@.subrange(0, n as int) =~= chars@);
    loop
        invariant
            pos <= n == chars@.len(),
            chars@ == template@,
            open@ == seq!['{', '{'],
            close@ == seq!['}', '}'],
            compile_spec(template@, variables@) == prefixed(
                out@,
                compile_spec(chars@.subrange(pos as int, n as int), variables@),
            ),
        decreases n - pos,
    {
        let ghost s = chars@.subrange(pos as int, n as int);
        match find_in(&chars, pos, n, &open) {
            None => {
                append_chars(&mut out, &chars, pos, n);
                assert(compile_spec(s, variables@) == Ok::<Seq<char>, TemplateError>(s));
                return Ok(out);
            },
            Some(start) => {
                let ghost before = out@;
                append_chars(&mut out, &chars, pos, start);
                let after = start + 2;
                let ghost after_s = s.subrange((start - pos) + seq!['{', '{'].len(), s.len() as int);
                assert(after_s =~= chars@.subrange(after as int, n as int));
                match find_in(&chars, after, n, &close) {
                    None => {
                        let variable = owned("unclosed {{");
                        return Err(LangfuseError::PromptCompilation { variable });
                    },
                    Some(end) => {
                        let (a, b) = trim_range(&chars, after, end);
                        assert(after_s.subrange(0, end - after) =~= chars@.subrange(
                            after as int,
                            end as int,
                        ));
                        let name = string_from_chars(&chars, a, b);
                        match variables.get(name.as_str()) {
                            None => {
                                return Err(LangfuseError::PromptCompilation { variable: name });
                            },
                            Some(value) => {
                                append_str(&mut out, value.as_str());
                                let ghost rest = after_s.subrange(
                                    (end - after) + seq!['}', '}'].len(),
                                    after_s.len() as int,
                                );
                                assert(rest =~= chars@.subrange(end + 2, n as int));
                                assert(s.subrange(0, start - pos) =~= chars@.subrange(
                                    pos as int,
                                    start as int,
                                ));
                                proof {
                                    match compile_spec(rest, variables@) {
                                        Ok(x) => {
                                            assert(before + (chars@.subrange(
                                                pos as int,
                                                start as int,
                                            ) + value@ + x) =~= out@ + x);
                                        },
                                        Err(_) => {},
                                    }
                                }
                                pos = end + 2;
                            },
                        }
                    },
                }
            },
        }
    }
}


/// A template without any `{{` compiles to itself, whatever the variables.
pub proof fn lemma_plain_template_unchanged(t: Seq<char>, vars: Map<Seq<char>, Seq<char>>)
    requires
        find_pattern(t, seq!['{', '{']) is None,
    ensures
        compile_spec(t, vars) == Ok::<Seq<char>, TemplateError>(t),
{
}

} // verus!
