//! Flags and their values.

use vstd::prelude::*;
use crate::backend::BuildTarget;
use crate::backend_search::BackendSearch;
#[allow(unused_imports)]
use crate::backend_search::SearchModel;
use crate::text::{copy_text, same_text};
#[allow(unused_imports)]
use crate::text::text_in;

verus! {

/// The words of a command line.
pub open spec fn words(args: Seq<String>) -> Seq<Seq<char>> {
    Seq::new(args.len(), |i: int| args[i]@)
}

/// A flag and its value, as they are written.
pub type Pair = (Seq<char>, Seq<char>);

/// The arguments that some flags with their values make.
pub open spec fn spelled(pairs: Seq<Pair>) -> Seq<Seq<char>> {
    Seq::new(
        2 * pairs.len(),
        |i: int|
            if i % 2 == 0 {
                pairs[i / 2].0
            } else {
                pairs[i / 2].1
            },
    )
}

/// What is said where a flag stands at the end of a command line.
pub open spec fn missing_value(flag: Seq<char>) -> Seq<char> {
    "missing value for "@ + flag
}

/// The value behind the flag at `idx`, whatever it looks like. `idx` moves behind it.
pub fn value_arg(args: &Vec<String>, idx: &mut usize, flag: &str) -> (r: Result<String, String>)
    requires
        *old(idx) < usize::MAX,
    ensures
        match r {
            Ok(value) => {
                &&& *old(idx) + 1 < args@.len()
                &&& value@ == args@[*old(idx) + 1]@
                &&& *final(idx) == *old(idx) + 2
            },
            Err(message) => {
                &&& *old(idx) + 1 >= args@.len()
                &&& message@ == missing_value(flag@)
                &&& *final(idx) == *old(idx) + 1
            },
        },
{
    let len: usize = args.len();
    *idx = *idx + 1;
    if *idx >= len {
        let mut message = "missing value for ".to_string();
        message.append(flag);
        return Err(message);
    }
    let value = args[*idx].clone();
    *idx = *idx + 1;
    Ok(value)
}

/// Choices of backends that override the environment, as they were written.
#[derive(Debug)]
pub struct RuntimeBackendOverrides {
    pub backend: Option<String>,
    pub backend_fallback: Option<String>,
    pub vocoder_ep: Option<String>,
    pub vocoder_ep_fallback: Option<String>,
}

/// What contracts say of [`RuntimeBackendOverrides`].
pub struct OverridesModel {
    pub backend: Option<Seq<char>>,
    pub backend_fallback: Option<Seq<char>>,
    pub vocoder_ep: Option<Seq<char>>,
    pub vocoder_ep_fallback: Option<Seq<char>>,
}

impl View for RuntimeBackendOverrides {
    type V = OverridesModel;

    open spec fn view(&self) -> OverridesModel {
        OverridesModel {
            backend: text_in(self.backend),
            backend_fallback: text_in(self.backend_fallback),
            vocoder_ep: text_in(self.vocoder_ep),
            vocoder_ep_fallback: text_in(self.vocoder_ep_fallback),
        }
    }
}

/// Whether a word is a flag that chooses backends.
pub open spec fn backend_flag(word: Seq<char>) -> bool {
    word == "--backend"@ || word == "--backend-fallback"@ || word == "--vocoder-ep"@ || word
        == "--vocoder-ep-fallback"@
}

impl OverridesModel {
    /// No choices.
    pub open spec fn unset() -> OverridesModel {
        OverridesModel {
            backend: None,
            backend_fallback: None,
            vocoder_ep: None,
            vocoder_ep_fallback: None,
        }
    }

    /// The choice that a flag makes, if any.
    pub open spec fn get(self, flag: Seq<char>) -> Option<Seq<char>> {
        if flag == "--backend"@ {
            self.backend
        } else if flag == "--backend-fallback"@ {
            self.backend_fallback
        } else if flag == "--vocoder-ep"@ {
            self.vocoder_ep
        } else {
            self.vocoder_ep_fallback
        }
    }

    /// The choices with that of one flag replaced.
    pub open spec fn with(self, flag: Seq<char>, value: Seq<char>) -> OverridesModel {
        if flag == "--backend"@ {
            OverridesModel { backend: Some(value), ..self }
        } else if flag == "--backend-fallback"@ {
            OverridesModel { backend_fallback: Some(value), ..self }
        } else if flag == "--vocoder-ep"@ {
            OverridesModel { vocoder_ep: Some(value), ..self }
        } else {
            OverridesModel { vocoder_ep_fallback: Some(value), ..self }
        }
    }
}

/// The first of two choices that is made.
pub open spec fn first_made(a: Option<Seq<char>>, b: Option<Seq<char>>) -> Option<Seq<char>> {
    if a is Some {
        a
    } else {
        b
    }
}

impl OverridesModel {
    /// These choices, and others where one is not made.
    pub open spec fn over(self, others: OverridesModel) -> OverridesModel {
        OverridesModel {
            backend: first_made(self.backend, others.backend),
            backend_fallback: first_made(self.backend_fallback, others.backend_fallback),
            vocoder_ep: first_made(self.vocoder_ep, others.vocoder_ep),
            vocoder_ep_fallback: first_made(self.vocoder_ep_fallback, others.vocoder_ep_fallback),
        }
    }
}

fn first_choice(a: &Option<String>, b: &Option<String>) -> (r: Option<String>)
    ensures
        text_in(r) == first_made(text_in(*a), text_in(*b)),
{
    if a.is_some() {
        copy_text(a)
    } else {
        copy_text(b)
    }
}

impl Default for RuntimeBackendOverrides {
    fn default() -> (r: RuntimeBackendOverrides)
        ensures
            r@ == OverridesModel::unset(),
    {
        RuntimeBackendOverrides {
            backend: None,
            backend_fallback: None,
            vocoder_ep: None,
            vocoder_ep_fallback: None,
        }
    }
}

impl RuntimeBackendOverrides {
    /// These choices, and those of the environment where one is not made.
    pub fn over(&self, environment: &RuntimeBackendOverrides) -> (r: RuntimeBackendOverrides)
        ensures
            r@ == self@.over(environment@),
    {
        RuntimeBackendOverrides {
            backend: first_choice(&self.backend, &environment.backend),
            backend_fallback: first_choice(&self.backend_fallback, &environment.backend_fallback),
            vocoder_ep: first_choice(&self.vocoder_ep, &environment.vocoder_ep),
            vocoder_ep_fallback: first_choice(
                &self.vocoder_ep_fallback,
                &environment.vocoder_ep_fallback,
            ),
        }
    }

    /// The search for the backend that these choices ask for.
    pub fn search(&self, target: BuildTarget) -> (r: BackendSearch)
        ensures
            r.wf(),
            r.model() == SearchModel::start(target, self@.backend, self@.backend_fallback),
    {
        BackendSearch::start(target, &self.backend, &self.backend_fallback)
    }

    /// Takes the flag at `idx` up, where it is one that chooses backends, and moves behind its
    /// value.
    pub fn parse_flag(&mut self, args: &Vec<String>, idx: &mut usize) -> (r: Result<bool, String>)
        requires
            *old(idx) < args.len(),
        ensures
            ({
                let word = args@[*old(idx) as int]@;
                match r {
                    Ok(true) => {
                        &&& backend_flag(word)
                        &&& *old(idx) + 1 < args@.len()
                        &&& *final(idx) == *old(idx) + 2
                        &&& final(self)@ == old(self)@.with(word, args@[*old(idx) + 1]@)
                    },
                    Ok(false) => {
                        &&& !backend_flag(word)
                        &&& *final(idx) == *old(idx)
                        &&& final(self)@ == old(self)@
                    },
                    Err(message) => {
                        &&& backend_flag(word)
                        &&& *old(idx) + 1 == args@.len()
                        &&& message@ == missing_value(word)
                        &&& final(self)@ == old(self)@
                    },
                }
            }),
    {
        let flag = args[*idx].clone();
        if same_text(flag.as_str(), "--backend") {
            match value_arg(args, idx, flag.as_str()) {
                Ok(value) => {
                    self.backend = Some(value);
                },
                Err(message) => {
                    return Err(message);
                },
            }
        } else if same_text(flag.as_str(), "--backend-fallback") {
            match value_arg(args, idx, flag.as_str()) {
                Ok(value) => {
                    self.backend_fallback = Some(value);
                },
                Err(message) => {
                    return Err(message);
                },
            }
        } else if same_text(flag.as_str(), "--vocoder-ep") {
            match value_arg(args, idx, flag.as_str()) {
                Ok(value) => {
                    self.vocoder_ep = Some(value);
                },
                Err(message) => {
                    return Err(message);
                },
            }
        } else if same_text(flag.as_str(), "--vocoder-ep-fallback") {
            match value_arg(args, idx, flag.as_str()) {
                Ok(value) => {
                    self.vocoder_ep_fallback = Some(value);
                },
                Err(message) => {
                    return Err(message);
                },
            }
        } else {
            return Ok(false);
        }
        Ok(true)
    }
}

} // verus!
